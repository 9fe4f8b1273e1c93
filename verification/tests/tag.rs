use dicom_core::data::Tag;

#[test]
fn tag_from_u16_pair() {
    let t = Tag::from((0x0010u16, 0x0020u16));
    assert_eq!(0x0010u16, t.group());
    assert_eq!(0x0020u16, t.element());
}

#[test]
fn tag_from_u16_array() {
    let t = Tag::from([0x0010u16, 0x0020u16]);
    assert_eq!(0x0010u16, t.group());
    assert_eq!(0x0020u16, t.element());
}

#[test]
fn tag_equals_componentwise() {
    assert_eq!(Tag(0x0010, 0x0020), Tag(0x0010, 0x0020));
    assert_ne!(Tag(0x0010, 0x0020), Tag(0x0010, 0x0021));
    assert_ne!(Tag(0x0010, 0x0020), Tag(0x0011, 0x0020));
    assert_ne!(Tag(0x0010, 0x0020), Tag(0x0020, 0x0010));
}

#[test]
fn tag_compares_with_pairs_and_arrays() {
    let t = Tag(0x0008, 0x0005);
    assert!(t == (0x0008u16, 0x0005u16));
    assert!(t != (0x0008u16, 0x0006u16));
    assert!(t != (0x0005u16, 0x0008u16));
    assert!(t == [0x0008u16, 0x0005u16]);
    assert!(t != [0x0009u16, 0x0005u16]);
}

#[test]
fn tag_order_is_by_group_then_element() {
    assert!(Tag(0x0008, 0xFFFF) < Tag(0x0010, 0x0000));
    assert!(Tag(0x0010, 0x0010) < Tag(0x0010, 0x0020));
    assert!(Tag(0x0010, 0x0020) > Tag(0x0010, 0x0010));
    assert!(Tag(0x0010, 0x0020) <= Tag(0x0010, 0x0020));
    assert!(Tag(0x0010, 0x0020) >= Tag(0x0010, 0x0020));
    assert!(!(Tag(0x0010, 0x0020) < Tag(0x0010, 0x0020)));
    assert!(!(Tag(0x0020, 0x0000) < Tag(0x0010, 0xFFFF)));
    assert_eq!(
        Tag(0x0010, 0x0020).partial_cmp(&Tag(0x0010, 0x0020)),
        Some(std::cmp::Ordering::Equal)
    );
}

#[test]
fn tag_partial_order_agrees_with_total_order() {
    let tags = [
        Tag(0, 0),
        Tag(0, 1),
        Tag(1, 0),
        Tag(0x0008, 0x0005),
        Tag(0xFFFE, 0xE000),
        Tag(0xFFFE, 0xE00D),
        Tag(0xFFFF, 0xFFFF),
    ];
    for a in tags.iter() {
        for b in tags.iter() {
            assert_eq!(a.partial_cmp(b), Some(a.cmp(b)));
        }
    }
    let mut sorted = vec![Tag(0xFFFE, 0xE00D), Tag(0x0008, 0x0005), Tag(0x0008, 0x0001)];
    sorted.sort();
    assert_eq!(
        sorted,
        vec![Tag(0x0008, 0x0001), Tag(0x0008, 0x0005), Tag(0xFFFE, 0xE00D)]
    );
}

#[test]
fn tag_is_written_in_upper_case_with_leading_zeros() {
    assert_eq!(Tag(0x0010, 0x0020).to_string(), "(0010,0020)");
    assert_eq!(Tag(0xFFFE, 0xE0DD).to_string(), "(FFFE,E0DD)");
    assert_eq!(Tag(0, 0).to_string(), "(0000,0000)");
    assert_eq!(Tag(0x7FE0, 0x0010).to_string(), "(7FE0,0010)");
    assert_eq!(Tag(0x0A1B, 0xC2D3).to_string(), "(0A1B,C2D3)");
}
