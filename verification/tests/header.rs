use dicom_core::data::{DataElementHeader, Header, Length, SequenceItemHeader, Tag, VR};
use dicom_core::error::{Error, InvalidValueReadError, IoError, IoErrorKind, TextEncodingError};

#[test]
fn item_header_is_made_from_the_item_tag() {
    let h = SequenceItemHeader::new((0xFFFE, 0xE000), Length::defined(24)).unwrap();
    assert!(matches!(h, SequenceItemHeader::Item { len } if len == Length::defined(24)));
    let h = SequenceItemHeader::new(Tag(0xFFFE, 0xE000), Length::undefined()).unwrap();
    assert!(matches!(h, SequenceItemHeader::Item { len } if len.is_undefined()));
    let h = SequenceItemHeader::new([0xFFFE, 0xE000], Length::defined(0)).unwrap();
    assert_eq!(h, SequenceItemHeader::Item { len: Length(0) });
}

#[test]
fn item_delimiter_must_have_length_zero() {
    assert_eq!(
        SequenceItemHeader::new((0xFFFE, 0xE00D), Length::defined(0)).unwrap(),
        SequenceItemHeader::ItemDelimiter
    );
    assert_eq!(
        SequenceItemHeader::new((0xFFFE, 0xE00D), Length::defined(1)),
        Err(Error::UnexpectedDataValueLength)
    );
    assert_eq!(
        SequenceItemHeader::new((0xFFFE, 0xE00D), Length::defined(0xFFFF_FFFE)),
        Err(Error::UnexpectedDataValueLength)
    );
    assert_eq!(
        SequenceItemHeader::new((0xFFFE, 0xE00D), Length::undefined()),
        Err(Error::UnexpectedDataValueLength)
    );
    assert_eq!(
        SequenceItemHeader::from_parts(Tag(0xFFFE, 0xE00D), Length::defined(8)),
        Err(Error::UnexpectedDataValueLength)
    );
}

#[test]
fn sequence_delimiter_takes_any_length() {
    for len in [Length(0), Length(1), Length(0x1234), Length::undefined()].iter() {
        assert_eq!(
            SequenceItemHeader::new((0xFFFE, 0xE0DD), *len).unwrap(),
            SequenceItemHeader::SequenceDelimiter
        );
        assert_eq!(
            SequenceItemHeader::from_parts(Tag(0xFFFE, 0xE0DD), *len).unwrap(),
            SequenceItemHeader::SequenceDelimiter
        );
    }
}

#[test]
fn other_tags_are_no_sequence_items() {
    assert_eq!(
        SequenceItemHeader::new((0x0010, 0x0010), Length::defined(0)),
        Err(Error::UnexpectedElement)
    );
    assert_eq!(
        SequenceItemHeader::new((0x0010, 0x0010), Length::undefined()),
        Err(Error::UnexpectedElement)
    );
    assert_eq!(
        SequenceItemHeader::new((0xFFFE, 0xE001), Length::defined(0)),
        Err(Error::UnexpectedElement)
    );
    assert_eq!(
        SequenceItemHeader::new((0xE000, 0xFFFE), Length::defined(0)),
        Err(Error::UnexpectedElement)
    );
    assert_eq!(
        SequenceItemHeader::from_parts(Tag(0x0008, 0x0005), Length::defined(0)),
        Err(Error::UnexpectedElement)
    );
}

#[test]
fn sequence_item_header_knows_its_tag_and_length() {
    let item = SequenceItemHeader::Item { len: Length(12) };
    assert_eq!(item.tag(), Tag(0xFFFE, 0xE000));
    assert_eq!(item.len(), Length(12));
    assert!(item.is_item());
    assert!(!item.is_item_delimiter());
    assert!(!item.is_sequence_delimiter());
    let delimiter = SequenceItemHeader::ItemDelimiter;
    assert_eq!(delimiter.tag(), Tag(0xFFFE, 0xE00D));
    assert_eq!(delimiter.len(), Length(0));
    assert!(delimiter.is_item_delimiter());
    assert!(!delimiter.is_item());
    let end = SequenceItemHeader::SequenceDelimiter;
    assert_eq!(end.tag(), Tag(0xFFFE, 0xE0DD));
    assert_eq!(end.len(), Length(0));
    assert!(end.is_sequence_delimiter());
    assert!(!end.is_item_delimiter());
}

#[test]
fn sequence_item_header_converts_with_vr_un() {
    let h = DataElementHeader::from(SequenceItemHeader::Item { len: Length(12) });
    assert_eq!(h.tag, Tag(0xFFFE, 0xE000));
    assert_eq!(h.vr, VR::UN);
    assert_eq!(h.len, Length(12));
    let h: DataElementHeader = SequenceItemHeader::Item { len: Length::undefined() }.into();
    assert_eq!(h.tag, Tag(0xFFFE, 0xE000));
    assert_eq!(h.vr, VR::UN);
    assert!(h.len.is_undefined());
    let h = DataElementHeader::from(SequenceItemHeader::ItemDelimiter);
    assert_eq!(h, DataElementHeader { tag: Tag(0xFFFE, 0xE00D), vr: VR::UN, len: Length(0) });
    let h = DataElementHeader::from(SequenceItemHeader::SequenceDelimiter);
    assert_eq!(h, DataElementHeader { tag: Tag(0xFFFE, 0xE0DD), vr: VR::UN, len: Length(0) });
}

#[test]
fn data_element_header_holds_its_parts() {
    let h = DataElementHeader::new((0x0010, 0x0010), VR::PN, Length(8));
    assert_eq!(h.tag, Tag(0x0010, 0x0010));
    assert_eq!(h.tag(), Tag(0x0010, 0x0010));
    assert_eq!(h.vr(), VR::PN);
    assert_eq!(h.len(), Length(8));
    assert!(!h.is_item());
    assert!(!h.is_item_delimiter());
    assert!(!h.is_sequence_delimiter());
    let h = DataElementHeader::new(Tag(0xFFFE, 0xE00D), VR::UN, Length(0));
    assert!(h.is_item_delimiter());
    let h = DataElementHeader::new([0xFFFE, 0xE0DD], VR::UN, Length(0));
    assert!(h.is_sequence_delimiter());
    let h = DataElementHeader::new(Tag(0xFFFE, 0xE000), VR::UN, Length::undefined());
    assert!(h.is_item());
}

#[test]
fn headers_of_undefined_length_are_not_equal() {
    let a = DataElementHeader::new((0x0040, 0x0275), VR::SQ, Length::undefined());
    assert_ne!(a, a);
    let b = DataElementHeader::new((0x0040, 0x0275), VR::SQ, Length(10));
    assert_eq!(b, b);
}

#[test]
fn only_an_early_end_of_the_source_is_an_unexpected_eof() {
    let eof = Error::Io(IoError { kind: IoErrorKind::UnexpectedEof, message: String::new() });
    assert!(eof.is_unexpected_eof());
    let other = Error::Io(IoError { kind: IoErrorKind::Other, message: "broken pipe".to_string() });
    assert!(!other.is_unexpected_eof());
    assert!(!Error::UnexpectedElement.is_unexpected_eof());
    assert!(!Error::UnexpectedDataValueLength.is_unexpected_eof());
    assert!(!Error::InvalidHeader.is_unexpected_eof());
    assert!(!Error::UnsupportedCharacterSet.is_unexpected_eof());
    assert!(!Error::ValueRead(InvalidValueReadError::InvalidFormat).is_unexpected_eof());
}

#[test]
fn errors_are_made_from_their_causes() {
    assert_eq!(
        Error::from(InvalidValueReadError::UnresolvedValueLength),
        Error::ValueRead(InvalidValueReadError::UnresolvedValueLength)
    );
    let cause = TextEncodingError::new("invalid sequence".to_string());
    assert_eq!(cause.message, "invalid sequence");
    assert_eq!(Error::from(cause.clone()), Error::TextEncoding(cause));
    let io = IoError { kind: IoErrorKind::Other, message: "disk".to_string() };
    assert_eq!(Error::from(io.clone()), Error::Io(io));
}
