use dicom_core::data::Length;

#[test]
fn undefined_is_never_equal() {
    assert_ne!(Length::undefined(), Length::undefined());
    assert!(!(Length::undefined() == Length::undefined()));
    assert_ne!(Length::undefined(), Length::defined(0));
    assert_ne!(Length::defined(16), Length::undefined());
    assert_ne!(Length::new(0xFFFF_FFFF), Length::new(0xFFFF_FFFF));
}

#[test]
fn defined_lengths_are_equal_when_their_numbers_are() {
    assert_eq!(Length::defined(16), Length::defined(16));
    assert_eq!(Length::new(16), Length::defined(16));
    assert_eq!(Length::from(16u32), Length(16));
    assert_ne!(Length::defined(16), Length::defined(17));
}

#[test]
fn arithmetic_with_undefined_is_undefined() {
    assert!((Length::defined(64) + Length::undefined()).is_undefined());
    assert!((Length::undefined() + Length::defined(64)).is_undefined());
    assert!((Length::undefined() + Length::undefined()).is_undefined());
    assert!((Length::undefined() + 8).is_undefined());
    assert!((Length::undefined() + (-8)).is_undefined());
    assert!((Length::undefined() - Length::defined(1)).is_undefined());
    assert!((Length::defined(1) - Length::undefined()).is_undefined());
    assert!((Length::undefined() - 8).is_undefined());
    assert!((Length::undefined() - i32::MIN).is_undefined());
}

#[test]
fn comparisons_with_undefined_are_false() {
    assert!(Length::defined(16) < Length::defined(64));
    assert!(Length::defined(64) > Length::defined(16));
    assert!(Length::defined(16) <= Length::defined(16));
    assert!(Length::defined(16) >= Length::defined(16));
    assert!(!(Length::undefined() < Length::defined(64)));
    assert!(!(Length::undefined() > Length::defined(64)));
    assert!(!(Length::defined(64) < Length::undefined()));
    assert!(!(Length::defined(64) > Length::undefined()));
    assert!(!(Length::undefined() < Length::undefined()));
    assert!(!(Length::undefined() > Length::undefined()));
    assert!(!(Length::undefined() <= Length::undefined()));
    assert!(!(Length::undefined() >= Length::undefined()));
    assert_eq!(Length::undefined().partial_cmp(&Length::defined(1)), None);
    assert_eq!(
        Length::defined(2).partial_cmp(&Length::defined(1)),
        Some(std::cmp::Ordering::Greater)
    );
}

#[test]
fn sum_of_defined_lengths_is_defined() {
    assert_eq!(Length::defined(3) + Length::defined(4), Length::defined(7));
    assert_eq!(Length::defined(0) + Length::defined(0), Length::defined(0));
    assert_eq!(
        Length::defined(0xFFFF_FFF0) + Length::defined(0xE),
        Length::defined(0xFFFF_FFFE)
    );
    assert_eq!((Length::defined(3) + Length::defined(4)).get(), Some(7));
}

#[test]
fn difference_of_defined_lengths_is_defined() {
    assert_eq!(Length::defined(10) - Length::defined(4), Length::defined(6));
    assert_eq!(Length::defined(10) - Length::defined(10), Length::defined(0));
    assert_eq!(
        Length::defined(0xFFFF_FFFE) - Length::defined(0),
        Length::defined(0xFFFF_FFFE)
    );
}

#[test]
fn signed_delta_moves_a_defined_length() {
    assert_eq!(Length::defined(5) + 3, Length::defined(8));
    assert_eq!(Length::defined(5) + (-3), Length::defined(2));
    assert_eq!(Length::defined(5) - 3, Length::defined(2));
    assert_eq!(Length::defined(5) - (-3), Length::defined(8));
    assert_eq!(Length::defined(0x8000_0000) + (-1), Length::defined(0x7FFF_FFFF));
    assert_eq!(Length::defined(0x7FFF_FFFF) + 1, Length::defined(0x8000_0000));
    assert_eq!(Length::defined(3) - i32::MIN, Length::defined(0x8000_0003));
    assert_eq!(Length::defined(0x8000_0003) + i32::MIN, Length::defined(3));
    assert_eq!(Length::defined(5) - 7, Length::defined(0xFFFF_FFFE));
    assert_eq!(Length::defined(0) + i32::MAX, Length::defined(0x7FFF_FFFF));
}

#[test]
fn predicates_and_accessor() {
    assert!(Length::undefined().is_undefined());
    assert!(!Length::undefined().is_defined());
    assert!(Length::defined(0).is_defined());
    assert!(!Length::defined(0).is_undefined());
    assert!(Length::new(0xFFFF_FFFF).is_undefined());
    assert!(Length::new(0xFFFF_FFFE).is_defined());
    assert_eq!(Length::undefined().get(), None);
    assert_eq!(Length::defined(0).get(), Some(0));
    assert_eq!(Length::defined(0xFFFF_FFFE).get(), Some(0xFFFF_FFFE));
    assert_eq!(Length::undefined().0, 0xFFFF_FFFF);
}

#[test]
fn length_is_written_in_decimal_or_as_undefined() {
    assert_eq!(Length::undefined().to_string(), "U/L");
    assert_eq!(Length::defined(0).to_string(), "0");
    assert_eq!(Length::defined(8).to_string(), "8");
    assert_eq!(Length::defined(10).to_string(), "10");
    assert_eq!(Length::defined(1024).to_string(), "1024");
    assert_eq!(Length::defined(907_060).to_string(), "907060");
    assert_eq!(Length::defined(0xFFFF_FFFE).to_string(), "4294967294");
}
