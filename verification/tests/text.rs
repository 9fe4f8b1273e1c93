use dicom_core::data::text::{
    decode_text_trap, same_text, validate_cs, validate_da, validate_dt, validate_iso_8859,
    validate_tm, DefaultCharacterSetCodec, DynamicTextCodec, SpecificCharacterSet, TextCodec,
    TextValidationOutcome, Utf8CharacterSetCodec,
};
use dicom_core::error::Error;

#[test]
fn character_sets_are_found_by_code() {
    assert_eq!(
        SpecificCharacterSet::from_code("Default"),
        Some(SpecificCharacterSet::Default)
    );
    assert_eq!(
        SpecificCharacterSet::from_code("ISO_IR_6"),
        Some(SpecificCharacterSet::Default)
    );
    assert_eq!(
        SpecificCharacterSet::from_code("ISO_IR_192"),
        Some(SpecificCharacterSet::IsoIr192)
    );
}

#[test]
fn unknown_codes_name_no_character_set() {
    assert_eq!(SpecificCharacterSet::from_code(""), None);
    assert_eq!(SpecificCharacterSet::from_code("default"), None);
    assert_eq!(SpecificCharacterSet::from_code("ISO_IR 192"), None);
    assert_eq!(SpecificCharacterSet::from_code("ISO_IR_100"), None);
    assert_eq!(SpecificCharacterSet::from_code("ISO_IR_19"), None);
    assert_eq!(SpecificCharacterSet::from_code("ISO_IR_1922"), None);
    assert_eq!(SpecificCharacterSet::from_code("ISO_IR_6 "), None);
    assert_eq!(SpecificCharacterSet::from_code("ISO 2022 IR 87"), None);
}

#[test]
fn the_default_character_set_is_the_default() {
    assert_eq!(SpecificCharacterSet::default(), SpecificCharacterSet::Default);
}

#[test]
fn each_character_set_has_its_codec() {
    assert_eq!(
        SpecificCharacterSet::Default.get_codec(),
        Some(DynamicTextCodec::Default(DefaultCharacterSetCodec))
    );
    assert_eq!(
        SpecificCharacterSet::IsoIr192.get_codec(),
        Some(DynamicTextCodec::Utf8(Utf8CharacterSetCodec))
    );
}

#[test]
fn same_text_compares_whole_strings() {
    assert!(same_text("", ""));
    assert!(same_text("ISO_IR_192", "ISO_IR_192"));
    assert!(!same_text("ISO_IR_192", "ISO_IR_19"));
    assert!(!same_text("ISO_IR_19", "ISO_IR_192"));
    assert!(!same_text("abc", "abd"));
    assert!(same_text("çã", "çã"));
    assert!(!same_text("ça", "ca"));
}

#[test]
fn trap_writes_backslash_and_three_octal_digits() {
    assert_eq!(decode_text_trap(0xFF), "\\377");
    assert_eq!(decode_text_trap(0x00), "\\000");
    assert_eq!(decode_text_trap(0x07), "\\007");
    assert_eq!(decode_text_trap(0x08), "\\010");
    assert_eq!(decode_text_trap(0x80), "\\200");
    assert_eq!(decode_text_trap(0xC3), "\\303");
    assert_eq!(decode_text_trap(0x41), "\\101");
    assert_eq!(decode_text_trap(0x5C), "\\134");
}

#[test]
fn default_codec_decodes_every_byte() {
    let codec = DefaultCharacterSetCodec;
    assert_eq!(codec.decode(b"ABC^DEF ").unwrap(), "ABC^DEF ");
    assert_eq!(codec.decode(b"").unwrap(), "");
    assert_eq!(codec.decode(&[0xFF]).unwrap(), "\u{FF}");
    assert_eq!(codec.decode(&[0x41, 0xE7, 0xE3, 0x80]).unwrap(), "A\u{E7}\u{E3}\u{80}");
    let all: Vec<u8> = (0u8..=255).collect();
    let text = codec.decode(&all).unwrap();
    let expected: String = (0u32..=255).map(|c| char::from_u32(c).unwrap()).collect();
    assert_eq!(text, expected);
}

#[test]
fn default_codec_keeps_value_delimiters() {
    let codec = DefaultCharacterSetCodec;
    assert_eq!(codec.decode(b"ONE\\TWO\\THREE").unwrap(), "ONE\\TWO\\THREE");
    assert_eq!(codec.encode("ONE\\TWO").unwrap(), b"ONE\\TWO".to_vec());
}

#[test]
fn default_codec_encodes_up_to_u00ff() {
    let codec = DefaultCharacterSetCodec;
    assert_eq!(codec.encode("Smith^John").unwrap(), b"Smith^John".to_vec());
    assert_eq!(codec.encode("").unwrap(), Vec::<u8>::new());
    assert_eq!(codec.encode("Jo\u{E3}o \u{FF}").unwrap(), vec![0x4A, 0x6F, 0xE3, 0x6F, 0x20, 0xFF]);
    assert_eq!(codec.encode("\u{80}").unwrap(), vec![0x80]);
}

#[test]
fn default_codec_rejects_characters_beyond_u00ff() {
    let codec = DefaultCharacterSetCodec;
    assert!(matches!(codec.encode("\u{100}"), Err(Error::TextEncoding(_))));
    assert!(matches!(codec.encode("abc\u{20AC}"), Err(Error::TextEncoding(_))));
    assert!(matches!(codec.encode("\u{5C71}\u{7530}"), Err(Error::TextEncoding(_))));
    assert!(matches!(codec.encode("\u{1F600}"), Err(Error::TextEncoding(_))));
}

#[test]
fn utf8_codec_decodes_utf8() {
    let codec = Utf8CharacterSetCodec;
    assert_eq!(codec.decode(b"ABC^DEF ").unwrap(), "ABC^DEF ");
    assert_eq!(codec.decode(b"").unwrap(), "");
    assert_eq!(codec.decode("Jo\u{E3}o".as_bytes()).unwrap(), "Jo\u{E3}o");
    assert_eq!(
        codec.decode("\u{5C71}\u{7530}^\u{592A}\u{90CE}".as_bytes()).unwrap(),
        "\u{5C71}\u{7530}^\u{592A}\u{90CE}"
    );
    assert_eq!(codec.decode("\u{1F600}\\x".as_bytes()).unwrap(), "\u{1F600}\\x");
}

#[test]
fn utf8_codec_escapes_what_is_not_utf8() {
    let codec = Utf8CharacterSetCodec;
    assert_eq!(codec.decode(&[0xFF]).unwrap(), "\\377");
    assert_eq!(codec.decode(&[0x41, 0xFF, 0x42]).unwrap(), "A\\377B");
    assert_eq!(codec.decode(&[0xFF, 0xFE]).unwrap(), "\\377\\376");
    assert_eq!(codec.decode(&[0x80]).unwrap(), "\\200");
    assert_eq!(codec.decode(&[0xC0, 0x80]).unwrap(), "\\300\\200");
    // a lead byte followed by something that does not continue it
    assert_eq!(codec.decode(&[0xE2, 0x28, 0xA1]).unwrap(), "\\342(\\241");
    assert_eq!(codec.decode(&[0x41, 0xC3, 0x42]).unwrap(), "A\\303B");
    let mut mixed = "Jo\u{E3}o".as_bytes().to_vec();
    mixed.push(0xFF);
    mixed.extend_from_slice("\u{5C71}".as_bytes());
    assert_eq!(codec.decode(&mixed).unwrap(), "Jo\u{E3}o\\377\u{5C71}");
}

#[test]
fn utf8_codec_escapes_a_sequence_cut_short() {
    let codec = Utf8CharacterSetCodec;
    assert_eq!(codec.decode(&[0x41, 0xC3]).unwrap(), "A\\303");
    assert_eq!(codec.decode(&[0xE5, 0xB1]).unwrap(), "\\345");
    assert_eq!(codec.decode(&[0x41, 0x42, 0xF0, 0x9F, 0x98]).unwrap(), "AB\\360");
}

#[test]
fn utf8_codec_encodes_every_string() {
    let codec = Utf8CharacterSetCodec;
    assert_eq!(codec.encode("").unwrap(), Vec::<u8>::new());
    assert_eq!(codec.encode("Smith^John").unwrap(), b"Smith^John".to_vec());
    assert_eq!(codec.encode("Jo\u{E3}o").unwrap(), vec![0x4A, 0x6F, 0xC3, 0xA3, 0x6F]);
    assert_eq!(codec.encode("\u{5C71}").unwrap(), vec![0xE5, 0xB1, 0xB1]);
    assert_eq!(codec.encode("\u{100}").unwrap(), vec![0xC4, 0x80]);
}

#[test]
fn dynamic_codec_does_what_its_codec_does() {
    let latin = SpecificCharacterSet::Default.get_codec().unwrap();
    let utf8 = SpecificCharacterSet::IsoIr192.get_codec().unwrap();
    assert_eq!(latin.decode(&[0xC3, 0xA3]).unwrap(), "\u{C3}\u{A3}");
    assert_eq!(utf8.decode(&[0xC3, 0xA3]).unwrap(), "\u{E3}");
    assert_eq!(latin.decode(&[0xFF]).unwrap(), "\u{FF}");
    assert_eq!(utf8.decode(&[0xFF]).unwrap(), "\\377");
    assert_eq!(latin.encode("\u{E3}").unwrap(), vec![0xE3]);
    assert_eq!(utf8.encode("\u{E3}").unwrap(), vec![0xC3, 0xA3]);
    assert!(matches!(latin.encode("\u{5C71}"), Err(Error::TextEncoding(_))));
    assert_eq!(utf8.encode("\u{5C71}").unwrap(), vec![0xE5, 0xB1, 0xB1]);
}

#[test]
fn codecs_work_behind_boxes_and_references() {
    let boxed: Box<dyn TextCodec> = Box::new(Utf8CharacterSetCodec);
    assert_eq!(boxed.decode(&[0x41, 0xFF]).unwrap(), "A\\377");
    assert_eq!(boxed.encode("\u{E3}").unwrap(), vec![0xC3, 0xA3]);
    let codec = DefaultCharacterSetCodec;
    let by_ref = &codec;
    assert_eq!(TextCodec::decode(&by_ref, &[0xE3]).unwrap(), "\u{E3}");
    assert_eq!(TextCodec::encode(&by_ref, "\u{E3}").unwrap(), vec![0xE3]);
}

#[test]
fn every_byte_is_valid_iso_8859() {
    assert_eq!(validate_iso_8859(b""), TextValidationOutcome::Okay);
    assert_eq!(validate_iso_8859(b"Smith^John"), TextValidationOutcome::Okay);
    assert_eq!(validate_iso_8859(&[0xFF]), TextValidationOutcome::Okay);
    assert_eq!(validate_iso_8859(&[0x00, 0x7F, 0x80, 0xFF]), TextValidationOutcome::Okay);
}

#[test]
fn dates_hold_digits_only() {
    assert_eq!(validate_da(b""), TextValidationOutcome::Okay);
    assert_eq!(validate_da(b"20180101"), TextValidationOutcome::Okay);
    assert_eq!(validate_da(b"0123456789"), TextValidationOutcome::Okay);
    assert_eq!(validate_da(b"2018-01-01"), TextValidationOutcome::NotOk);
    assert_eq!(validate_da(b"2018.01.01"), TextValidationOutcome::NotOk);
    assert_eq!(validate_da(b"20180101 "), TextValidationOutcome::NotOk);
    assert_eq!(validate_da(b"2018\\2019"), TextValidationOutcome::NotOk);
    assert_eq!(validate_da(b"/"), TextValidationOutcome::NotOk);
    assert_eq!(validate_da(b":"), TextValidationOutcome::NotOk);
    assert_eq!(validate_da(&[0x32, 0xFF]), TextValidationOutcome::NotOk);
}

#[test]
fn times_hold_digits_and_separators() {
    assert_eq!(validate_tm(b""), TextValidationOutcome::Okay);
    assert_eq!(validate_tm(b"235959.999999"), TextValidationOutcome::Okay);
    assert_eq!(validate_tm(b"1200-1300 \\0100"), TextValidationOutcome::Okay);
    assert_eq!(validate_tm(b"12:00"), TextValidationOutcome::NotOk);
    assert_eq!(validate_tm(b"1200+0100"), TextValidationOutcome::NotOk);
    assert_eq!(validate_tm(b"noon"), TextValidationOutcome::NotOk);
    assert_eq!(validate_tm(b"12_00"), TextValidationOutcome::NotOk);
}

#[test]
fn date_times_hold_digits_separators_and_plus() {
    assert_eq!(validate_dt(b""), TextValidationOutcome::Okay);
    assert_eq!(validate_dt(b"20180101235959.999999+0100"), TextValidationOutcome::Okay);
    assert_eq!(validate_dt(b"2018-2019 \\2020.5"), TextValidationOutcome::Okay);
    assert_eq!(validate_dt(b"2018-01-01T12:00"), TextValidationOutcome::NotOk);
    assert_eq!(validate_dt(b"20180101Z"), TextValidationOutcome::NotOk);
    assert_eq!(validate_dt(b"2018_01"), TextValidationOutcome::NotOk);
}

#[test]
fn code_strings_hold_upper_case_digits_space_and_underscore() {
    assert_eq!(validate_cs(b""), TextValidationOutcome::Okay);
    assert_eq!(validate_cs(b"ISO_IR 192"), TextValidationOutcome::Okay);
    assert_eq!(validate_cs(b"ORIGINAL"), TextValidationOutcome::Okay);
    assert_eq!(validate_cs(b"AZ09 _"), TextValidationOutcome::Okay);
    assert_eq!(validate_cs(b"primary"), TextValidationOutcome::NotOk);
    assert_eq!(validate_cs(b"ORIGINAL\\PRIMARY"), TextValidationOutcome::NotOk);
    assert_eq!(validate_cs(b"A-B"), TextValidationOutcome::NotOk);
    assert_eq!(validate_cs(b"A.B"), TextValidationOutcome::NotOk);
    assert_eq!(validate_cs(b"@"), TextValidationOutcome::NotOk);
    assert_eq!(validate_cs(b"["), TextValidationOutcome::NotOk);
    assert_eq!(validate_cs(&[0x41, 0xC9]), TextValidationOutcome::NotOk);
}

#[test]
fn validation_outcomes_are_ordered_from_good_to_bad() {
    assert!(TextValidationOutcome::Okay < TextValidationOutcome::BadCharacters);
    assert!(TextValidationOutcome::BadCharacters < TextValidationOutcome::NotOk);
}
