use dicom_core::data::VR;

const ALL: [(VR, &str); 31] = [
    (VR::AE, "AE"),
    (VR::AS, "AS"),
    (VR::AT, "AT"),
    (VR::CS, "CS"),
    (VR::DA, "DA"),
    (VR::DS, "DS"),
    (VR::DT, "DT"),
    (VR::FL, "FL"),
    (VR::FD, "FD"),
    (VR::IS, "IS"),
    (VR::LO, "LO"),
    (VR::LT, "LT"),
    (VR::OB, "OB"),
    (VR::OD, "OD"),
    (VR::OF, "OF"),
    (VR::OL, "OL"),
    (VR::OW, "OW"),
    (VR::PN, "PN"),
    (VR::SH, "SH"),
    (VR::SL, "SL"),
    (VR::SQ, "SQ"),
    (VR::SS, "SS"),
    (VR::ST, "ST"),
    (VR::TM, "TM"),
    (VR::UC, "UC"),
    (VR::UI, "UI"),
    (VR::UL, "UL"),
    (VR::UN, "UN"),
    (VR::UR, "UR"),
    (VR::US, "US"),
    (VR::UT, "UT"),
];

#[test]
fn every_vr_has_its_code() {
    for (vr, code) in ALL.iter() {
        assert_eq!(vr.to_string(), *code);
        let bytes = code.as_bytes();
        assert_eq!(vr.to_bytes(), [bytes[0], bytes[1]]);
    }
}

#[test]
fn vr_round_trips_through_bytes() {
    for (vr, _) in ALL.iter() {
        assert_eq!(VR::from_binary(vr.to_bytes()), Some(*vr));
    }
}

#[test]
fn vr_round_trips_through_strings() {
    for (vr, code) in ALL.iter() {
        assert_eq!(VR::from_str(vr.to_string()), Some(*vr));
        assert_eq!(VR::from_str(code), Some(*vr));
    }
}

#[test]
fn vr_codes_are_distinct() {
    for (i, (a, _)) in ALL.iter().enumerate() {
        for (j, (b, _)) in ALL.iter().enumerate() {
            assert_eq!(a.to_bytes() == b.to_bytes(), i == j);
        }
    }
}

#[test]
fn vr_from_str_is_strict() {
    assert_eq!(VR::from_str("PN"), Some(VR::PN));
    assert_eq!(VR::from_str("pn"), None);
    assert_eq!(VR::from_str("Pn"), None);
    assert_eq!(VR::from_str("P"), None);
    assert_eq!(VR::from_str(""), None);
    assert_eq!(VR::from_str("PN "), None);
    assert_eq!(VR::from_str(" PN"), None);
    assert_eq!(VR::from_str("PNX"), None);
    assert_eq!(VR::from_str("XX"), None);
    assert_eq!(VR::from_str("NP"), None);
    assert_eq!(VR::from_str("ÄÖ"), None);
    assert_eq!(VR::from_str("SQ"), Some(VR::SQ));
    assert_eq!(VR::from_str("UN"), Some(VR::UN));
}

#[test]
fn vr_from_binary_is_strict() {
    assert_eq!(VR::from_binary([b'O', b'B']), Some(VR::OB));
    assert_eq!(VR::from_binary([b'o', b'b']), None);
    assert_eq!(VR::from_binary([b'B', b'O']), None);
    assert_eq!(VR::from_binary([0, 0]), None);
    assert_eq!(VR::from_binary([0xFF, 0xFF]), None);
    assert_eq!(VR::from_binary([b'U', 0xD4]), None);
    assert_eq!(VR::from_binary([0xC1, b'E']), None);
    assert_eq!(VR::from_binary([b'Z', b'Z']), None);
}
