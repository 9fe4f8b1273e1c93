//! The value representation of a data element.

use vstd::prelude::*;
use vstd::string::StrSliceExecFns;

verus! {

/// The value representation (VR) of a data element: a two-letter code that
/// says of what type the element's value is.
#[derive(Debug, PartialEq, Eq, Structural, Clone, Copy, Hash)]
pub enum VR {
    /// Application Entity
    AE,
    /// Age String
    AS,
    /// Attribute Tag
    AT,
    /// Code String
    CS,
    /// Date
    DA,
    /// Decimal String
    DS,
    /// Date Time
    DT,
    /// Floating Point Single
    FL,
    /// Floating Point Double
    FD,
    /// Integer String
    IS,
    /// Long String
    LO,
    /// Long Text
    LT,
    /// Other Byte
    OB,
    /// Other Double
    OD,
    /// Other Float
    OF,
    /// Other Long
    OL,
    /// Other Word
    OW,
    /// Person Name
    PN,
    /// Short String
    SH,
    /// Signed Long
    SL,
    /// Sequence of Items
    SQ,
    /// Signed Short
    SS,
    /// Short Text
    ST,
    /// Time
    TM,
    /// Unlimited Characters
    UC,
    /// Unique Identifier (UID)
    UI,
    /// Unsigned Long
    UL,
    /// Unknown
    UN,
    /// Universal Resource Identifier or Universal Resource Locator (URI/URL)
    UR,
    /// Unsigned Short
    US,
    /// Unlimited Text
    UT,
}

impl VR {
    /// The two upper case letters of this value representation's code.
    pub open spec fn spec_code(self) -> (char, char) {
        match self {
            VR::AE => ('A', 'E'),
            VR::AS => ('A', 'S'),
            VR::AT => ('A', 'T'),
            VR::CS => ('C', 'S'),
            VR::DA => ('D', 'A'),
            VR::DS => ('D', 'S'),
            VR::DT => ('D', 'T'),
            VR::FL => ('F', 'L'),
            VR::FD => ('F', 'D'),
            VR::IS => ('I', 'S'),
            VR::LO => ('L', 'O'),
            VR::LT => ('L', 'T'),
            VR::OB => ('O', 'B'),
            VR::OD => ('O', 'D'),
            VR::OF => ('O', 'F'),
            VR::OL => ('O', 'L'),
            VR::OW => ('O', 'W'),
            VR::PN => ('P', 'N'),
            VR::SH => ('S', 'H'),
            VR::SL => ('S', 'L'),
            VR::SQ => ('S', 'Q'),
            VR::SS => ('S', 'S'),
            VR::ST => ('S', 'T'),
            VR::TM => ('T', 'M'),
            VR::UC => ('U', 'C'),
            VR::UI => ('U', 'I'),
            VR::UL => ('U', 'L'),
            VR::UN => ('U', 'N'),
            VR::UR => ('U', 'R'),
            VR::US => ('U', 'S'),
            VR::UT => ('U', 'T'),
        }
    }

    /// The code as text.
    pub open spec fn spec_name(self) -> Seq<char> {
        seq![self.spec_code().0, self.spec_code().1]
    }

    /// The code as its two ASCII bytes.
    pub open spec fn spec_bytes(self) -> Seq<u8> {
        seq![self.spec_code().0 as u8, self.spec_code().1 as u8]
    }

    /// The value representation with the given two letters, if there is one.
    /// Letters are matched exactly, in upper case.
    pub open spec fn spec_from_code(code: (char, char)) -> Option<VR> {
        if exists|vr: VR| #[trigger] vr.spec_code() == code {
            Some(choose|vr: VR| #[trigger] vr.spec_code() == code)
        } else {
            None
        }
    }

    /// The value representation whose code is the given text, if there is
    /// one: the text has to be exactly the two letters.
    pub open spec fn spec_from_str(s: Seq<char>) -> Option<VR> {
        if s.len() == 2 {
            Self::spec_from_code((s[0], s[1]))
        } else {
            None
        }
    }

    /// The value representation whose code is the given two bytes, if there
    /// is one.
    pub open spec fn spec_from_binary(chars: Seq<u8>) -> Option<VR> {
        if chars.len() == 2 {
            Self::spec_from_code((chars[0] as char, chars[1] as char))
        } else {
            None
        }
    }

    /// No two value representations share a code.
    pub proof fn law_codes_are_distinct(a: VR, b: VR)
        requires
            a.spec_code() == b.spec_code(),
        ensures
            a == b,
    {
    }

    /// Looking a code up gives back the value representation it came from.
    pub proof fn law_code_round_trip(vr: VR)
        ensures
            Self::spec_from_code(vr.spec_code()) == Some(vr),
            Self::spec_from_str(vr.spec_name()) == Some(vr),
            Self::spec_from_binary(vr.spec_bytes()) == Some(vr),
    {
        let code = vr.spec_code();
        assert(vr.spec_code() == code);
        let found = choose|x: VR| #[trigger] x.spec_code() == code;
        Self::law_codes_are_distinct(found, vr);
        assert(code.0 as u8 as char == code.0 && code.1 as u8 as char == code.1);
    }

    /// A lookup that finds a value representation finds one with the code
    /// that was asked for.
    pub proof fn law_lookup_is_sound(code: (char, char))
        ensures
            match Self::spec_from_code(code) {
                Some(vr) => vr.spec_code() == code,
                None => forall|vr: VR| #[trigger] vr.spec_code() != code,
            },
    {
    }

    /// Obtain the value representation for two letters.
    fn from_chars(c0: char, c1: char) -> (r: Option<VR>)
        ensures
            r == Self::spec_from_code((c0, c1)),
    {
        let r = match (c0, c1) {
            ('A', 'E') => Some(VR::AE),
            ('A', 'S') => Some(VR::AS),
            ('A', 'T') => Some(VR::AT),
            ('C', 'S') => Some(VR::CS),
            ('D', 'A') => Some(VR::DA),
            ('D', 'S') => Some(VR::DS),
            ('D', 'T') => Some(VR::DT),
            ('F', 'L') => Some(VR::FL),
            ('F', 'D') => Some(VR::FD),
            ('I', 'S') => Some(VR::IS),
            ('L', 'O') => Some(VR::LO),
            ('L', 'T') => Some(VR::LT),
            ('O', 'B') => Some(VR::OB),
            ('O', 'D') => Some(VR::OD),
            ('O', 'F') => Some(VR::OF),
            ('O', 'L') => Some(VR::OL),
            ('O', 'W') => Some(VR::OW),
            ('P', 'N') => Some(VR::PN),
            ('S', 'H') => Some(VR::SH),
            ('S', 'L') => Some(VR::SL),
            ('S', 'Q') => Some(VR::SQ),
            ('S', 'S') => Some(VR::SS),
            ('S', 'T') => Some(VR::ST),
            ('T', 'M') => Some(VR::TM),
            ('U', 'C') => Some(VR::UC),
            ('U', 'I') => Some(VR::UI),
            ('U', 'L') => Some(VR::UL),
            ('U', 'N') => Some(VR::UN),
            ('U', 'R') => Some(VR::UR),
            ('U', 'S') => Some(VR::US),
            ('U', 'T') => Some(VR::UT),
            _ => None,
        };
        proof {
            match r {
                Some(vr) => {
                    assert(vr.spec_code() == (c0, c1));
                    Self::law_code_round_trip(vr);
                },
                None => {
                    assert forall|vr: VR| #[trigger] vr.spec_code() != (c0, c1) by {}
                },
            }
        }
        r
    }

    /// Obtain the value representation corresponding to the given two bytes.
    /// Each byte should be an upper case ASCII letter, otherwise no match is
    /// made.
    pub fn from_binary(chars: [u8; 2]) -> (r: Option<VR>)
        ensures
            r == Self::spec_from_binary(chars@),
    {
        Self::from_chars(chars[0] as char, chars[1] as char)
    }

    /// Obtain the value representation corresponding to the given string.
    /// The string should hold exactly two upper case letters, otherwise no
    /// match is made.
    pub fn from_str(string: &str) -> (r: Option<VR>)
        ensures
            r == Self::spec_from_str(string@),
    {
        if string.unicode_len() != 2 {
            return None;
        }
        let c0 = string.get_char(0);
        let c1 = string.get_char(1);
        Self::from_chars(c0, c1)
    }

    /// Retrieve the code of this value representation as a string.
    pub fn to_string(&self) -> (r: &'static str)
        ensures
            r@ == self.spec_name(),
    {
        match *self {
            VR::AE => {
                proof {
                    reveal_strlit("AE");
                }
                assert("AE"@ =~= seq!['A', 'E']);
                "AE"
            },
            VR::AS => {
                proof {
                    reveal_strlit("AS");
                }
                assert("AS"@ =~= seq!['A', 'S']);
                "AS"
            },
            VR::AT => {
                proof {
                    reveal_strlit("AT");
                }
                assert("AT"@ =~= seq!['A', 'T']);
                "AT"
            },
            VR::CS => {
                proof {
                    reveal_strlit("CS");
                }
                assert("CS"@ =~= seq!['C', 'S']);
                "CS"
            },
            VR::DA => {
                proof {
                    reveal_strlit("DA");
                }
                assert("DA"@ =~= seq!['D', 'A']);
                "DA"
            },
            VR::DS => {
                proof {
                    reveal_strlit("DS");
                }
                assert("DS"@ =~= seq!['D', 'S']);
                "DS"
            },
            VR::DT => {
                proof {
                    reveal_strlit("DT");
                }
                assert("DT"@ =~= seq!['D', 'T']);
                "DT"
            },
            VR::FL => {
                proof {
                    reveal_strlit("FL");
                }
                assert("FL"@ =~= seq!['F', 'L']);
                "FL"
            },
            VR::FD => {
                proof {
                    reveal_strlit("FD");
                }
                assert("FD"@ =~= seq!['F', 'D']);
                "FD"
            },
            VR::IS => {
                proof {
                    reveal_strlit("IS");
                }
                assert("IS"@ =~= seq!['I', 'S']);
                "IS"
            },
            VR::LO => {
                proof {
                    reveal_strlit("LO");
                }
                assert("LO"@ =~= seq!['L', 'O']);
                "LO"
            },
            VR::LT => {
                proof {
                    reveal_strlit("LT");
                }
                assert("LT"@ =~= seq!['L', 'T']);
                "LT"
            },
            VR::OB => {
                proof {
                    reveal_strlit("OB");
                }
                assert("OB"@ =~= seq!['O', 'B']);
                "OB"
            },
            VR::OD => {
                proof {
                    reveal_strlit("OD");
                }
                assert("OD"@ =~= seq!['O', 'D']);
                "OD"
            },
            VR::OF => {
                proof {
                    reveal_strlit("OF");
                }
                assert("OF"@ =~= seq!['O', 'F']);
                "OF"
            },
            VR::OL => {
                proof {
                    reveal_strlit("OL");
                }
                assert("OL"@ =~= seq!['O', 'L']);
                "OL"
            },
            VR::OW => {
                proof {
                    reveal_strlit("OW");
                }
                assert("OW"@ =~= seq!['O', 'W']);
                "OW"
            },
            VR::PN => {
                proof {
                    reveal_strlit("PN");
                }
                assert("PN"@ =~= seq!['P', 'N']);
                "PN"
            },
            VR::SH => {
                proof {
                    reveal_strlit("SH");
                }
                assert("SH"@ =~= seq!['S', 'H']);
                "SH"
            },
            VR::SL => {
                proof {
                    reveal_strlit("SL");
                }
                assert("SL"@ =~= seq!['S', 'L']);
                "SL"
            },
            VR::SQ => {
                proof {
                    reveal_strlit("SQ");
                }
                assert("SQ"@ =~= seq!['S', 'Q']);
                "SQ"
            },
            VR::SS => {
                proof {
                    reveal_strlit("SS");
                }
                assert("SS"@ =~= seq!['S', 'S']);
                "SS"
            },
            VR::ST => {
                proof {
                    reveal_strlit("ST");
                }
                assert("ST"@ =~= seq!['S', 'T']);
                "ST"
            },
            VR::TM => {
                proof {
                    reveal_strlit("TM");
                }
                assert("TM"@ =~= seq!['T', 'M']);
                "TM"
            },
            VR::UC => {
                proof {
                    reveal_strlit("UC");
                }
                assert("UC"@ =~= seq!['U', 'C']);
                "UC"
            },
            VR::UI => {
                proof {
                    reveal_strlit("UI");
                }
                assert("UI"@ =~= seq!['U', 'I']);
                "UI"
            },
            VR::UL => {
                proof {
                    reveal_strlit("UL");
                }
                assert("UL"@ =~= seq!['U', 'L']);
                "UL"
            },
            VR::UN => {
                proof {
                    reveal_strlit("UN");
                }
                assert("UN"@ =~= seq!['U', 'N']);
                "UN"
            },
            VR::UR => {
                proof {
                    reveal_strlit("UR");
                }
                assert("UR"@ =~= seq!['U', 'R']);
                "UR"
            },
            VR::US => {
                proof {
                    reveal_strlit("US");
                }
                assert("US"@ =~= seq!['U', 'S']);
                "US"
            },
            VR::UT => {
                proof {
                    reveal_strlit("UT");
                }
                assert("UT"@ =~= seq!['U', 'T']);
                "UT"
            },
        }
    }

    /// Retrieve the code of this value representation as its two bytes,
    /// which are upper case ASCII letters.
    pub fn to_bytes(&self) -> (r: [u8; 2])
        ensures
            r@ == self.spec_bytes(),
    {
        let r: [u8; 2] = match *self {
            VR::AE => ['A' as u8, 'E' as u8],
            VR::AS => ['A' as u8, 'S' as u8],
            VR::AT => ['A' as u8, 'T' as u8],
            VR::CS => ['C' as u8, 'S' as u8],
            VR::DA => ['D' as u8, 'A' as u8],
            VR::DS => ['D' as u8, 'S' as u8],
            VR::DT => ['D' as u8, 'T' as u8],
            VR::FL => ['F' as u8, 'L' as u8],
            VR::FD => ['F' as u8, 'D' as u8],
            VR::IS => ['I' as u8, 'S' as u8],
            VR::LO => ['L' as u8, 'O' as u8],
            VR::LT => ['L' as u8, 'T' as u8],
            VR::OB => ['O' as u8, 'B' as u8],
            VR::OD => ['O' as u8, 'D' as u8],
            VR::OF => ['O' as u8, 'F' as u8],
            VR::OL => ['O' as u8, 'L' as u8],
            VR::OW => ['O' as u8, 'W' as u8],
            VR::PN => ['P' as u8, 'N' as u8],
            VR::SH => ['S' as u8, 'H' as u8],
            VR::SL => ['S' as u8, 'L' as u8],
            VR::SQ => ['S' as u8, 'Q' as u8],
            VR::SS => ['S' as u8, 'S' as u8],
            VR::ST => ['S' as u8, 'T' as u8],
            VR::TM => ['T' as u8, 'M' as u8],
            VR::UC => ['U' as u8, 'C' as u8],
            VR::UI => ['U' as u8, 'I' as u8],
            VR::UL => ['U' as u8, 'L' as u8],
            VR::UN => ['U' as u8, 'N' as u8],
            VR::UR => ['U' as u8, 'R' as u8],
            VR::US => ['U' as u8, 'S' as u8],
            VR::UT => ['U' as u8, 'T' as u8],
        };
        assert(r@ =~= self.spec_bytes());
        r
    }
}

} // verus!
