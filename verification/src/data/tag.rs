//! The attribute tag of a data element.

use core::cmp::Ordering;
use crate::util::{hex_u16, spec_hex_u16};
use vstd::prelude::*;
use vstd::string::StringExecFns;

verus! {

/// Idiomatic alias for a tag's group number.
pub type GroupNumber = u16;

/// Idiomatic alias for a tag's element number.
pub type ElementNumber = u16;

/// The tag of a data element: a group number and an element number.
///
/// Tags are equal when both numbers are, and are ordered by group first and
/// by element second. A tag also compares with a `(group, element)` pair and
/// with a two-element array, and can be made from either.
#[derive(Debug, Eq, Hash, Ord, Clone, Copy)]
pub struct Tag(pub GroupNumber, pub ElementNumber);

/// How two `(group, element)` pairs are ordered: by group, then by element.
pub open spec fn tag_order(a: (u16, u16), b: (u16, u16)) -> Ordering {
    if a.0 < b.0 || (a.0 == b.0 && a.1 < b.1) {
        Ordering::Less
    } else if a.0 == b.0 && a.1 == b.1 {
        Ordering::Equal
    } else {
        Ordering::Greater
    }
}

impl Tag {
    /// The tag that opens an item of a sequence.
    pub open spec fn spec_item() -> Tag {
        Tag(0xFFFE, 0xE000)
    }

    /// The tag that closes an item of undefined length.
    pub open spec fn spec_item_delimiter() -> Tag {
        Tag(0xFFFE, 0xE00D)
    }

    /// The tag that closes a sequence of undefined length.
    pub open spec fn spec_sequence_delimiter() -> Tag {
        Tag(0xFFFE, 0xE0DD)
    }

    /// The tag of the Specific Character Set element.
    pub open spec fn spec_specific_character_set() -> Tag {
        Tag(0x0008, 0x0005)
    }

    /// The tag as a `(group, element)` pair.
    pub open spec fn spec_pair(self) -> (u16, u16) {
        (self.0, self.1)
    }

    /// The tag as text: group and element as four upper case hexadecimal
    /// digits each, in the form `(GGGG,EEEE)`.
    pub open spec fn spec_to_string(self) -> Seq<char> {
        seq!['('] + spec_hex_u16(self.0) + seq![','] + spec_hex_u16(self.1) + seq![')']
    }

    /// Write the tag in the form `(GGGG,EEEE)`, with upper case hexadecimal
    /// digits and leading zeros.
    pub fn to_string(&self) -> (r: String)
        ensures
            r@ == self.spec_to_string(),
    {
        proof {
            reveal_strlit("(");
            reveal_strlit(",");
            reveal_strlit(")");
        }
        let mut r = String::from_str("(");
        r.append(hex_u16(self.0).as_str());
        r.append(",");
        r.append(hex_u16(self.1).as_str());
        r.append(")");
        assert(r@ =~= self.spec_to_string());
        r
    }

    /// Getter for the tag's group value.
    #[inline]
    pub fn group(&self) -> (r: GroupNumber)
        ensures
            r == self.0,
    {
        self.0
    }

    /// Getter for the tag's element value.
    #[inline]
    pub fn element(&self) -> (r: ElementNumber)
        ensures
            r == self.1,
    {
        self.1
    }
}

impl PartialEq for Tag {
    fn eq(&self, other: &Tag) -> (r: bool) {
        self.0 == other.0 && self.1 == other.1
    }
}

impl vstd::std_specs::cmp::PartialEqSpecImpl for Tag {
    open spec fn obeys_eq_spec() -> bool {
        true
    }

    open spec fn eq_spec(&self, other: &Tag) -> bool {
        self.0 == other.0 && self.1 == other.1
    }
}

impl PartialEq<(u16, u16)> for Tag {
    fn eq(&self, other: &(u16, u16)) -> (r: bool) {
        self.0 == other.0 && self.1 == other.1
    }
}

impl vstd::std_specs::cmp::PartialEqSpecImpl<(u16, u16)> for Tag {
    open spec fn obeys_eq_spec() -> bool {
        true
    }

    open spec fn eq_spec(&self, other: &(u16, u16)) -> bool {
        self.spec_pair() == *other
    }
}

impl PartialEq<[u16; 2]> for Tag {
    fn eq(&self, other: &[u16; 2]) -> (r: bool) {
        self.0 == other[0] && self.1 == other[1]
    }
}

impl vstd::std_specs::cmp::PartialEqSpecImpl<[u16; 2]> for Tag {
    open spec fn obeys_eq_spec() -> bool {
        true
    }

    open spec fn eq_spec(&self, other: &[u16; 2]) -> bool {
        self.0 == other[0] && self.1 == other[1]
    }
}

impl PartialOrd for Tag {
    fn partial_cmp(&self, other: &Tag) -> (r: Option<Ordering>) {
        if self.0 < other.0 || (self.0 == other.0 && self.1 < other.1) {
            Some(Ordering::Less)
        } else if self.0 == other.0 && self.1 == other.1 {
            Some(Ordering::Equal)
        } else {
            Some(Ordering::Greater)
        }
    }
}

impl vstd::std_specs::cmp::PartialOrdSpecImpl for Tag {
    open spec fn obeys_partial_cmp_spec() -> bool {
        true
    }

    open spec fn partial_cmp_spec(&self, other: &Tag) -> Option<Ordering> {
        Some(tag_order(self.spec_pair(), other.spec_pair()))
    }
}

impl From<(u16, u16)> for Tag {
    #[inline]
    fn from(value: (u16, u16)) -> (r: Tag) {
        Tag(value.0, value.1)
    }
}

impl vstd::std_specs::convert::FromSpecImpl<(u16, u16)> for Tag {
    open spec fn obeys_from_spec() -> bool {
        true
    }

    open spec fn from_spec(value: (u16, u16)) -> Tag {
        Tag(value.0, value.1)
    }
}

impl From<[u16; 2]> for Tag {
    #[inline]
    fn from(value: [u16; 2]) -> (r: Tag) {
        Tag(value[0], value[1])
    }
}

impl vstd::std_specs::convert::FromSpecImpl<[u16; 2]> for Tag {
    open spec fn obeys_from_spec() -> bool {
        true
    }

    open spec fn from_spec(value: [u16; 2]) -> Tag {
        Tag(value[0], value[1])
    }
}

} // verus!
