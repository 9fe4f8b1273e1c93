//! The length of a piece of data set content, in bytes.

use core::cmp::Ordering;
use crate::util::{decimal_u32, spec_decimal};
use vstd::prelude::*;
use vstd::string::StringExecFns;
use vstd::std_specs::cmp::{PartialEqSpec, PartialOrdIs, PartialOrdSpec};
use vstd::std_specs::ops::{AddSpec, SubSpec};

verus! {

/// The raw value that stands for an undefined length.
pub const UNDEFINED_LEN: u32 = 0xFFFF_FFFF;

/// A content length in bytes, where the raw value `0xFFFF_FFFF` means that
/// the length is undefined and has to be found by traversing the content.
///
/// An undefined length behaves like a NaN: it is equal to nothing (itself
/// included), it is neither below nor above anything, and any sum or
/// difference that involves it is undefined again.
///
/// In contracts the length is seen through its view: `None` when undefined,
/// otherwise the number of bytes.
#[derive(Clone, Copy, Debug, Hash)]
pub struct Length(pub u32);

impl View for Length {
    type V = Option<nat>;

    open spec fn view(&self) -> Option<nat> {
        if self.0 == UNDEFINED_LEN {
            None
        } else {
            Some(self.0 as nat)
        }
    }
}

/// The sum of two lengths as views: undefined as soon as one side is.
pub open spec fn spec_length_sum(a: Option<nat>, b: Option<nat>) -> Option<nat> {
    match (a, b) {
        (Some(x), Some(y)) => Some(x + y),
        _ => None,
    }
}

/// The difference of two lengths as views: undefined as soon as one side is.
pub open spec fn spec_length_difference(a: Option<nat>, b: Option<nat>) -> Option<nat> {
    match (a, b) {
        (Some(x), Some(y)) => Some((x - y) as nat),
        _ => None,
    }
}

/// A length moved by a signed number of bytes: undefined stays undefined, a
/// defined length is taken modulo 2^32.
pub open spec fn spec_length_shift(a: Option<nat>, delta: int) -> Option<nat> {
    match a {
        Some(x) => Some(((x + delta) % 0x1_0000_0000) as nat),
        None => None,
    }
}

/// How two lengths compare: not at all when one of them is undefined.
pub open spec fn length_order(a: Option<nat>, b: Option<nat>) -> Option<Ordering> {
    match (a, b) {
        (Some(x), Some(y)) => Some(
            if x < y {
                Ordering::Less
            } else if x == y {
                Ordering::Equal
            } else {
                Ordering::Greater
            },
        ),
        _ => None,
    }
}

impl Length {
    /// Create a length from its raw representation, the undefined one
    /// included.
    pub fn new(len: u32) -> (r: Self)
        ensures
            r == Length(len),
    {
        Length(len)
    }

    /// Create an undefined length.
    pub fn undefined() -> (r: Self)
        ensures
            r == Length(UNDEFINED_LEN),
            r@ is None,
    {
        Length(UNDEFINED_LEN)
    }

    /// Create a defined length of `len` bytes. The raw value of the
    /// undefined length is not a number of bytes and is not accepted.
    pub fn defined(len: u32) -> (r: Self)
        requires
            len != UNDEFINED_LEN,
        ensures
            r == Length(len),
            r@ == Some(len as nat),
            r.spec_get() == Some(len),
    {
        Length(len)
    }

    pub open spec fn spec_is_undefined(&self) -> bool {
        self@ is None
    }

    pub open spec fn spec_is_defined(&self) -> bool {
        self@ is Some
    }

    /// Check whether this length is undefined.
    #[verifier::when_used_as_spec(spec_is_undefined)]
    pub fn is_undefined(&self) -> (r: bool)
        ensures
            r == (self@ is None),
    {
        self.0 == UNDEFINED_LEN
    }

    /// Check whether this length is well defined.
    #[verifier::when_used_as_spec(spec_is_defined)]
    pub fn is_defined(&self) -> (r: bool)
        ensures
            r == (self@ is Some),
    {
        !self.is_undefined()
    }

    /// The length as text: `U/L` when undefined, otherwise the number of
    /// bytes in decimal.
    pub open spec fn spec_to_string(&self) -> Seq<char> {
        match self@ {
            Some(n) => spec_decimal(n),
            None => seq!['U', '/', 'L'],
        }
    }

    /// Write the length as its number of bytes in decimal, or as `U/L` when
    /// it is undefined.
    pub fn to_string(&self) -> (r: String)
        ensures
            r@ == self.spec_to_string(),
    {
        if self.0 == UNDEFINED_LEN {
            proof {
                reveal_strlit("U/L");
            }
            assert("U/L"@ =~= seq!['U', '/', 'L']);
            String::from_str("U/L")
        } else {
            decimal_u32(self.0)
        }
    }

    /// The number of bytes, or `None` for an undefined length.
    pub open spec fn spec_get(&self) -> Option<u32> {
        if self.0 == UNDEFINED_LEN {
            None
        } else {
            Some(self.0)
        }
    }

    /// Fetch the number of bytes, or `None` for an undefined length.
    #[verifier::when_used_as_spec(spec_get)]
    pub fn get(&self) -> (r: Option<u32>)
        ensures
            r == self.spec_get(),
            match r {
                Some(v) => self@ == Some(v as nat),
                None => self@ is None,
            },
    {
        if self.0 == UNDEFINED_LEN {
            None
        } else {
            Some(self.0)
        }
    }
}

impl PartialEq for Length {
    /// Two lengths are equal when both are defined and hold the same number.
    fn eq(&self, rhs: &Length) -> (r: bool) {
        if self.0 == UNDEFINED_LEN || rhs.0 == UNDEFINED_LEN {
            false
        } else {
            self.0 == rhs.0
        }
    }
}

impl vstd::std_specs::cmp::PartialEqSpecImpl for Length {
    open spec fn obeys_eq_spec() -> bool {
        true
    }

    open spec fn eq_spec(&self, rhs: &Length) -> bool {
        self@ is Some && self@ == rhs@
    }
}

impl PartialOrd for Length {
    /// Two defined lengths compare as their numbers do; an undefined length
    /// does not compare with anything.
    fn partial_cmp(&self, rhs: &Length) -> (r: Option<Ordering>) {
        if self.0 == UNDEFINED_LEN || rhs.0 == UNDEFINED_LEN {
            None
        } else if self.0 < rhs.0 {
            Some(Ordering::Less)
        } else if self.0 == rhs.0 {
            Some(Ordering::Equal)
        } else {
            Some(Ordering::Greater)
        }
    }
}

impl vstd::std_specs::cmp::PartialOrdSpecImpl for Length {
    open spec fn obeys_partial_cmp_spec() -> bool {
        true
    }

    open spec fn partial_cmp_spec(&self, rhs: &Length) -> Option<Ordering> {
        length_order(self@, rhs@)
    }
}

impl core::ops::Add<Length> for Length {
    type Output = Length;

    /// The sum of two lengths, undefined as soon as one of them is. A sum
    /// of defined lengths has to stay below the raw value of the undefined
    /// length.
    fn add(self, rhs: Length) -> (r: Length) {
        if self.0 == UNDEFINED_LEN || rhs.0 == UNDEFINED_LEN {
            Length(UNDEFINED_LEN)
        } else {
            Length(self.0 + rhs.0)
        }
    }
}

impl vstd::std_specs::ops::AddSpecImpl<Length> for Length {
    open spec fn obeys_add_spec() -> bool {
        true
    }

    open spec fn add_req(self, rhs: Length) -> bool {
        self@ is Some && rhs@ is Some ==> self.0 + rhs.0 < UNDEFINED_LEN
    }

    open spec fn add_spec(self, rhs: Length) -> Length {
        if self@ is Some && rhs@ is Some {
            Length((self.0 + rhs.0) as u32)
        } else {
            Length(UNDEFINED_LEN)
        }
    }
}

impl core::ops::Sub<Length> for Length {
    type Output = Length;

    /// The difference of two lengths, undefined as soon as one of them is.
    /// A defined length can only be taken from one that is at least as
    /// large.
    fn sub(self, rhs: Length) -> (r: Length) {
        if self.0 == UNDEFINED_LEN || rhs.0 == UNDEFINED_LEN {
            Length(UNDEFINED_LEN)
        } else {
            Length(self.0 - rhs.0)
        }
    }
}

impl vstd::std_specs::ops::SubSpecImpl<Length> for Length {
    open spec fn obeys_sub_spec() -> bool {
        true
    }

    open spec fn sub_req(self, rhs: Length) -> bool {
        self@ is Some && rhs@ is Some ==> self.0 >= rhs.0
    }

    open spec fn sub_spec(self, rhs: Length) -> Length {
        if self@ is Some && rhs@ is Some {
            Length((self.0 - rhs.0) as u32)
        } else {
            Length(UNDEFINED_LEN)
        }
    }
}

impl core::ops::Add<i32> for Length {
    type Output = Length;

    /// A length moved up by a signed number of bytes. An undefined length
    /// stays undefined; a defined one is moved modulo 2^32, and must not
    /// land on the raw value of the undefined length.
    fn add(self, rhs: i32) -> (r: Length) {
        if self.0 == UNDEFINED_LEN {
            Length(UNDEFINED_LEN)
        } else {
            Length(self.0.wrapping_add_signed(rhs))
        }
    }
}

impl vstd::std_specs::ops::AddSpecImpl<i32> for Length {
    open spec fn obeys_add_spec() -> bool {
        true
    }

    open spec fn add_req(self, rhs: i32) -> bool {
        self@ is Some ==> (self.0 + rhs) % 0x1_0000_0000 != UNDEFINED_LEN
    }

    open spec fn add_spec(self, rhs: i32) -> Length {
        if self@ is Some {
            Length(((self.0 + rhs) % 0x1_0000_0000) as u32)
        } else {
            Length(UNDEFINED_LEN)
        }
    }
}

impl core::ops::Sub<i32> for Length {
    type Output = Length;

    /// A length moved down by a signed number of bytes. An undefined length
    /// stays undefined; a defined one is moved modulo 2^32, and must not
    /// land on the raw value of the undefined length.
    fn sub(self, rhs: i32) -> (r: Length) {
        if self.0 == UNDEFINED_LEN {
            Length(UNDEFINED_LEN)
        } else if rhs == i32::MIN {
            Length(self.0.wrapping_add(0x8000_0000u32))
        } else {
            Length(self.0.wrapping_add_signed(-rhs))
        }
    }
}

impl vstd::std_specs::ops::SubSpecImpl<i32> for Length {
    open spec fn obeys_sub_spec() -> bool {
        true
    }

    open spec fn sub_req(self, rhs: i32) -> bool {
        self@ is Some ==> (self.0 - rhs) % 0x1_0000_0000 != UNDEFINED_LEN
    }

    open spec fn sub_spec(self, rhs: i32) -> Length {
        if self@ is Some {
            Length(((self.0 - rhs) % 0x1_0000_0000) as u32)
        } else {
            Length(UNDEFINED_LEN)
        }
    }
}

impl From<u32> for Length {
    /// The length with the given raw representation.
    fn from(o: u32) -> (r: Length) {
        Length(o)
    }
}

impl vstd::std_specs::convert::FromSpecImpl<u32> for Length {
    open spec fn obeys_from_spec() -> bool {
        true
    }

    open spec fn from_spec(o: u32) -> Length {
        Length(o)
    }
}

/// A length made of any number but the raw value of the undefined length is
/// defined and holds that number; the length made of that raw value is
/// undefined and holds none. No other number is left out where a defined
/// length is made.
pub proof fn law_defined_holds_its_number(len: u32)
    ensures
        len != UNDEFINED_LEN ==> Length(len)@ == Some(len as nat) && Length(len).spec_get()
            == Some(len) && Length(len).spec_is_defined(),
        len == UNDEFINED_LEN ==> Length(len)@ is None && Length(len).spec_get() is None
            && Length(len).spec_is_undefined(),
{
}

/// An undefined length is equal to nothing: not to a defined length, and
/// not to another undefined length.
pub proof fn law_undefined_is_never_equal(x: Length)
    ensures
        !Length(UNDEFINED_LEN).eq_spec(&x),
        !x.eq_spec(&Length(UNDEFINED_LEN)),
{
}

/// Every ordering comparison that involves an undefined length is false.
pub proof fn law_undefined_is_unordered(x: Length)
    ensures
        Length(UNDEFINED_LEN).partial_cmp_spec(&x) is None,
        x.partial_cmp_spec(&Length(UNDEFINED_LEN)) is None,
        !Length(UNDEFINED_LEN).is_lt(&x) && !Length(UNDEFINED_LEN).is_le(&x),
        !Length(UNDEFINED_LEN).is_gt(&x) && !Length(UNDEFINED_LEN).is_ge(&x),
        !x.is_lt(&Length(UNDEFINED_LEN)) && !x.is_le(&Length(UNDEFINED_LEN)),
        !x.is_gt(&Length(UNDEFINED_LEN)) && !x.is_ge(&Length(UNDEFINED_LEN)),
{
}

/// Arithmetic with an undefined length is always allowed and always gives an
/// undefined length, whatever stands on the other side.
pub proof fn law_undefined_absorbs(x: Length, delta: i32)
    ensures
        Length(UNDEFINED_LEN).add_req(x) && Length(UNDEFINED_LEN).add_spec(x)@ is None,
        x.add_req(Length(UNDEFINED_LEN)) && x.add_spec(Length(UNDEFINED_LEN))@ is None,
        Length(UNDEFINED_LEN).sub_req(x) && Length(UNDEFINED_LEN).sub_spec(x)@ is None,
        x.sub_req(Length(UNDEFINED_LEN)) && x.sub_spec(Length(UNDEFINED_LEN))@ is None,
        Length(UNDEFINED_LEN).add_req(delta) && Length(UNDEFINED_LEN).add_spec(delta)@ is None,
        Length(UNDEFINED_LEN).sub_req(delta) && Length(UNDEFINED_LEN).sub_spec(delta)@ is None,
{
}

/// The sum of two defined lengths is the defined length of the sum of their
/// numbers, as long as that sum stays below the raw value of the undefined
/// length.
pub proof fn law_sum_of_defined(a: u32, b: u32)
    requires
        a != UNDEFINED_LEN,
        b != UNDEFINED_LEN,
        a + b < UNDEFINED_LEN,
    ensures
        Length(a).add_req(Length(b)),
        Length(a).add_spec(Length(b)) == Length((a + b) as u32),
        Length(a).add_spec(Length(b))@ == Some((a + b) as nat),
{
}

/// Seen through the views, the operators are the sum, the difference and the
/// shift of optional numbers, wherever the operator may be called.
pub proof fn law_arithmetic_on_views(x: Length, y: Length, delta: i32)
    ensures
        x.add_req(y) ==> x.add_spec(y)@ == spec_length_sum(x@, y@),
        x.sub_req(y) ==> x.sub_spec(y)@ == spec_length_difference(x@, y@),
        x.add_req(delta) ==> x.add_spec(delta)@ == spec_length_shift(x@, delta as int),
        x.sub_req(delta) ==> x.sub_spec(delta)@ == spec_length_shift(x@, -(delta as int)),
{
}

} // verus!
