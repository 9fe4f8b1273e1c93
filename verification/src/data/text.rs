//! Reusable components for encoding and decoding text in DICOM data
//! structures, including support for character repertoires.
//!
//! Two repertoires are supported: the default one (ISO 8859-1) and ISO IR 192
//! (UTF-8). A text value may hold several values separated by backslashes;
//! the codecs keep those separators as they are and do not split.

use crate::error::{Error, Result, TextEncodingError};
use crate::util::{digit_text, spec_digit_char};
use encoding::all::{ISO_8859_1, UTF_8};
use encoding::types::DecoderTrapFunc;
use encoding::{DecoderTrap, EncoderTrap, Encoding};
use vstd::prelude::*;
use vstd::string::{StrSliceExecFns, StringExecFns, StringSliceAdditionalSpecFns};

verus! {

/// Check whether two strings hold the same text.
pub fn same_text(a: &str, b: &str) -> (r: bool)
    ensures
        r == (a@ == b@),
{
    let n: usize = a.unicode_len();
    if n != b.unicode_len() {
        return false;
    }
    let mut i: usize = 0;
    while i < n
        invariant
            i <= n,
            n == a@.len(),
            n == b@.len(),
            forall|j: int| 0 <= j < i ==> a@[j] == b@[j],
        decreases n - i,
    {
        if a.get_char(i) != b.get_char(i) {
            return false;
        }
        i += 1;
    }
    assert(a@ =~= b@);
    true
}

/// A holder of encoding and decoding mechanisms for text in DICOM content,
/// which according to the standard depends on the specific character set.
pub trait TextCodec {
    /// Decode the given byte buffer as a single string. The resulting string
    /// may contain backslash characters to delimit individual values, and
    /// should be split later on if required.
    fn decode(&self, text: &[u8]) -> Result<String>;

    /// Encode a text value into a byte vector. The input string can feature
    /// multiple text values by using the backslash character as the value
    /// delimiter.
    fn encode(&self, text: &str) -> Result<Vec<u8>>;
}

impl<T: ?Sized + TextCodec> TextCodec for Box<T> {
    /// Decode with the codec in the box: the result is one that the codec's
    /// own `decode` gives for the same bytes.
    fn decode(&self, text: &[u8]) -> (r: Result<String>)
        ensures
            call_ensures(T::decode, (&**self, text), r),
    {
        (**self).decode(text)
    }

    /// Encode with the codec in the box: the result is one that the codec's
    /// own `encode` gives for the same text.
    fn encode(&self, text: &str) -> (r: Result<Vec<u8>>)
        ensures
            call_ensures(T::encode, (&**self, text), r),
    {
        (**self).encode(text)
    }
}

impl<'a, T: ?Sized + TextCodec> TextCodec for &'a T {
    /// Decode with the codec referred to: the result is one that the codec's
    /// own `decode` gives for the same bytes.
    fn decode(&self, text: &[u8]) -> (r: Result<String>)
        ensures
            call_ensures(T::decode, (*self, text), r),
    {
        (**self).decode(text)
    }

    /// Encode with the codec referred to: the result is one that the codec's
    /// own `encode` gives for the same text.
    fn encode(&self, text: &str) -> (r: Result<Vec<u8>>)
        ensures
            call_ensures(T::encode, (*self, text), r),
    {
        (**self).encode(text)
    }
}

/// The escape that takes the place of a byte that cannot be decoded: a
/// backslash and the three octal digits of the byte, highest first.
pub open spec fn spec_octal_escape(c: u8) -> Seq<char> {
    seq![
        '\\',
        spec_digit_char(c as int / 64),
        spec_digit_char((c as int / 8) % 8),
        spec_digit_char(c as int % 8),
    ]
}

/// What a decoder writes in place of a byte sequence that it rejects, given
/// the first byte of that sequence: a backslash followed by the byte's three
/// octal digits. The text stays as long as the bytes were meaningful, and the
/// rejected byte can still be read off the result.
pub fn decode_text_trap(c: u8) -> (r: String)
    ensures
        r@ == spec_octal_escape(c),
{
    let o0: u8 = c & 7;
    let o1: u8 = (c & 56) >> 3;
    let o2: u8 = (c & 192) >> 6;
    assert(o0 == c % 8 && o1 == (c / 8) % 8 && o2 == c / 64 && o0 < 8 && o1 < 8 && o2 < 8) by (bit_vector)
        requires
            o0 == c & 7,
            o1 == (c & 56) >> 3,
            o2 == (c & 192) >> 6,
    ;
    proof {
        reveal_strlit("\\");
    }
    let mut r = String::from_str("\\");
    r.append(digit_text(o2));
    r.append(digit_text(o1));
    r.append(digit_text(o0));
    assert(r@ =~= spec_octal_escape(c));
    r
}

/// The text that bytes stand for in ISO 8859-1: each byte is the character
/// with the same code point.
pub open spec fn spec_latin1_text(bytes: Seq<u8>) -> Seq<char> {
    Seq::new(bytes.len(), |i: int| bytes[i] as char)
}

/// Whether ISO 8859-1 has every character of a text: those up to U+00FF.
pub open spec fn spec_is_latin1(text: Seq<char>) -> bool {
    forall|i: int| 0 <= i < text.len() ==> text[i] as u32 <= 0xFF
}

/// The bytes of a text in ISO 8859-1: each character's code point.
pub open spec fn spec_latin1_bytes(text: Seq<char>) -> Seq<u8> {
    Seq::new(text.len(), |i: int| text[i] as u8)
}

/// Calls `encoding::Encoding::decode` on `encoding::all::ISO_8859_1` with
/// `DecoderTrap::Strict`. That decoder maps every byte to the character with
/// the same code point and rejects none, so the call always succeeds.
#[verifier::external_body]
fn latin1_decode_strict(text: &[u8]) -> (r: core::result::Result<String, String>)
    ensures
        match r {
            Ok(s) => s@ == spec_latin1_text(text@),
            Err(_) => false,
        },
{
    match ISO_8859_1.decode(text, DecoderTrap::Strict) {
        Ok(s) => Ok(s),
        Err(e) => Err(e.into_owned()),
    }
}

/// Calls `encoding::Encoding::decode` on `encoding::all::ISO_8859_1` with
/// `DecoderTrap::Call` and a trap that writes the octal escape of the first
/// byte of the rejected sequence. That decoder maps every byte to the
/// character with the same code point and rejects none, so the trap is never
/// reached and the call always succeeds.
#[verifier::external_body]
fn latin1_decode_trapped(text: &[u8]) -> (r: core::result::Result<String, String>)
    ensures
        match r {
            Ok(s) => s@ == spec_latin1_text(text@),
            Err(_) => false,
        },
{
    // `DecoderTrap::Call` takes a plain function; a closure written inside
    // `vec!` stays one
    let trap: Vec<DecoderTrapFunc> = vec![|_, input, output| {
        output.write_str(decode_text_trap(input[0]).as_str());
        true
    }];
    match ISO_8859_1.decode(text, DecoderTrap::Call(trap[0])) {
        Ok(s) => Ok(s),
        Err(e) => Err(e.into_owned()),
    }
}

/// Calls `encoding::Encoding::encode` on `encoding::all::ISO_8859_1` with
/// `EncoderTrap::Strict`. The encoder writes each character up to U+00FF as
/// the byte of its code point, and fails at the first character beyond.
#[verifier::external_body]
fn latin1_encode_strict(text: &str) -> (r: core::result::Result<Vec<u8>, String>)
    ensures
        match r {
            Ok(bytes) => spec_is_latin1(text@) && bytes@ == spec_latin1_bytes(text@),
            Err(_) => !spec_is_latin1(text@),
        },
{
    match ISO_8859_1.encode(text, EncoderTrap::Strict) {
        Ok(bytes) => Ok(bytes),
        Err(e) => Err(e.into_owned()),
    }
}

/// The text that the UTF-8 decoder of the `encoding` crate makes of bytes
/// when the octal escape of its first byte is written in place of every byte
/// sequence that the decoder rejects.
pub uninterp spec fn utf8_text_with_escapes(bytes: Seq<u8>) -> Seq<char>;

/// Calls `encoding::Encoding::decode` on `encoding::all::UTF_8` with
/// `DecoderTrap::Call` and a trap that writes the octal escape of the first
/// byte of the rejected sequence and lets the decoder go on. The decoder
/// hands its trap at least the byte that it rejected, and fails only where
/// its trap gives up, which this one never does: so the call always
/// succeeds, and what it returns depends on the bytes alone.
#[verifier::external_body]
fn utf8_decode_trapped(text: &[u8]) -> (r: core::result::Result<String, String>)
    ensures
        match r {
            Ok(s) => s@ == utf8_text_with_escapes(text@),
            Err(_) => false,
        },
{
    // `DecoderTrap::Call` takes a plain function; a closure written inside
    // `vec!` stays one
    let trap: Vec<DecoderTrapFunc> = vec![|_, input, output| {
        output.write_str(decode_text_trap(input[0]).as_str());
        true
    }];
    match UTF_8.decode(text, DecoderTrap::Call(trap[0])) {
        Ok(s) => Ok(s),
        Err(e) => Err(e.into_owned()),
    }
}

/// Calls `encoding::Encoding::encode` on `encoding::all::UTF_8` with
/// `EncoderTrap::Strict`. The encoder copies the bytes of the string, which
/// are UTF-8 already, and never fails.
#[verifier::external_body]
fn utf8_encode_strict(text: &str) -> (r: core::result::Result<Vec<u8>, String>)
    ensures
        match r {
            Ok(bytes) => bytes@ == text.spec_bytes(),
            Err(_) => false,
        },
{
    match UTF_8.encode(text, EncoderTrap::Strict) {
        Ok(bytes) => Ok(bytes),
        Err(e) => Err(e.into_owned()),
    }
}

/// Data type representing the default character set.
#[derive(Debug, Default, Clone, PartialEq, Eq, Copy)]
pub struct DefaultCharacterSetCodec;

impl TextCodec for DefaultCharacterSetCodec {
    /// Decode ISO 8859-1 bytes. Every byte is a character there, so this
    /// always succeeds.
    fn decode(&self, text: &[u8]) -> (r: Result<String>)
        ensures
            r matches Ok(s) && s@ == spec_latin1_text(text@),
    {
        match latin1_decode_trapped(text) {
            Ok(s) => Ok(s),
            Err(e) => Err(Error::TextEncoding(TextEncodingError::new(e))),
        }
    }

    /// Encode a text in ISO 8859-1. This fails if and only if the text has a
    /// character beyond U+00FF.
    fn encode(&self, text: &str) -> (r: Result<Vec<u8>>)
        ensures
            match r {
                Ok(bytes) => spec_is_latin1(text@) && bytes@ == spec_latin1_bytes(text@),
                Err(e) => !spec_is_latin1(text@) && e is TextEncoding,
            },
    {
        match latin1_encode_strict(text) {
            Ok(bytes) => Ok(bytes),
            Err(e) => Err(Error::TextEncoding(TextEncodingError::new(e))),
        }
    }
}

/// Data type representing the UTF-8 character set.
#[derive(Debug, Default, Clone, PartialEq, Eq, Copy)]
pub struct Utf8CharacterSetCodec;

impl TextCodec for Utf8CharacterSetCodec {
    /// Decode UTF-8 bytes, with an octal escape in place of every byte
    /// sequence that is not UTF-8. This always succeeds.
    fn decode(&self, text: &[u8]) -> (r: Result<String>)
        ensures
            r matches Ok(s) && s@ == utf8_text_with_escapes(text@),
    {
        match utf8_decode_trapped(text) {
            Ok(s) => Ok(s),
            Err(e) => Err(Error::TextEncoding(TextEncodingError::new(e))),
        }
    }

    /// Encode a text in UTF-8. This always succeeds.
    fn encode(&self, text: &str) -> (r: Result<Vec<u8>>)
        ensures
            r matches Ok(bytes) && bytes@ == text.spec_bytes(),
    {
        match utf8_encode_strict(text) {
            Ok(bytes) => Ok(bytes),
            Err(e) => Err(Error::TextEncoding(TextEncodingError::new(e))),
        }
    }
}

/// A text codec chosen at run time: one of the codecs of this library.
#[derive(Debug, Clone, PartialEq, Eq, Copy)]
pub enum DynamicTextCodec {
    /// The codec of the default character set.
    Default(DefaultCharacterSetCodec),
    /// The codec of the UTF-8 character set.
    Utf8(Utf8CharacterSetCodec),
}

impl DynamicTextCodec {
    /// The character set that this codec reads and writes.
    pub open spec fn spec_character_set(&self) -> SpecificCharacterSet {
        match self {
            DynamicTextCodec::Default(_) => SpecificCharacterSet::Default,
            DynamicTextCodec::Utf8(_) => SpecificCharacterSet::IsoIr192,
        }
    }
}

/// The text that bytes stand for in a character set, as its codec decodes
/// them.
pub open spec fn spec_decoded_text(cs: SpecificCharacterSet, bytes: Seq<u8>) -> Seq<char> {
    match cs {
        SpecificCharacterSet::Default => spec_latin1_text(bytes),
        SpecificCharacterSet::IsoIr192 => utf8_text_with_escapes(bytes),
    }
}

impl TextCodec for DynamicTextCodec {
    /// Decode bytes with the codec held. This always succeeds.
    fn decode(&self, text: &[u8]) -> (r: Result<String>)
        ensures
            r matches Ok(s) && s@ == spec_decoded_text(self.spec_character_set(), text@),
    {
        match self {
            DynamicTextCodec::Default(c) => c.decode(text),
            DynamicTextCodec::Utf8(c) => c.decode(text),
        }
    }

    /// Encode a text with the codec held. The UTF-8 codec always succeeds;
    /// the default codec fails on a character beyond U+00FF.
    fn encode(&self, text: &str) -> (r: Result<Vec<u8>>)
        ensures
            match self.spec_character_set() {
                SpecificCharacterSet::Default => match r {
                    Ok(bytes) => spec_is_latin1(text@) && bytes@ == spec_latin1_bytes(text@),
                    Err(e) => !spec_is_latin1(text@) && e is TextEncoding,
                },
                SpecificCharacterSet::IsoIr192 => r matches Ok(bytes) && bytes@
                    == text.spec_bytes(),
            },
    {
        match self {
            DynamicTextCodec::Default(c) => c.encode(text),
            DynamicTextCodec::Utf8(c) => c.encode(text),
        }
    }
}

/// An enum type for the supported character sets.
#[derive(Debug, Clone, Copy, PartialEq, Eq, Structural)]
pub enum SpecificCharacterSet {
    /// The default character set.
    Default,
    /// The Unicode character set defined in ISO IR 192, based on the UTF-8
    /// encoding.
    IsoIr192,
}

impl SpecificCharacterSet {
    /// The character set that a code names: `Default` and `ISO_IR_6` name the
    /// default one, `ISO_IR_192` names the Unicode one, and nothing else
    /// names any.
    pub open spec fn spec_from_code(uid: Seq<char>) -> Option<SpecificCharacterSet> {
        if uid == "Default"@ || uid == "ISO_IR_6"@ {
            Some(SpecificCharacterSet::Default)
        } else if uid == "ISO_IR_192"@ {
            Some(SpecificCharacterSet::IsoIr192)
        } else {
            None
        }
    }

    /// Obtain the character set that the given code names, if it names one
    /// that is supported.
    pub fn from_code(uid: &str) -> (r: Option<Self>)
        ensures
            r == Self::spec_from_code(uid@),
    {
        if same_text(uid, "Default") || same_text(uid, "ISO_IR_6") {
            Some(SpecificCharacterSet::Default)
        } else if same_text(uid, "ISO_IR_192") {
            Some(SpecificCharacterSet::IsoIr192)
        } else {
            None
        }
    }
}

impl SpecificCharacterSet {
    /// Retrieve the respective text codec.
    pub fn get_codec(&self) -> (r: Option<DynamicTextCodec>)
        ensures
            r matches Some(codec) && codec.spec_character_set() == *self,
    {
        match *self {
            SpecificCharacterSet::Default => Some(
                DynamicTextCodec::Default(DefaultCharacterSetCodec),
            ),
            SpecificCharacterSet::IsoIr192 => Some(DynamicTextCodec::Utf8(Utf8CharacterSetCodec)),
        }
    }
}

impl Default for SpecificCharacterSet {
    fn default() -> (r: SpecificCharacterSet)
        ensures
            r == SpecificCharacterSet::Default,
    {
        SpecificCharacterSet::Default
    }
}

/// The result of a text validation procedure.
#[derive(Debug, Clone, Copy, PartialEq, Eq, Structural, PartialOrd, Ord)]
pub enum TextValidationOutcome {
    /// The text is fully valid and can be safely decoded.
    Okay,
    /// Some characters may have to be replaced, other than that the text can
    /// be safely decoded.
    BadCharacters,
    /// The text cannot be decoded.
    NotOk,
}

/// Whether a byte is an ASCII decimal digit.
pub open spec fn spec_is_digit(c: u8) -> bool {
    0x30 <= c <= 0x39
}

/// The bytes that a Date value may hold: digits.
pub open spec fn spec_is_da_byte(c: u8) -> bool {
    spec_is_digit(c)
}

/// The bytes that a Time value may hold: digits, and `\`, `.`, `-` and
/// space.
pub open spec fn spec_is_tm_byte(c: u8) -> bool {
    spec_is_digit(c) || c == 0x5C || c == 0x2E || c == 0x2D || c == 0x20
}

/// The bytes that a Date Time value may hold: digits, and `\`, `.`, `-`, `+`
/// and space.
pub open spec fn spec_is_dt_byte(c: u8) -> bool {
    spec_is_digit(c) || c == 0x5C || c == 0x2E || c == 0x2D || c == 0x2B || c == 0x20
}

/// The bytes that a Code String value may hold: upper case letters, digits,
/// space and underscore.
pub open spec fn spec_is_cs_byte(c: u8) -> bool {
    spec_is_digit(c) || (0x41 <= c <= 0x5A) || c == 0x20 || c == 0x5F
}

/// The verdict on a text all of whose bytes have to be acceptable.
pub open spec fn spec_all_or_nothing(all: bool) -> TextValidationOutcome {
    if all {
        TextValidationOutcome::Okay
    } else {
        TextValidationOutcome::NotOk
    }
}

/// Check whether the given byte slice contains valid text from the default
/// character repertoire: `Okay` if a strict decoder takes all of it,
/// `BadCharacters` if only a decoder that replaces what it rejects does, and
/// `NotOk` if none does. Every byte is a character of ISO 8859-1, so no text
/// is rejected.
pub fn validate_iso_8859(text: &[u8]) -> (r: TextValidationOutcome)
    ensures
        r == TextValidationOutcome::Okay,
{
    match latin1_decode_strict(text) {
        Ok(_) => TextValidationOutcome::Okay,
        Err(_) => match latin1_decode_trapped(text) {
            Ok(_) => TextValidationOutcome::BadCharacters,
            Err(_) => TextValidationOutcome::NotOk,
        },
    }
}

/// Check whether the given byte slice contains only valid characters for a
/// Date value representation.
pub fn validate_da(text: &[u8]) -> (r: TextValidationOutcome)
    ensures
        r == spec_all_or_nothing(forall|i: int| 0 <= i < text@.len() ==> spec_is_da_byte(text@[i])),
{
    let mut i: usize = 0;
    while i < text.len()
        invariant
            i <= text@.len(),
            forall|j: int| 0 <= j < i ==> spec_is_da_byte(text@[j]),
        decreases text@.len() - i,
    {
        let c: u8 = text[i];
        if !(c >= 0x30 && c <= 0x39) {
            return TextValidationOutcome::NotOk;
        }
        i += 1;
    }
    TextValidationOutcome::Okay
}

/// Check whether the given byte slice contains only valid characters for a
/// Time value representation.
pub fn validate_tm(text: &[u8]) -> (r: TextValidationOutcome)
    ensures
        r == spec_all_or_nothing(forall|i: int| 0 <= i < text@.len() ==> spec_is_tm_byte(text@[i])),
{
    let mut i: usize = 0;
    while i < text.len()
        invariant
            i <= text@.len(),
            forall|j: int| 0 <= j < i ==> spec_is_tm_byte(text@[j]),
        decreases text@.len() - i,
    {
        let c: u8 = text[i];
        let ok = match c {
            0x5C | 0x2E | 0x2D | 0x20 => true,
            c => c >= 0x30 && c <= 0x39,
        };
        if !ok {
            return TextValidationOutcome::NotOk;
        }
        i += 1;
    }
    TextValidationOutcome::Okay
}

/// Check whether the given byte slice contains only valid characters for a
/// Date Time value representation.
pub fn validate_dt(text: &[u8]) -> (r: TextValidationOutcome)
    ensures
        r == spec_all_or_nothing(forall|i: int| 0 <= i < text@.len() ==> spec_is_dt_byte(text@[i])),
{
    let mut i: usize = 0;
    while i < text.len()
        invariant
            i <= text@.len(),
            forall|j: int| 0 <= j < i ==> spec_is_dt_byte(text@[j]),
        decreases text@.len() - i,
    {
        let c: u8 = text[i];
        let ok = match c {
            0x2E | 0x2D | 0x2B | 0x20 | 0x5C => true,
            c => c >= 0x30 && c <= 0x39,
        };
        if !ok {
            return TextValidationOutcome::NotOk;
        }
        i += 1;
    }
    TextValidationOutcome::Okay
}

/// Check whether the given byte slice contains only valid characters for a
/// Code String value representation.
pub fn validate_cs(text: &[u8]) -> (r: TextValidationOutcome)
    ensures
        r == spec_all_or_nothing(forall|i: int| 0 <= i < text@.len() ==> spec_is_cs_byte(text@[i])),
{
    let mut i: usize = 0;
    while i < text.len()
        invariant
            i <= text@.len(),
            forall|j: int| 0 <= j < i ==> spec_is_cs_byte(text@[j]),
        decreases text@.len() - i,
    {
        let c: u8 = text[i];
        let ok = match c {
            0x20 | 0x5F => true,
            c => (c >= 0x30 && c <= 0x39) || (c >= 0x41 && c <= 0x5A),
        };
        if !ok {
            return TextValidationOutcome::NotOk;
        }
        i += 1;
    }
    TextValidationOutcome::Okay
}

} // verus!
