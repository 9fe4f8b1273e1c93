//! The values that primitive data elements carry.

use crate::data::length::Length;
use crate::data::tag::Tag;
use crate::error::Result;
use vstd::prelude::*;

verus! {

/// What a data element asks of the value that it holds, whatever the type of
/// the value: a primitive value, a sequence of items, or either.
///
/// Nothing is assumed of an implementation.
pub trait DicomValueType {
    /// The length of the value, as the header of its element is to give it.
    fn size(&self) -> Length;

    /// The value as a single string, if it can be read as one.
    fn as_string(&self) -> Result<String>;
}

/// The value of a primitive data element, as plain data.
///
/// Text is held decoded; numbers are held in the width they have on the
/// wire; floating point numbers are held as their IEEE 754 bit patterns.
#[derive(Debug, Clone, PartialEq)]
pub enum PrimitiveValue {
    /// No data. Used for zero-length values.
    Empty,
    /// A single string.
    Str(String),
    /// A sequence of strings.
    Strs(Vec<String>),
    /// A sequence of attribute tags.
    Tags(Vec<Tag>),
    /// A sequence of unsigned 8-bit integers, or a binary blob.
    U8(Vec<u8>),
    /// A sequence of signed 16-bit integers.
    I16(Vec<i16>),
    /// A sequence of unsigned 16-bit integers.
    U16(Vec<u16>),
    /// A sequence of signed 32-bit integers.
    I32(Vec<i32>),
    /// A sequence of unsigned 32-bit integers.
    U32(Vec<u32>),
    /// A sequence of 32-bit floating point numbers, each as its bit pattern.
    F32(Vec<u32>),
    /// A sequence of 64-bit floating point numbers, each as its bit pattern.
    F64(Vec<u64>),
}

impl PrimitiveValue {
    /// The text of a value that reads as a string: the string of a single
    /// string value, or the first string of a sequence of strings.
    pub open spec fn spec_string(&self) -> Option<Seq<char>> {
        match self {
            PrimitiveValue::Str(s) => Some(s@),
            PrimitiveValue::Strs(c) => if c@.len() > 0 {
                Some(c@[0]@)
            } else {
                None
            },
            _ => None,
        }
    }

    /// Get a single string value. If the value holds several strings, only
    /// the first one is returned; if it holds no text, none is.
    pub fn string(&self) -> (r: Option<&str>)
        ensures
            match r {
                Some(s) => self.spec_string() == Some(s@),
                None => self.spec_string() is None,
            },
    {
        match self {
            PrimitiveValue::Str(s) => Some(s.as_str()),
            PrimitiveValue::Strs(c) => {
                if c.len() > 0 {
                    Some(c[0].as_str())
                } else {
                    None
                }
            },
            _ => None,
        }
    }
}

} // verus!
