//! The interface through which the data set readers obtain headers and
//! values from a source of bytes.

use crate::data::text::SpecificCharacterSet;
use crate::data::value::PrimitiveValue;
use crate::data::{DataElementHeader, SequenceItemHeader};
use crate::error::Result;
use vstd::prelude::*;

verus! {

/// A parser of DICOM content: it reads element headers, item headers and
/// values from a source `S`, under a transfer syntax and a character set of
/// its own.
///
/// Nothing is assumed of an implementation: the readers state what they do
/// with whatever a parser returns.
pub trait Parse<S: ?Sized> {
    /// Read the header of the data element at the source's position.
    fn decode_header(&mut self, from: &mut S) -> Result<DataElementHeader>;

    /// Read the header of a sequence item, an item delimiter or a sequence
    /// delimiter at the source's position.
    fn decode_item_header(&mut self, from: &mut S) -> Result<SequenceItemHeader>;

    /// Read the value that the given header announces.
    fn read_value(&mut self, from: &mut S, header: &DataElementHeader) -> Result<PrimitiveValue>;

    /// Decode text in the given character set from now on.
    fn set_character_set(&mut self, charset: SpecificCharacterSet) -> Result<()>;
}

/// A source of bytes that knows its position and can move forward.
///
/// Nothing is assumed of an implementation.
pub trait ReadSeek {
    /// The offset of the next byte from the beginning of the source.
    fn position(&mut self) -> Result<u64>;

    /// Move the position forward by the given number of bytes.
    fn skip(&mut self, len: u32) -> Result<()>;

    /// Move to the given offset from the beginning of the source.
    fn seek_to(&mut self, pos: u64) -> Result<()>;
}

} // verus!
