//! Core data model and streaming readers for DICOM data sets.
//!
//! A data set is a linear sequence of tagged elements, some of which nest
//! further data sets inside sequences of items. This crate holds the value
//! types of that model (tags, value representations, lengths, headers), the
//! text codecs, and the state machines that turn what a parser reads into a
//! flat stream of tokens or markers. The functions here are verified against
//! their contracts; the few calls into the `encoding` crate are trusted, and
//! say so where they stand.

pub mod data;
pub mod dictionary;
pub mod error;
pub mod util;
