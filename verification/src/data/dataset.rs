//! A mid-level abstraction for reading DICOM content sequentially.
//!
//! A parser obtains element headers and values from a source. At this level
//! headers and values are treated as tokens, which can be used to form a
//! syntax tree of a full data set. What the reader does with each reply of
//! its parser is a state machine, written down here as functions on
//! [`ReaderState`].

use crate::data::parser::{Parse, ReadSeek};
use crate::data::text::SpecificCharacterSet;
use crate::data::value::PrimitiveValue;
use crate::data::{DataElementHeader, Header, Length, SequenceItemHeader, Tag, VR};
use crate::error::{Error, InvalidValueReadError, Result};
use core::marker::PhantomData;
use vstd::prelude::*;

verus! {

/// A token of a DICOM data set stream. This is part of the interpretation of
/// a data set as a stream of symbols, which may either represent data headers
/// or actual value data.
#[derive(Debug, Clone, PartialEq)]
pub enum DicomDataToken {
    /// A data header of a primitive value.
    ElementHeader(DataElementHeader),
    /// The beginning of a sequence element.
    SequenceStart { tag: Tag, len: Length },
    /// The ending delimiter of a sequence.
    SequenceEnd,
    /// The beginning of a new item in the sequence.
    ItemStart { len: Length },
    /// The ending delimiter of an item.
    ItemEnd,
    /// A primitive data element value.
    PrimitiveValue(PrimitiveValue),
}

/// What a reader keeps between two tokens.
#[derive(Debug, Clone, Copy)]
pub struct ReaderState {
    /// How many sequences have been entered and not left. The count is kept
    /// for consumers; it wraps around rather than stop a stream that
    /// closes more sequences than it opened.
    pub depth: u32,
    /// Whether the reader is expecting an item next (or a sequence
    /// delimiter).
    pub in_sequence: bool,
    /// Whether the reader is exhausted for good.
    pub hard_break: bool,
    /// The header whose value has not been read yet.
    pub last_header: Option<DataElementHeader>,
}

/// What a reader asks of its parser in order to produce the next token.
#[derive(Debug, Clone, Copy)]
pub enum Request {
    /// Nothing: the reader is exhausted.
    Nothing,
    /// The header of a sequence item, or a delimiter.
    ItemHeader,
    /// The value that the given header announced.
    Value(DataElementHeader),
    /// The header of a data element.
    ElementHeader,
}

/// What a parser replied to a request.
#[derive(Debug)]
pub enum Reply {
    /// The outcome of decoding an item header.
    ItemHeader(Result<SequenceItemHeader>),
    /// The outcome of reading a value and, where the value asked for it, of
    /// changing the character set: the value if both went well, the first
    /// error otherwise.
    Value(Result<PrimitiveValue>),
    /// The outcome of decoding an element header.
    ElementHeader(Result<DataElementHeader>),
}

/// The character set that the value of an element asks its reader to adopt:
/// the value of a Specific Character Set element, if it reads as a string
/// that names a supported character set.
pub open spec fn spec_character_set_change(
    header: DataElementHeader,
    value: PrimitiveValue,
) -> Option<SpecificCharacterSet> {
    if header.tag == Tag::spec_specific_character_set() {
        match value.spec_string() {
            Some(code) => SpecificCharacterSet::spec_from_code(code),
            None => None,
        }
    } else {
        None
    }
}

/// Find out whether a value that was just read changes the character set of
/// the text that follows, and to which. Only the Specific Character Set
/// element does, and only with a code that is known: any other code leaves
/// the character set as it is.
pub fn character_set_change(header: &DataElementHeader, value: &PrimitiveValue) -> (r: Option<
    SpecificCharacterSet,
>)
    ensures
        r == spec_character_set_change(*header, *value),
{
    if header.tag == Tag(0x0008, 0x0005) {
        match value.string() {
            Some(code) => SpecificCharacterSet::from_code(code),
            None => None,
        }
    } else {
        None
    }
}

impl ReaderState {
    /// The state of a new reader: at the top level of the data set, at depth
    /// zero, expecting an element header.
    pub open spec fn spec_new() -> ReaderState {
        ReaderState { depth: 0, in_sequence: false, hard_break: false, last_header: None }
    }

    /// Create the state of a new reader.
    pub fn new() -> (r: ReaderState)
        ensures
            r == Self::spec_new(),
    {
        ReaderState { depth: 0, in_sequence: false, hard_break: false, last_header: None }
    }

    /// What a reader in this state asks of its parser next.
    pub open spec fn spec_request(&self) -> Request {
        if self.hard_break {
            Request::Nothing
        } else if self.in_sequence {
            Request::ItemHeader
        } else if let Some(header) = self.last_header {
            Request::Value(header)
        } else {
            Request::ElementHeader
        }
    }

    /// Tell what a reader in this state asks of its parser next.
    pub fn request(&self) -> (r: Request)
        ensures
            r == self.spec_request(),
    {
        if self.hard_break {
            Request::Nothing
        } else if self.in_sequence {
            Request::ItemHeader
        } else if let Some(header) = self.last_header {
            Request::Value(header)
        } else {
            Request::ElementHeader
        }
    }

    /// This state, exhausted.
    pub open spec fn spec_fused(self) -> ReaderState {
        ReaderState { hard_break: true, ..self }
    }

    /// The state and the token after an attempt to decode an item header.
    ///
    /// An item opens the item's data set; an item delimiter leaves the
    /// reader waiting for the next item; a sequence delimiter closes the
    /// sequence, one level up. Any error exhausts the reader.
    pub open spec fn spec_on_item_header(self, reply: Result<SequenceItemHeader>) -> (
        ReaderState,
        Result<DicomDataToken>,
    ) {
        match reply {
            Ok(SequenceItemHeader::Item { len }) => (
                ReaderState { in_sequence: false, ..self },
                Ok(DicomDataToken::ItemStart { len }),
            ),
            Ok(SequenceItemHeader::ItemDelimiter) => (
                ReaderState { in_sequence: true, ..self },
                Ok(DicomDataToken::ItemEnd),
            ),
            Ok(SequenceItemHeader::SequenceDelimiter) => (
                ReaderState {
                    depth: if self.depth == 0 {
                        u32::MAX
                    } else {
                        (self.depth - 1) as u32
                    },
                    in_sequence: false,
                    ..self
                },
                Ok(DicomDataToken::SequenceEnd),
            ),
            Err(e) => (self.spec_fused(), Err(e)),
        }
    }

    /// Move on after an attempt to decode an item header, and give the token
    /// that it comes to.
    pub fn on_item_header(&mut self, reply: Result<SequenceItemHeader>) -> (r: Result<
        DicomDataToken,
    >)
        ensures
            (*final(self), r) == old(self).spec_on_item_header(reply),
    {
        match reply {
            Ok(SequenceItemHeader::Item { len }) => {
                // entered a new item
                self.in_sequence = false;
                Ok(DicomDataToken::ItemStart { len })
            },
            Ok(SequenceItemHeader::ItemDelimiter) => {
                // closed an item
                self.in_sequence = true;
                Ok(DicomDataToken::ItemEnd)
            },
            Ok(SequenceItemHeader::SequenceDelimiter) => {
                // closed a sequence
                self.depth = self.depth.wrapping_sub(1);
                self.in_sequence = false;
                Ok(DicomDataToken::SequenceEnd)
            },
            Err(e) => {
                self.hard_break = true;
                Err(e)
            },
        }
    }

    /// The state and the token after an attempt to read the pending value.
    ///
    /// The value becomes a token and the reader expects an element header
    /// again. Any error exhausts the reader. Either way no value is pending
    /// any more.
    pub open spec fn spec_on_value(self, reply: Result<PrimitiveValue>) -> (
        ReaderState,
        Result<DicomDataToken>,
    ) {
        match reply {
            Ok(value) => (
                ReaderState { last_header: None, ..self },
                Ok(DicomDataToken::PrimitiveValue(value)),
            ),
            Err(e) => (ReaderState { hard_break: true, last_header: None, ..self }, Err(e)),
        }
    }

    /// Move on after an attempt to read the pending value, and give the token
    /// that it comes to.
    pub fn on_value(&mut self, reply: Result<PrimitiveValue>) -> (r: Result<DicomDataToken>)
        ensures
            (*final(self), r) == old(self).spec_on_value(reply),
    {
        self.last_header = None;
        match reply {
            Ok(value) => Ok(DicomDataToken::PrimitiveValue(value)),
            Err(e) => {
                self.hard_break = true;
                Err(e)
            },
        }
    }

    /// The state and the token, if any, after an attempt to decode an element
    /// header.
    ///
    /// A sequence header opens a sequence, one level down, and items are
    /// expected. The item delimiter tag closes an item, and the next item is
    /// expected. Any other header is kept until its value has been read. The
    /// end of the source at this point is the end of the data set: the reader
    /// is exhausted without a token. Any other error exhausts it with an
    /// error.
    pub open spec fn spec_on_header(self, reply: Result<DataElementHeader>) -> (
        ReaderState,
        Option<Result<DicomDataToken>>,
    ) {
        match reply {
            Ok(header) => if header.vr == VR::SQ {
                (
                    ReaderState {
                        in_sequence: true,
                        depth: if self.depth == u32::MAX {
                            0
                        } else {
                            (self.depth + 1) as u32
                        },
                        ..self
                    },
                    Some(Ok(DicomDataToken::SequenceStart { tag: header.tag, len: header.len })),
                )
            } else if header.tag == Tag::spec_item_delimiter() {
                (ReaderState { in_sequence: true, ..self }, Some(Ok(DicomDataToken::ItemEnd)))
            } else {
                (
                    ReaderState { last_header: Some(header), ..self },
                    Some(Ok(DicomDataToken::ElementHeader(header))),
                )
            },
            Err(e) => if e.spec_is_unexpected_eof() {
                (self.spec_fused(), None)
            } else {
                (self.spec_fused(), Some(Err(e)))
            },
        }
    }

    /// Move on after an attempt to decode an element header, and give the
    /// token that it comes to, if any.
    pub fn on_header(&mut self, reply: Result<DataElementHeader>) -> (r: Option<
        Result<DicomDataToken>,
    >)
        ensures
            (*final(self), r) == old(self).spec_on_header(reply),
    {
        match reply {
            Ok(header) => {
                if header.vr == VR::SQ {
                    self.in_sequence = true;
                    self.depth = self.depth.wrapping_add(1);
                    Some(Ok(DicomDataToken::SequenceStart { tag: header.tag, len: header.len }))
                } else if header.tag == Tag(0xFFFE, 0xE00D) {
                    self.in_sequence = true;
                    Some(Ok(DicomDataToken::ItemEnd))
                } else {
                    // save it for the next step
                    self.last_header = Some(header);
                    Some(Ok(DicomDataToken::ElementHeader(header)))
                }
            },
            Err(e) => {
                self.hard_break = true;
                if e.is_unexpected_eof() {
                    None
                } else {
                    Some(Err(e))
                }
            },
        }
    }

    /// Whether a reply is of the kind that a reader in this state asked for.
    pub open spec fn spec_asked_for(&self, reply: Reply) -> bool {
        match self.spec_request() {
            Request::Nothing => false,
            Request::ItemHeader => reply is ItemHeader,
            Request::Value(_) => reply is Value,
            Request::ElementHeader => reply is ElementHeader,
        }
    }

    /// The state and the output of a reader after one call that got the
    /// given reply from the parser. An exhausted reader asks nothing and
    /// gives nothing, and a reply that was not asked for changes nothing.
    pub open spec fn spec_step(self, reply: Reply) -> (ReaderState, Option<Result<DicomDataToken>>) {
        if !self.spec_asked_for(reply) {
            (self, None)
        } else {
            match reply {
                Reply::ItemHeader(r) => (
                    self.spec_on_item_header(r).0,
                    Some(self.spec_on_item_header(r).1),
                ),
                Reply::Value(r) => (self.spec_on_value(r).0, Some(self.spec_on_value(r).1)),
                Reply::ElementHeader(r) => self.spec_on_header(r),
            }
        }
    }
}

/// A higher-level reader for retrieving structure in a DICOM data set from an
/// arbitrary data source.
///
/// The reader owns its source, its parser and a dictionary, which it only
/// carries for its consumer. Seen through its view, it is the state between
/// two tokens.
#[derive(Debug)]
pub struct DataSetReader<S, P, D> {
    source: S,
    parser: P,
    dict: D,
    state: ReaderState,
}

impl<S, P, D> View for DataSetReader<S, P, D> {
    type V = ReaderState;

    closed spec fn view(&self) -> ReaderState {
        self.state
    }
}

impl<S, P> DataSetReader<S, P, ()> {
    /// Create a new reader with the given source and parser, and without a
    /// dictionary.
    pub fn new(source: S, parser: P) -> (r: Self)
        ensures
            r@ == ReaderState::spec_new(),
            r.spec_source() == source,
            r.spec_parser() == parser,
    {
        DataSetReader { source, parser, dict: (), state: ReaderState::new() }
    }

    /// Create a new reader with the given source and the outcome of building
    /// a parser for the source's transfer syntax and character set, and
    /// without a dictionary. The reader is made if and only if the parser
    /// was; the parser's error is handed on.
    pub fn new_with(source: S, parser: Result<P>) -> (r: Result<Self>)
        ensures
            match r {
                Ok(reader) => parser == Ok::<P, Error>(reader.spec_parser()) && reader@
                    == ReaderState::spec_new() && reader.spec_source() == source,
                Err(e) => parser == Err::<P, Error>(e),
            },
    {
        match parser {
            Ok(parser) => Ok(
                DataSetReader { source, parser, dict: (), state: ReaderState::new() },
            ),
            Err(e) => Err(e),
        }
    }
}

impl<S, P, D> DataSetReader<S, P, D> {
    /// Create a new reader with the given source and data dictionary, and the
    /// outcome of building a parser for the source's transfer syntax and
    /// character set. The reader is made if and only if the parser was; the
    /// parser's error is handed on.
    pub fn new_with_dictionary(source: S, dict: D, parser: Result<P>) -> (r: Result<Self>)
        ensures
            match r {
                Ok(reader) => parser == Ok::<P, Error>(reader.spec_parser()) && reader@
                    == ReaderState::spec_new() && reader.spec_source() == source
                    && reader.spec_dictionary() == dict,
                Err(e) => parser == Err::<P, Error>(e),
            },
    {
        match parser {
            Ok(parser) => Ok(DataSetReader { source, parser, dict, state: ReaderState::new() }),
            Err(e) => Err(e),
        }
    }

    /// The state of the reader between two tokens.
    pub fn state(&self) -> (r: ReaderState)
        ensures
            r == self@,
    {
        self.state
    }

    /// The dictionary that the reader carries.
    pub closed spec fn spec_dictionary(&self) -> D {
        self.dict
    }

    /// The source that the reader reads from.
    pub closed spec fn spec_source(&self) -> S {
        self.source
    }

    /// The parser that the reader asks.
    pub closed spec fn spec_parser(&self) -> P {
        self.parser
    }

    /// The dictionary that the reader carries.
    pub fn dictionary(&self) -> (r: &D)
        ensures
            *r == self.spec_dictionary(),
    {
        &self.dict
    }
}

impl<S, P: Parse<S>, D> DataSetReader<S, P, D> {
    /// Read the value that the given header announced, and have the parser
    /// adopt the character set that the value names, if it is the value of
    /// a Specific Character Set element that names a supported one.
    ///
    /// The parser is asked to read the value from the source. If that fails,
    /// the failure is the result. If the value asks for a change of
    /// character set, the parser is asked to adopt it: the value is the
    /// result if the parser does, the parser's failure if it does not.
    /// Otherwise the value is the result. State and dictionary stay as they
    /// are.
    fn read_value(&mut self, header: DataElementHeader) -> (r: Result<PrimitiveValue>)
        ensures
            final(self)@ == old(self)@,
            final(self).dict == old(self).dict,
            exists|reading: &mut P, from: &mut S, read: Result<PrimitiveValue>|
                {
                    &&& *reading == old(self).parser
                    &&& *from == old(self).source
                    &&& *final(from) == final(self).source
                    &&& #[trigger] call_ensures(P::read_value, (reading, from, &header), read)
                    &&& match read {
                        Ok(value) => match spec_character_set_change(header, value) {
                            Some(charset) => exists|adopting: &mut P, adopted: Result<()>|
                                {
                                    &&& *adopting == *final(reading)
                                    &&& *final(adopting) == final(self).parser
                                    &&& #[trigger] call_ensures(
                                        P::set_character_set,
                                        (adopting, charset),
                                        adopted,
                                    )
                                    &&& r == match adopted {
                                        Ok(_) => Ok::<PrimitiveValue, Error>(value),
                                        Err(e) => Err::<PrimitiveValue, Error>(e),
                                    }
                                },
                            None => *final(reading) == final(self).parser && r == read,
                        },
                        Err(_) => *final(reading) == final(self).parser && r == read,
                    }
                },
    {
        let value = self.parser.read_value(&mut self.source, &header)?;
        // if it's a Specific Character Set, update the parser immediately.
        match character_set_change(&header, &value) {
            Some(charset) => match self.parser.set_character_set(charset) {
                Ok(()) => Ok(value),
                Err(e) => Err(e),
            },
            None => Ok(value),
        }
    }

    /// Advance the reader and give the next token of the data set, an error,
    /// or `None` when the reader is exhausted.
    ///
    /// An exhausted reader stays as it is, parser and source included, and
    /// gives `None`. Any other reader asks its parser for what its state
    /// calls for, once and for nothing else, and moves on as
    /// [`ReaderState::spec_step`] says of the parser's reply. Whenever the
    /// outcome is an error or `None`, the reader is exhausted afterwards.
    pub fn next(&mut self) -> (r: Option<Result<DicomDataToken>>)
        ensures
            old(self)@.hard_break ==> r is None && *final(self) == *old(self),
            final(self).spec_dictionary() == old(self).spec_dictionary(),
            match old(self)@.spec_request() {
                Request::Nothing => true,
                Request::ItemHeader => exists|asking: &mut P, from: &mut S, reply: Result<SequenceItemHeader>|
                    {
                        &&& *asking == old(self).spec_parser()
                        &&& *final(asking) == final(self).spec_parser()
                        &&& *from == old(self).spec_source()
                        &&& *final(from) == final(self).spec_source()
                        &&& #[trigger] call_ensures(P::decode_item_header, (asking, from), reply)
                        &&& (final(self)@, r) == old(self)@.spec_step(Reply::ItemHeader(reply))
                    },
                Request::Value(header) => exists|reply: Result<PrimitiveValue>|
                    {
                        &&& (final(self)@, r) == old(self)@.spec_step(Reply::Value(reply))
                        &&& exists|reading: &mut P, from: &mut S, read: Result<PrimitiveValue>|
                            {
                                &&& *reading == old(self).spec_parser()
                                &&& *from == old(self).spec_source()
                                &&& *final(from) == final(self).spec_source()
                                &&& #[trigger] call_ensures(P::read_value, (reading, from, &header), read)
                                &&& match read {
                                    Ok(value) => match spec_character_set_change(header, value) {
                                        Some(charset) => exists|adopting: &mut P, adopted: Result<()>|
                                            {
                                                &&& *adopting == *final(reading)
                                                &&& *final(adopting) == final(self).spec_parser()
                                                &&& #[trigger] call_ensures(
                                                    P::set_character_set,
                                                    (adopting, charset),
                                                    adopted,
                                                )
                                                &&& reply == match adopted {
                                                    Ok(_) => Ok::<PrimitiveValue, Error>(value),
                                                    Err(e) => Err::<PrimitiveValue, Error>(e),
                                                }
                                            },
                                        None => *final(reading) == final(self).spec_parser() && reply == read,
                                    },
                                    Err(_) => *final(reading) == final(self).spec_parser() && reply == read,
                                }
                            }
                    },
                Request::ElementHeader => exists|asking: &mut P, from: &mut S, reply: Result<DataElementHeader>|
                    {
                        &&& *asking == old(self).spec_parser()
                        &&& *final(asking) == final(self).spec_parser()
                        &&& *from == old(self).spec_source()
                        &&& *final(from) == final(self).spec_source()
                        &&& #[trigger] call_ensures(P::decode_header, (asking, from), reply)
                        &&& (final(self)@, r) == old(self)@.spec_step(Reply::ElementHeader(reply))
                    },
            },
            !old(self)@.hard_break ==> exists|reply: Reply|
                old(self)@.spec_asked_for(reply) && (final(self)@, r) == #[trigger] old(
                    self,
                )@.spec_step(reply),
            (r is None || (r matches Some(x) && x is Err)) ==> final(self)@.hard_break,
    {
        match self.state.request() {
            Request::Nothing => None,
            Request::ItemHeader => {
                let reply = self.parser.decode_item_header(&mut self.source);
                let r = self.state.on_item_header(reply);
                assert((self@, Some(r)) == old(self)@.spec_step(Reply::ItemHeader(reply)));
                Some(r)
            },
            Request::Value(header) => {
                // a plain element header was read, so a value is expected
                let reply = self.read_value(header);
                let r = self.state.on_value(reply);
                assert((self@, Some(r)) == old(self)@.spec_step(Reply::Value(reply)));
                Some(r)
            },
            Request::ElementHeader => {
                // a data element header or item delimiter is expected
                let reply = self.parser.decode_header(&mut self.source);
                let r = self.state.on_header(reply);
                assert((self@, r) == old(self)@.spec_step(Reply::ElementHeader(reply)));
                r
            },
        }
    }
}

/// The part of a source that holds the value of an element: `len` bytes
/// from the offset `start` on.
#[derive(Debug, Clone, Copy, PartialEq, Eq, Structural)]
pub struct DataInterval {
    /// The offset of the first byte, from the beginning of the source.
    pub start: u64,
    /// The number of bytes.
    pub len: u32,
}

impl DataInterval {
    /// The offset of the first byte after the interval.
    pub open spec fn spec_end(&self) -> int {
        self.start + self.len
    }
}

/// A data type for a DICOM element residing in a file, or any other source
/// with random access. A position in the file is kept for future access.
#[derive(Debug, PartialEq, Clone, Copy)]
pub struct DicomElementMarker {
    /// The header, kept in memory. At this level, the value representation
    /// "UN" may also refer to a non-applicable vr (i.e. for items and
    /// delimiters).
    pub header: DataElementHeader,
    /// The ending position of the element's header (or the starting position
    /// of the element's value if it exists), relative to the beginning of the
    /// file.
    pub pos: u64,
}

impl DicomElementMarker {
    /// The interval of the source that holds this element's value, which
    /// exists only if the element's length is defined.
    pub open spec fn spec_data_interval(&self) -> Result<DataInterval> {
        match self.header.len@ {
            Some(_) => Ok(DataInterval { start: self.pos, len: self.header.len.0 }),
            None => Err(Error::ValueRead(InvalidValueReadError::UnresolvedValueLength)),
        }
    }

    /// Obtain the interval of the raw data associated to this element's data
    /// value: it starts at the marker's position and is as long as the
    /// header says. An element of undefined length has no such interval.
    pub fn get_data_stream(&self) -> (r: Result<DataInterval>)
        ensures
            r == self.spec_data_interval(),
    {
        match self.header.len.get() {
            Some(len) => Ok(DataInterval { start: self.pos, len }),
            None => Err(Error::ValueRead(InvalidValueReadError::UnresolvedValueLength)),
        }
    }

    /// Move the source to the position indicated by the marker: the source
    /// is asked to seek to that position, and what comes back, and what has
    /// become of the source, is what its own `seek_to` made of that.
    pub fn move_to_start<S: ReadSeek>(&self, source: &mut S) -> (r: Result<()>)
        ensures
            exists|seeking: &mut S|
                *seeking == *old(source) && *final(seeking) == *final(source) && call_ensures(
                    S::seek_to,
                    (seeking, self.pos),
                    r,
                ),
    {
        source.seek_to(self.pos)
    }

    /// Getter for this element's value representation. May be `UN` when this
    /// is not applicable.
    pub fn vr(&self) -> (r: VR)
        ensures
            r == self.header.vr,
    {
        self.header.vr()
    }
}

impl Header for DicomElementMarker {
    open spec fn spec_tag(&self) -> Tag {
        self.header.tag
    }

    open spec fn spec_len(&self) -> Length {
        self.header.len
    }

    fn tag(&self) -> (r: Tag) {
        self.header.tag
    }

    fn len(&self) -> (r: Length) {
        self.header.len
    }
}

/// What a marker reader keeps between two markers.
#[derive(Debug, Clone, Copy, PartialEq, Eq, Structural)]
pub struct LazyReaderState {
    /// How many sequences have been entered and not left. The count wraps
    /// around rather than stop a stream that closes more sequences than it
    /// opened.
    pub depth: u32,
    /// Whether the reader is expecting an item next (or a sequence
    /// delimiter).
    pub in_sequence: bool,
    /// Whether the reader is exhausted for good.
    pub hard_break: bool,
}

/// What parser and source replied during one call of a marker reader. A
/// reply that the reader had no reason to ask for does not count: the
/// position is asked only after a header was decoded, and the source is
/// moved only past a value, after its position was taken.
#[allow(inconsistent_fields)]
#[derive(Debug)]
pub enum LazyReply {
    /// The reader asked for an item header.
    Item {
        /// The outcome of decoding an item header.
        header: Result<SequenceItemHeader>,
        /// The source's answer about its position.
        position: Result<u64>,
    },
    /// The reader asked for an element header.
    Element {
        /// The outcome of decoding an element header.
        header: Result<DataElementHeader>,
        /// The source's answer about its position.
        position: Result<u64>,
        /// The source's answer to moving past the value.
        skipped: Result<()>,
    },
}

/// How many bytes a marker reader moves forward after it has marked an
/// element: the length of a primitive value, if it is defined. The items of a
/// sequence are scanned one by one instead, and so is whatever follows a
/// header of undefined length.
pub open spec fn spec_value_skip(header: DataElementHeader) -> Option<u32> {
    if header.vr != VR::SQ && header.len@ is Some {
        Some(header.len.0)
    } else {
        None
    }
}

/// Tell how many bytes a marker reader moves forward after it has marked the
/// element with the given header, if any.
pub fn value_skip(header: &DataElementHeader) -> (r: Option<u32>)
    ensures
        r == spec_value_skip(*header),
{
    if header.vr != VR::SQ {
        header.len.get()
    } else {
        None
    }
}

impl LazyReaderState {
    /// The state of a new reader: at the top level of the data set, at depth
    /// zero, expecting an element header.
    pub open spec fn spec_new() -> LazyReaderState {
        LazyReaderState { depth: 0, in_sequence: false, hard_break: false }
    }

    /// Create the state of a new reader.
    pub fn new() -> (r: LazyReaderState)
        ensures
            r == Self::spec_new(),
    {
        LazyReaderState { depth: 0, in_sequence: false, hard_break: false }
    }

    /// This state, exhausted.
    pub open spec fn spec_fused(self) -> LazyReaderState {
        LazyReaderState { hard_break: true, ..self }
    }

    /// The state after an attempt to decode an item header, and the header
    /// to mark.
    ///
    /// An item opens the item's data set; an item delimiter leaves the
    /// reader waiting for the next item; a sequence delimiter closes the
    /// sequence, one level up. Each is marked as the element header that it
    /// stands for. Any error exhausts the reader.
    pub open spec fn spec_on_item_header(self, reply: Result<SequenceItemHeader>) -> (
        LazyReaderState,
        Result<SequenceItemHeader>,
    ) {
        match reply {
            Ok(SequenceItemHeader::Item { len }) => (
                LazyReaderState { in_sequence: false, ..self },
                reply,
            ),
            Ok(SequenceItemHeader::ItemDelimiter) => (
                LazyReaderState { in_sequence: true, ..self },
                reply,
            ),
            Ok(SequenceItemHeader::SequenceDelimiter) => (
                LazyReaderState {
                    depth: if self.depth == 0 {
                        u32::MAX
                    } else {
                        (self.depth - 1) as u32
                    },
                    in_sequence: false,
                    ..self
                },
                reply,
            ),
            Err(e) => (self.spec_fused(), reply),
        }
    }

    /// Move on after an attempt to decode an item header, and hand the reply
    /// on.
    pub fn on_item_header(&mut self, reply: Result<SequenceItemHeader>) -> (r: Result<
        SequenceItemHeader,
    >)
        ensures
            (*final(self), r) == old(self).spec_on_item_header(reply),
    {
        match reply {
            Ok(SequenceItemHeader::Item { .. }) => {
                self.in_sequence = false;
            },
            Ok(SequenceItemHeader::ItemDelimiter) => {
                self.in_sequence = true;
            },
            Ok(SequenceItemHeader::SequenceDelimiter) => {
                self.depth = self.depth.wrapping_sub(1);
                self.in_sequence = false;
            },
            Err(_) => {
                self.hard_break = true;
            },
        }
        reply
    }

    /// The state after an attempt to decode an element header.
    ///
    /// The Specific Character Set element is recognized and left to the
    /// consumer. Any other sequence header opens a sequence, one level down,
    /// and items are expected. Any error exhausts the reader, the end of the
    /// source included.
    pub open spec fn spec_on_header(self, reply: Result<DataElementHeader>) -> (
        LazyReaderState,
        Result<DataElementHeader>,
    ) {
        match reply {
            Ok(header) => if header.tag != Tag::spec_specific_character_set() && header.vr
                == VR::SQ {
                (
                    LazyReaderState {
                        in_sequence: true,
                        depth: if self.depth == u32::MAX {
                            0
                        } else {
                            (self.depth + 1) as u32
                        },
                        ..self
                    },
                    reply,
                )
            } else {
                (self, reply)
            },
            Err(e) => (self.spec_fused(), reply),
        }
    }

    /// Move on after an attempt to decode an element header, and hand the
    /// reply on.
    pub fn on_header(&mut self, reply: Result<DataElementHeader>) -> (r: Result<
        DataElementHeader,
    >)
        ensures
            (*final(self), r) == old(self).spec_on_header(reply),
    {
        match reply {
            Ok(header) => {
                if header.tag == Tag(0x0008, 0x0005) {
                    // recognized; whether to change the text codec is up to
                    // the consumer
                } else if header.vr == VR::SQ {
                    self.in_sequence = true;
                    self.depth = self.depth.wrapping_add(1);
                }
            },
            Err(_) => {
                self.hard_break = true;
            },
        }
        reply
    }

    /// The state and the marker after the source was asked for its position,
    /// right behind the given header. A source that cannot tell exhausts
    /// the reader.
    pub open spec fn spec_create_element_marker(
        self,
        header: DataElementHeader,
        position: Result<u64>,
    ) -> (LazyReaderState, Result<DicomElementMarker>) {
        match position {
            Ok(pos) => (self, Ok(DicomElementMarker { header, pos })),
            Err(e) => (self.spec_fused(), Err(e)),
        }
    }

    /// Make the marker of an element from its header and the source's answer
    /// about its position.
    pub fn create_element_marker(&mut self, header: DataElementHeader, position: Result<u64>) -> (r:
        Result<DicomElementMarker>)
        ensures
            (*final(self), r) == old(self).spec_create_element_marker(header, position),
    {
        match position {
            Ok(pos) => Ok(DicomElementMarker { header, pos }),
            Err(e) => {
                self.hard_break = true;
                Err(e)
            },
        }
    }

    /// Make the marker of an item or a delimiter from its header and the
    /// source's answer about its position. The marker holds the element
    /// header that the item header stands for, with the value representation
    /// `UN`.
    pub fn create_item_marker(&mut self, header: SequenceItemHeader, position: Result<u64>) -> (r:
        Result<DicomElementMarker>)
        ensures
            (*final(self), r) == old(self).spec_create_element_marker(
                DataElementHeader { tag: header.spec_tag(), vr: VR::UN, len: header.spec_len() },
                position,
            ),
    {
        self.create_element_marker(DataElementHeader::from(header), position)
    }

    /// The state and the output after the source was moved past a value. A
    /// source that cannot move exhausts the reader.
    pub open spec fn spec_on_skip(self, marker: DicomElementMarker, skipped: Result<()>) -> (
        LazyReaderState,
        Result<DicomElementMarker>,
    ) {
        match skipped {
            Ok(_) => (self, Ok(marker)),
            Err(e) => (self.spec_fused(), Err(e)),
        }
    }

    /// Move on after the source was moved past the value of the marked
    /// element.
    pub fn on_skip(&mut self, marker: DicomElementMarker, skipped: Result<()>) -> (r: Result<
        DicomElementMarker,
    >)
        ensures
            (*final(self), r) == old(self).spec_on_skip(marker, skipped),
    {
        match skipped {
            Ok(_) => Ok(marker),
            Err(e) => {
                self.hard_break = true;
                Err(e)
            },
        }
    }

    /// Whether a reply is of the kind that a reader in this state asked for.
    pub open spec fn spec_asked_for(&self, reply: LazyReply) -> bool {
        !self.hard_break && (self.in_sequence <==> reply is Item)
    }

    /// The state and the output of a marker reader after one call that got
    /// the given replies. An exhausted reader asks nothing and gives nothing,
    /// and a reply that was not asked for changes nothing.
    pub open spec fn spec_step(self, reply: LazyReply) -> (
        LazyReaderState,
        Option<Result<DicomElementMarker>>,
    ) {
        if !self.spec_asked_for(reply) {
            (self, None)
        } else {
            match reply {
                LazyReply::Item { header, position } => {
                    let (entered, header) = self.spec_on_item_header(header);
                    match header {
                        Ok(h) => {
                            let (marked, marker) = entered.spec_create_element_marker(
                                DataElementHeader {
                                    tag: h.spec_tag(),
                                    vr: VR::UN,
                                    len: h.spec_len(),
                                },
                                position,
                            );
                            (marked, Some(marker))
                        },
                        Err(e) => (entered, Some(Err(e))),
                    }
                },
                LazyReply::Element { header, position, skipped } => {
                    let (entered, header) = self.spec_on_header(header);
                    match header {
                        Ok(h) => {
                            let (marked, marker) = entered.spec_create_element_marker(h, position);
                            match marker {
                                Ok(m) => if spec_value_skip(h) is Some {
                                    let (moved, r) = marked.spec_on_skip(m, skipped);
                                    (moved, Some(r))
                                } else {
                                    (marked, Some(Ok(m)))
                                },
                                Err(e) => (marked, Some(Err(e))),
                            }
                        },
                        Err(e) => (entered, Some(Err(e))),
                    }
                },
            }
        }
    }
}

/// Once exhausted, always exhausted: an exhausted marker reader stays as it
/// is and gives nothing, whatever might be replied. And a call that ends in
/// an error leaves the reader exhausted.
pub proof fn law_marker_reader_fuses(state: LazyReaderState, reply: LazyReply)
    ensures
        state.hard_break ==> state.spec_step(reply) == (
            state,
            None::<Result<DicomElementMarker>>,
        ),
        (state.spec_step(reply).1 matches Some(out) && out is Err) ==> state.spec_step(
            reply,
        ).0.hard_break,
        state.spec_asked_for(reply) ==> state.spec_step(reply).1 is Some,
{
}

/// An iterator for retrieving DICOM object element markers from a random
/// access data source.
///
/// Values are never read: the reader marks where each one starts and moves
/// the source past it. Seen through its view, the reader is the state
/// between two markers.
#[derive(Debug)]
pub struct LazyDataSetReader<S, DS, P> {
    source: S,
    parser: P,
    state: LazyReaderState,
    phantom: PhantomData<DS>,
}

impl<S, DS, P> View for LazyDataSetReader<S, DS, P> {
    type V = LazyReaderState;

    closed spec fn view(&self) -> LazyReaderState {
        self.state
    }
}

impl<S, DS, P> LazyDataSetReader<S, DS, P> {
    /// Create a new reader with the given source and parser.
    pub fn new(source: S, parser: P) -> (r: LazyDataSetReader<S, DS, P>)
        ensures
            r@ == LazyReaderState::spec_new(),
            r.spec_source() == source,
            r.spec_parser() == parser,
    {
        LazyDataSetReader { source, parser, state: LazyReaderState::new(), phantom: PhantomData }
    }

    /// Create a new reader with the given source and the outcome of building
    /// a parser for the source's transfer syntax and character set. The
    /// reader is made if and only if the parser was; the parser's error is
    /// handed on.
    pub fn new_with(source: S, parser: Result<P>) -> (r: Result<LazyDataSetReader<S, DS, P>>)
        ensures
            match r {
                Ok(reader) => parser == Ok::<P, Error>(reader.spec_parser()) && reader@
                    == LazyReaderState::spec_new() && reader.spec_source() == source,
                Err(e) => parser == Err::<P, Error>(e),
            },
    {
        match parser {
            Ok(parser) => Ok(
                LazyDataSetReader {
                    source,
                    parser,
                    state: LazyReaderState::new(),
                    phantom: PhantomData,
                },
            ),
            Err(e) => Err(e),
        }
    }

    /// The state of the reader between two markers.
    pub fn state(&self) -> (r: LazyReaderState)
        ensures
            r == self@,
    {
        self.state
    }

    /// The source that the reader reads from.
    pub closed spec fn spec_source(&self) -> S {
        self.source
    }

    /// The parser that the reader asks.
    pub closed spec fn spec_parser(&self) -> P {
        self.parser
    }
}

impl<S: ReadSeek, DS, P: Parse<S>> LazyDataSetReader<S, DS, P> {
    /// Get the source's position in the stream: the source is asked for its
    /// position, and what comes back, and what has become of the source, is
    /// what its own `position` made of that. Parser and state stay as they
    /// are.
    fn get_position(&mut self) -> (r: Result<u64>)
        ensures
            final(self)@ == old(self)@,
            final(self).parser == old(self).parser,
            exists|asked: &mut S|
                *asked == old(self).source && *final(asked) == final(self).source
                    && call_ensures(S::position, (asked,), r),
    {
        self.source.position()
    }

    /// Advance the reader and give the marker of the next element, item or
    /// delimiter, an error, or `None` when the reader is exhausted.
    ///
    /// An exhausted reader stays as it is, parser and source included, and
    /// gives `None`. Any other reader asks its parser for the header that its
    /// state calls for, once and for nothing else. If a header comes back,
    /// it asks the source for its position, as the parser left it; and if
    /// that is the header of a primitive value of defined length and the
    /// position is known, it asks the source to skip that many bytes. It
    /// asks the source nothing else, and moves on as
    /// [`LazyReaderState::spec_step`] says of the replies. Whenever the
    /// outcome is an error, the reader is exhausted afterwards.
    pub fn next(&mut self) -> (r: Option<Result<DicomElementMarker>>)
        ensures
            old(self)@.hard_break ==> r is None && *final(self) == *old(self),
            !old(self)@.hard_break && old(self)@.in_sequence ==> exists|
                asking: &mut P,
                from: &mut S,
                reply: Result<SequenceItemHeader>,
            |
                {
                    &&& *asking == old(self).spec_parser()
                    &&& *final(asking) == final(self).spec_parser()
                    &&& *from == old(self).spec_source()
                    &&& #[trigger] call_ensures(P::decode_item_header, (asking, from), reply)
                    &&& match reply {
                        Ok(_) => exists|asked: &mut S, position: Result<u64>|
                            {
                                &&& *asked == *final(from)
                                &&& *final(asked) == final(self).spec_source()
                                &&& #[trigger] call_ensures(S::position, (asked,), position)
                                &&& (final(self)@, r) == old(self)@.spec_step(
                                    LazyReply::Item { header: reply, position },
                                )
                            },
                        Err(_) => *final(from) == final(self).spec_source() && (final(self)@, r)
                            == old(self)@.spec_step(
                            LazyReply::Item { header: reply, position: Ok(0) },
                        ),
                    }
                },
            !old(self)@.hard_break && !old(self)@.in_sequence ==> exists|
                asking: &mut P,
                from: &mut S,
                reply: Result<DataElementHeader>,
            |
                {
                    &&& *asking == old(self).spec_parser()
                    &&& *final(asking) == final(self).spec_parser()
                    &&& *from == old(self).spec_source()
                    &&& #[trigger] call_ensures(P::decode_header, (asking, from), reply)
                    &&& match reply {
                        Ok(header) => exists|asked: &mut S, position: Result<u64>|
                            {
                                &&& *asked == *final(from)
                                &&& #[trigger] call_ensures(S::position, (asked,), position)
                                &&& match (position, spec_value_skip(header)) {
                                    (Ok(_), Some(len)) => exists|
                                        moving: &mut S,
                                        skipped: Result<()>,
                                    |
                                        {
                                            &&& *moving == *final(asked)
                                            &&& *final(moving) == final(self).spec_source()
                                            &&& #[trigger] call_ensures(
                                                S::skip,
                                                (moving, len),
                                                skipped,
                                            )
                                            &&& (final(self)@, r) == old(self)@.spec_step(
                                                LazyReply::Element {
                                                    header: reply,
                                                    position,
                                                    skipped,
                                                },
                                            )
                                        },
                                    _ => *final(asked) == final(self).spec_source() && (
                                        final(self)@,
                                        r,
                                    ) == old(self)@.spec_step(
                                        LazyReply::Element {
                                            header: reply,
                                            position,
                                            skipped: Ok(()),
                                        },
                                    ),
                                }
                            },
                        Err(_) => *final(from) == final(self).spec_source() && (final(self)@, r)
                            == old(self)@.spec_step(
                            LazyReply::Element {
                                header: reply,
                                position: Ok(0),
                                skipped: Ok(()),
                            },
                        ),
                    }
                },
            !old(self)@.hard_break ==> exists|reply: LazyReply|
                old(self)@.spec_asked_for(reply) && (final(self)@, r) == #[trigger] old(
                    self,
                )@.spec_step(reply),
            !old(self)@.hard_break ==> r is Some,
            (r matches Some(x) && x is Err) ==> final(self)@.hard_break,
    {
        if self.state.hard_break {
            return None;
        }
        if self.state.in_sequence {
            let reply = self.parser.decode_item_header(&mut self.source);
            match self.state.on_item_header(reply) {
                Ok(header) => {
                    let position = self.get_position();
                    let r = self.state.create_item_marker(header, position);
                    assert((self@, Some(r)) == old(self)@.spec_step(
                        LazyReply::Item { header: reply, position },
                    ));
                    Some(r)
                },
                Err(e) => {
                    assert((self@, Some(Err::<DicomElementMarker, Error>(e))) == old(
                        self,
                    )@.spec_step(LazyReply::Item { header: reply, position: Ok(0) }));
                    Some(Err(e))
                },
            }
        } else {
            let reply = self.parser.decode_header(&mut self.source);
            match self.state.on_header(reply) {
                Ok(header) => {
                    let position = self.get_position();
                    match self.state.create_element_marker(header, position) {
                        Ok(marker) => match value_skip(&header) {
                            Some(len) => {
                                let skipped = self.source.skip(len);
                                let r = self.state.on_skip(marker, skipped);
                                assert((self@, Some(r)) == old(self)@.spec_step(
                                    LazyReply::Element { header: reply, position, skipped },
                                ));
                                Some(r)
                            },
                            None => {
                                assert((self@, Some(Ok::<DicomElementMarker, Error>(marker)))
                                    == old(self)@.spec_step(
                                    LazyReply::Element { header: reply, position, skipped: Ok(()) },
                                ));
                                Some(Ok(marker))
                            },
                        },
                        Err(e) => {
                            assert((self@, Some(Err::<DicomElementMarker, Error>(e))) == old(
                                self,
                            )@.spec_step(
                                LazyReply::Element { header: reply, position, skipped: Ok(()) },
                            ));
                            Some(Err(e))
                        },
                    }
                },
                Err(e) => {
                    assert((self@, Some(Err::<DicomElementMarker, Error>(e))) == old(
                        self,
                    )@.spec_step(
                        LazyReply::Element { header: reply, position: Ok(0), skipped: Ok(()) },
                    ));
                    Some(Err(e))
                },
            }
        }
    }
}

} // verus!
