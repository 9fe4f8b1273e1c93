//! Basic data types of DICOM content: the attribute tag, the value
//! representation, the element length and the element headers.

pub mod dataset;
pub mod length;
pub mod nesting;
pub mod parser;
pub mod stream;
pub mod tag;
pub mod text;
pub mod value;
pub mod vr;

pub use self::length::Length;
pub use self::tag::{ElementNumber, GroupNumber, Tag};
pub use self::vr::VR;

use crate::data::value::{DicomValueType, PrimitiveValue};
use crate::error::{Error, Result};
use std::rc::Rc;
use vstd::prelude::*;
use vstd::std_specs::convert::{FromSpec, IntoSpec};

verus! {

/// A trait for a data type containing a DICOM header.
pub trait Header {
    /// The element's tag.
    spec fn spec_tag(&self) -> Tag;

    /// The length of the value data, as the header gives it.
    spec fn spec_len(&self) -> Length;

    /// Retrieve the element's tag as a `(group, element)` tuple.
    fn tag(&self) -> (r: Tag)
        ensures
            r == self.spec_tag(),
    ;

    /// Retrieve the value data's length as specified by the data element, in
    /// bytes. The length may be undefined, which can be the case for
    /// sequence elements or specific primitive values.
    fn len(&self) -> (r: Length)
        ensures
            r == self.spec_len(),
    ;

    /// Check whether this is the header of an item.
    fn is_item(&self) -> (r: bool)
        ensures
            r == (self.spec_tag() == Tag::spec_item()),
    {
        let tag = self.tag();
        tag.0 == 0xFFFE && tag.1 == 0xE000
    }

    /// Check whether this is the header of an item delimiter.
    fn is_item_delimiter(&self) -> (r: bool)
        ensures
            r == (self.spec_tag() == Tag::spec_item_delimiter()),
    {
        let tag = self.tag();
        tag.0 == 0xFFFE && tag.1 == 0xE00D
    }

    /// Check whether this is the header of a sequence delimiter.
    fn is_sequence_delimiter(&self) -> (r: bool)
        ensures
            r == (self.spec_tag() == Tag::spec_sequence_delimiter()),
    {
        let tag = self.tag();
        tag.0 == 0xFFFE && tag.1 == 0xE0DD
    }
}

/// A data type that represents and owns a DICOM data element, with a value of
/// type `V`.
#[derive(Debug, PartialEq, Clone)]
pub struct DataElement<V> {
    header: DataElementHeader,
    value: V,
}

/// A data type that represents and owns a DICOM data element containing a
/// primitive value.
#[derive(Debug, PartialEq, Clone)]
pub struct PrimitiveDataElement {
    /// The header of the element.
    pub header: DataElementHeader,
    /// The value of the element.
    pub value: PrimitiveValue,
}

/// A data type that represents a DICOM data element with a borrowed value of
/// type `V`.
#[derive(Debug, PartialEq, Clone)]
pub struct DataElementRef<'v, V> {
    header: DataElementHeader,
    value: &'v V,
}

/// A data type that represents a DICOM data element with a borrowed primitive
/// value.
#[derive(Debug, PartialEq, Clone)]
pub struct PrimitiveDataElementRef<'v> {
    /// The header of the element.
    pub header: DataElementHeader,
    /// The value of the element.
    pub value: &'v PrimitiveValue,
}

impl<V> DataElement<V> {
    /// The header of the element.
    pub closed spec fn spec_header(&self) -> DataElementHeader {
        self.header
    }

    /// The value of the element.
    pub closed spec fn spec_value(&self) -> V {
        self.value
    }

    /// Retrieve the element header.
    pub fn header(&self) -> (r: &DataElementHeader)
        ensures
            *r == self.spec_header(),
    {
        &self.header
    }

    /// Retrieve the data value.
    pub fn value(&self) -> (r: &V)
        ensures
            *r == self.spec_value(),
    {
        &self.value
    }

    /// Retrieve the value representation, which may be unknown or not
    /// applicable.
    pub fn vr(&self) -> (r: VR)
        ensures
            r == self.spec_header().vr,
    {
        self.header.vr
    }
}

impl<V: From<PrimitiveValue>> DataElement<V> {
    /// Create an empty data element: its length is zero and its value is
    /// made from the empty primitive value.
    pub fn empty(tag: Tag, vr: VR) -> (r: Self)
        ensures
            r.spec_header() == (DataElementHeader { tag, vr, len: Length(0) }),
            V::obeys_from_spec() ==> r.spec_value() == V::from_spec(PrimitiveValue::Empty),
    {
        DataElement {
            header: DataElementHeader { tag: tag, vr: vr, len: Length(0) },
            value: V::from(PrimitiveValue::Empty),
        }
    }
}

impl<V: From<PrimitiveValue>> From<PrimitiveDataElement> for DataElement<V> {
    /// The element with the same header, and the value made from the
    /// primitive value.
    fn from(o: PrimitiveDataElement) -> (r: Self) {
        DataElement { header: o.header, value: V::from(o.value) }
    }
}

impl<V: From<PrimitiveValue>> vstd::std_specs::convert::FromSpecImpl<PrimitiveDataElement> for DataElement<V> {
    open spec fn obeys_from_spec() -> bool {
        V::obeys_from_spec()
    }

    closed spec fn from_spec(o: PrimitiveDataElement) -> Self {
        DataElement { header: o.header, value: V::from_spec(o.value) }
    }
}

/// The element made from a primitive element has the same header, and the
/// value made from the primitive value.
pub proof fn law_element_from_primitive<V: From<PrimitiveValue>>(o: PrimitiveDataElement)
    ensures
        DataElement::<V>::from_spec(o).spec_header() == o.header,
        DataElement::<V>::from_spec(o).spec_value() == V::from_spec(o.value),
{
}

impl<V: DicomValueType> DataElement<V> {
    /// Create a data element from the given parts, with the length that the
    /// value's own `size` gives. This method will not check whether the value
    /// representation is compatible with the given value.
    pub fn new(tag: Tag, vr: VR, value: V) -> (r: Self)
        ensures
            r.spec_header().tag == tag,
            r.spec_header().vr == vr,
            call_ensures(V::size, (&value,), r.spec_header().len),
            r.spec_value() == value,
    {
        DataElement { header: DataElementHeader { tag: tag, vr: vr, len: value.size() }, value: value }
    }

    /// Retrieve the element's value as a string: the result is one that the
    /// value's own `as_string` gives.
    pub fn as_string(&self) -> (r: Result<String>)
        ensures
            call_ensures(V::as_string, (&self.spec_value(),), r),
    {
        self.value.as_string()
    }
}

impl<'v, V> DataElementRef<'v, V> {
    /// The header of the element.
    pub closed spec fn spec_header(&self) -> DataElementHeader {
        self.header
    }

    /// The value of the element.
    pub closed spec fn spec_value(&self) -> V {
        *self.value
    }

    /// Retrieves the element's value representation, which can be unknown.
    pub fn vr(&self) -> (r: VR)
        ensures
            r == self.spec_header().vr,
    {
        self.header.vr
    }

    /// Retrieves the DICOM value.
    pub fn value(&self) -> (r: &V)
        ensures
            *r == self.spec_value(),
    {
        self.value
    }
}

impl<'v, V: DicomValueType> DataElementRef<'v, V> {
    /// Create a data element from the given parts, with the length that the
    /// value's own `size` gives. This method will not check whether the value
    /// representation is compatible with the value. Caution is advised.
    pub fn new(tag: Tag, vr: VR, value: &'v V) -> (r: Self)
        ensures
            r.spec_header().tag == tag,
            r.spec_header().vr == vr,
            call_ensures(V::size, (value,), r.spec_header().len),
            r.spec_value() == *value,
    {
        DataElementRef { header: DataElementHeader { tag: tag, vr: vr, len: value.size() }, value: value }
    }
}

impl<V> Header for DataElement<V> {
    open spec fn spec_tag(&self) -> Tag {
        self.spec_header().tag
    }

    open spec fn spec_len(&self) -> Length {
        self.spec_header().len
    }

    #[inline]
    fn tag(&self) -> (r: Tag) {
        self.header.tag
    }

    #[inline]
    fn len(&self) -> (r: Length) {
        self.header.len
    }
}

impl<'a, V> Header for &'a DataElement<V> {
    open spec fn spec_tag(&self) -> Tag {
        self.spec_header().tag
    }

    open spec fn spec_len(&self) -> Length {
        self.spec_header().len
    }

    #[inline]
    fn tag(&self) -> (r: Tag) {
        self.header.tag
    }

    #[inline]
    fn len(&self) -> (r: Length) {
        self.header.len
    }
}

impl<V> Header for Box<DataElement<V>> {
    open spec fn spec_tag(&self) -> Tag {
        self.spec_header().tag
    }

    open spec fn spec_len(&self) -> Length {
        self.spec_header().len
    }

    #[inline]
    fn tag(&self) -> (r: Tag) {
        self.header.tag
    }

    #[inline]
    fn len(&self) -> (r: Length) {
        self.header.len
    }
}

impl<V> Header for Rc<DataElement<V>> {
    open spec fn spec_tag(&self) -> Tag {
        self.spec_header().tag
    }

    open spec fn spec_len(&self) -> Length {
        self.spec_header().len
    }

    #[inline]
    fn tag(&self) -> (r: Tag) {
        self.header.tag
    }

    #[inline]
    fn len(&self) -> (r: Length) {
        self.header.len
    }
}

impl<'v, V> Header for DataElementRef<'v, V> {
    open spec fn spec_tag(&self) -> Tag {
        self.spec_header().tag
    }

    open spec fn spec_len(&self) -> Length {
        self.spec_header().len
    }

    #[inline]
    fn tag(&self) -> (r: Tag) {
        self.header.tag
    }

    #[inline]
    fn len(&self) -> (r: Length) {
        self.header.len
    }
}

/// A data structure for a data element header, containing a tag, value
/// representation and specified length.
#[derive(Debug, PartialEq, Clone, Copy)]
pub struct DataElementHeader {
    /// DICOM tag
    pub tag: Tag,
    /// Value Representation
    pub vr: VR,
    /// Element length
    pub len: Length,
}

impl Header for DataElementHeader {
    open spec fn spec_tag(&self) -> Tag {
        self.tag
    }

    open spec fn spec_len(&self) -> Length {
        self.len
    }

    fn tag(&self) -> (r: Tag) {
        self.tag
    }

    fn len(&self) -> (r: Length) {
        self.len
    }
}

impl DataElementHeader {
    /// Create a new data element header with the given properties.
    pub fn new<T: Into<Tag>>(tag: T, vr: VR, len: Length) -> (r: DataElementHeader)
        ensures
            T::obeys_into_spec() ==> r.tag == tag.into_spec(),
            r.vr == vr,
            r.len == len,
    {
        DataElementHeader { tag: tag.into(), vr, len }
    }

    /// Retrieve the element's value representation, which can be unknown.
    pub fn vr(&self) -> (r: VR)
        ensures
            r == self.vr,
    {
        self.vr
    }
}

impl From<SequenceItemHeader> for DataElementHeader {
    /// The header of the element that a sequence item header stands for:
    /// its tag and length, with the value representation `UN`.
    fn from(value: SequenceItemHeader) -> (r: DataElementHeader) {
        DataElementHeader { tag: value.tag(), vr: VR::UN, len: value.len() }
    }
}

impl vstd::std_specs::convert::FromSpecImpl<SequenceItemHeader> for DataElementHeader {
    open spec fn obeys_from_spec() -> bool {
        true
    }

    open spec fn from_spec(value: SequenceItemHeader) -> DataElementHeader {
        DataElementHeader { tag: value.spec_tag(), vr: VR::UN, len: value.spec_len() }
    }
}

/// Data type for describing a sequence item data element. If the element
/// represents an item, it will also contain the specified length.
#[derive(Debug, PartialEq, Clone, Copy)]
pub enum SequenceItemHeader {
    /// The cursor contains an item.
    Item {
        /// the length of the item in bytes (can be undefined)
        len: Length,
    },
    /// The cursor read an item delimiter. The element ends here and should
    /// not be read any further.
    ItemDelimiter,
    /// The cursor read a sequence delimiter. The element ends here and
    /// should not be read any further.
    SequenceDelimiter,
}

impl SequenceItemHeader {
    /// The sequence item header that a tag and a length stand for, or why
    /// they stand for none.
    ///
    /// The item tag gives an item of the given length; the sequence
    /// delimiter tag gives a sequence delimiter whatever the length; the item
    /// delimiter tag gives an item delimiter only with a defined length of
    /// zero. No other tag heads a sequence item.
    pub open spec fn spec_new(tag: Tag, len: Length) -> Result<SequenceItemHeader> {
        if tag == Tag::spec_item() {
            Ok(SequenceItemHeader::Item { len })
        } else if tag == Tag::spec_item_delimiter() {
            if len.0 == 0 {
                Ok(SequenceItemHeader::ItemDelimiter)
            } else {
                Err(Error::UnexpectedDataValueLength)
            }
        } else if tag == Tag::spec_sequence_delimiter() {
            Ok(SequenceItemHeader::SequenceDelimiter)
        } else {
            Err(Error::UnexpectedElement)
        }
    }

    /// Create a sequence item header from a tag and a length. An error is
    /// raised if they do not relate to a sequence item, a sequence item
    /// delimiter or a sequence delimiter.
    pub fn from_parts(tag: Tag, len: Length) -> (r: Result<SequenceItemHeader>)
        ensures
            r == Self::spec_new(tag, len),
    {
        if tag == Tag(0xFFFE, 0xE000) {
            Ok(SequenceItemHeader::Item { len })
        } else if tag == Tag(0xFFFE, 0xE00D) {
            // delimiters should not have a positive length
            if len != Length(0) {
                Err(Error::UnexpectedDataValueLength)
            } else {
                Ok(SequenceItemHeader::ItemDelimiter)
            }
        } else if tag == Tag(0xFFFE, 0xE0DD) {
            Ok(SequenceItemHeader::SequenceDelimiter)
        } else {
            Err(Error::UnexpectedElement)
        }
    }

    /// Create a sequence item header using the element's raw properties,
    /// with anything that converts into a tag. An error is raised if the
    /// given properties do not relate to a sequence item, a sequence item
    /// delimiter or a sequence delimiter.
    pub fn new<T: Into<Tag>>(tag: T, len: Length) -> (r: Result<SequenceItemHeader>)
        ensures
            T::obeys_into_spec() ==> r == Self::spec_new(tag.into_spec(), len),
            exists|t: Tag| r == Self::spec_new(t, len),
    {
        Self::from_parts(tag.into(), len)
    }
}

/// Which tags and lengths head a sequence item: the item tag with any length,
/// the sequence delimiter tag with any length, and the item delimiter tag
/// with no other length than a defined zero. Any other tag is an unexpected
/// element.
pub proof fn law_sequence_item_header_validation(tag: Tag, len: Length)
    ensures
        SequenceItemHeader::spec_new(Tag::spec_item(), len) == Ok::<SequenceItemHeader, Error>(
            SequenceItemHeader::Item { len },
        ),
        SequenceItemHeader::spec_new(Tag::spec_sequence_delimiter(), len) == Ok::<
            SequenceItemHeader,
            Error,
        >(SequenceItemHeader::SequenceDelimiter),
        len.0 == 0 ==> SequenceItemHeader::spec_new(Tag::spec_item_delimiter(), len) == Ok::<
            SequenceItemHeader,
            Error,
        >(SequenceItemHeader::ItemDelimiter),
        len.0 != 0 ==> SequenceItemHeader::spec_new(Tag::spec_item_delimiter(), len) == Err::<
            SequenceItemHeader,
            Error,
        >(Error::UnexpectedDataValueLength),
        tag != Tag::spec_item() && tag != Tag::spec_item_delimiter() && tag
            != Tag::spec_sequence_delimiter() ==> SequenceItemHeader::spec_new(tag, len) == Err::<
            SequenceItemHeader,
            Error,
        >(Error::UnexpectedElement),
        SequenceItemHeader::spec_new(tag, len) is Ok ==> SequenceItemHeader::spec_new(
            tag,
            len,
        )->Ok_0.spec_tag() == tag,
{
}

impl Header for SequenceItemHeader {
    open spec fn spec_tag(&self) -> Tag {
        match *self {
            SequenceItemHeader::Item { .. } => Tag::spec_item(),
            SequenceItemHeader::ItemDelimiter => Tag::spec_item_delimiter(),
            SequenceItemHeader::SequenceDelimiter => Tag::spec_sequence_delimiter(),
        }
    }

    open spec fn spec_len(&self) -> Length {
        match *self {
            SequenceItemHeader::Item { len } => len,
            SequenceItemHeader::ItemDelimiter | SequenceItemHeader::SequenceDelimiter => Length(0),
        }
    }

    fn tag(&self) -> (r: Tag) {
        match *self {
            SequenceItemHeader::Item { .. } => Tag(0xFFFE, 0xE000),
            SequenceItemHeader::ItemDelimiter => Tag(0xFFFE, 0xE00D),
            SequenceItemHeader::SequenceDelimiter => Tag(0xFFFE, 0xE0DD),
        }
    }

    fn len(&self) -> (r: Length) {
        match *self {
            SequenceItemHeader::Item { len } => len,
            SequenceItemHeader::ItemDelimiter | SequenceItemHeader::SequenceDelimiter => Length(0),
        }
    }
}

} // verus!
