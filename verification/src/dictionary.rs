//! The concept of a DICOM data dictionary.
//!
//! An attribute dictionary converts a tag to an alias and an alias to a tag,
//! and tells what is known of an attribute besides. The tables of a
//! dictionary are the business of whoever implements one.

use crate::data::{Tag, VR};
use vstd::prelude::*;

verus! {

/// Type trait for a dictionary of DICOM attributes. Attribute dictionaries
/// provide the means to convert a tag to an alias and vice versa, as well as
/// a form of retrieving additional information about the attribute.
///
/// Nothing is assumed of an implementation.
pub trait DataDictionary {
    /// The type of the dictionary entry.
    type Entry: DictionaryEntry;

    /// Fetch an entry by its usual alias (e.g. "PatientName" or
    /// "SOPInstanceUID"). Aliases are usually case sensitive and not
    /// separated by spaces.
    fn by_name(&self, name: &str) -> Option<&Self::Entry>;

    /// Fetch an entry by its tag.
    fn by_tag(&self, tag: Tag) -> Option<&Self::Entry>;
}

/// The dictionary entry data type, representing a DICOM attribute.
///
/// Nothing is assumed of an implementation.
pub trait DictionaryEntry {
    /// The attribute tag.
    fn tag(&self) -> Tag;

    /// The alias of the attribute, with no spaces, usually in UpperCamelCase.
    fn alias(&self) -> &str;

    /// The _typical_ value representation of the attribute. In some edge
    /// cases, an element might not have this VR.
    fn vr(&self) -> VR;
}

/// A data type for a dictionary entry with full ownership.
#[derive(Debug, PartialEq, Eq, Clone)]
pub struct DictionaryEntryBuf {
    /// The attribute tag
    pub tag: Tag,
    /// The alias of the attribute, with no spaces, usually
    /// InCapitalizedCamelCase
    pub alias: String,
    /// The _typical_ value representation of the attribute
    pub vr: VR,
}

impl DictionaryEntry for DictionaryEntryBuf {
    fn tag(&self) -> (r: Tag)
        ensures
            r == self.tag,
    {
        self.tag
    }

    fn alias(&self) -> (r: &str)
        ensures
            r@ == self.alias@,
    {
        self.alias.as_str()
    }

    fn vr(&self) -> (r: VR)
        ensures
            r == self.vr,
    {
        self.vr
    }
}

/// A data type for a dictionary entry with a string slice for its alias.
#[derive(Debug, PartialEq, Eq, Clone)]
pub struct DictionaryEntryRef<'a> {
    /// The attribute tag
    pub tag: Tag,
    /// The alias of the attribute, with no spaces, usually
    /// InCapitalizedCamelCase
    pub alias: &'a str,
    /// The _typical_ value representation of the attribute
    pub vr: VR,
}

impl<'a> DictionaryEntry for DictionaryEntryRef<'a> {
    fn tag(&self) -> (r: Tag)
        ensures
            r == self.tag,
    {
        self.tag
    }

    fn alias(&self) -> (r: &str)
        ensures
            r@ == self.alias@,
    {
        self.alias
    }

    fn vr(&self) -> (r: VR)
        ensures
            r == self.vr,
    {
        self.vr
    }
}

/// Utility data structure that resolves to a DICOM attribute tag at a later
/// time.
#[derive(Debug)]
pub struct TagByName<'a, D: DataDictionary> {
    dict: D,
    name: &'a str,
}

impl<'a, D: DataDictionary> TagByName<'a, D> {
    /// The dictionary that will be asked.
    pub closed spec fn spec_dictionary(&self) -> D {
        self.dict
    }

    /// The alias that will be asked for.
    pub closed spec fn spec_name(&self) -> Seq<char> {
        self.name@
    }

    /// Create a tag resolver by name using the given dictionary.
    pub fn new(dictionary: D, name: &'a str) -> (r: TagByName<'a, D>)
        ensures
            r.spec_dictionary() == dictionary,
            r.spec_name() == name@,
    {
        TagByName { dict: dictionary, name: name }
    }
}

impl<'a, D: DataDictionary> From<TagByName<'a, D>> for Option<Tag> {
    /// Ask the dictionary for the entry with the resolver's alias, and give
    /// the tag of the entry that it returns, if it returns one.
    fn from(tag: TagByName<'a, D>) -> (r: Option<Tag>) {
        match tag.dict.by_name(tag.name) {
            Some(entry) => Some(entry.tag()),
            None => None,
        }
    }
}

impl<'a, D: DataDictionary> vstd::std_specs::convert::FromSpecImpl<TagByName<'a, D>> for Option<Tag> {
    /// What comes back is up to the dictionary, of which nothing is assumed.
    open spec fn obeys_from_spec() -> bool {
        false
    }

    open spec fn from_spec(tag: TagByName<'a, D>) -> Option<Tag> {
        None
    }
}

} // verus!
