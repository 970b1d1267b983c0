use vstd::prelude::*;
use crate::codec::{dictionary_lookup, dictionary_tag};
use crate::tag::Tag;

verus! {

/// The way a caller points at an attribute: by its tag, or by the keyword
/// under which the standard dictionary lists it.
#[derive(Clone, Debug, PartialEq, Eq)]
pub enum Selector {
    Tag(Tag),
    Name(String),
}

impl Selector {
    /// The tag that the selector stands for: the tag itself, or the tag that
    /// the dictionary lists under the name, if it lists one.
    pub open spec fn resolved(self) -> Option<Tag> {
        match self {
            Selector::Tag(tag) => Some(tag),
            Selector::Name(name) => dictionary_tag(name@),
        }
    }

    /// Turn the selector into a tag. Only a name that the dictionary does not
    /// know gives `None`.
    pub fn resolve(&self) -> (r: Option<Tag>)
        ensures
            r == self.resolved(),
    {
        match self {
            Selector::Tag(tag) => Some(*tag),
            Selector::Name(name) => dictionary_lookup(name.as_str()),
        }
    }
}

} // verus!
