use vstd::prelude::*;
use crate::codec::{
    dataset_elements, decode_file, decoded_file, dictionary_lookup, dictionary_tag,
    discard_element, encode_file, file_image, list_tags, lookup_element,
    select_explicit_little_endian, store_text, DicomFile,
};
use crate::element::{element_set_to, Element, ElementView};
use crate::error::{AttributeError, ParseError, ReadFailure};
use crate::tag::{ascending, Tag};
use crate::vr::pad_to_even;

verus! {

/// The elements of one decoded data set, addressed by tag.
///
/// To contracts an index is a map from tag to element, so no tag occurs
/// twice; `tags` lists its tags in ascending order. Whatever encoding an
/// index was decoded from, it is written in explicit VR little endian.
pub struct ElementIndex {
    file: DicomFile,
}

impl View for ElementIndex {
    type V = Map<Tag, ElementView>;

    closed spec fn view(&self) -> Map<Tag, ElementView> {
        dataset_elements(self.file)
    }
}

/// The index after `value` has been set under `tag`, which the index has to
/// hold: the element keeps its representation, stores `value` padded to even
/// length, and reads back as `value` without its trailing pad.
pub open spec fn with_text(elements: Map<Tag, ElementView>, tag: Tag, value: Seq<char>) -> Map<
    Tag,
    ElementView,
> {
    elements.insert(tag, element_set_to(elements[tag].vr, value))
}

/// What reading the attribute `name` as text gives on an index that holds
/// `elements`: the dictionary has to know the name, the index has to hold an
/// element under its tag, and the element has to have a reading as text.
pub open spec fn text_of_name(elements: Map<Tag, ElementView>, name: Seq<char>) -> Result<
    Seq<char>,
    AttributeError,
> {
    match dictionary_tag(name) {
        None => Err(AttributeError::UnknownAttributeName),
        Some(tag) => if !elements.contains_key(tag) {
            Err(AttributeError::AttributeNotFound)
        } else {
            match elements[tag].text {
                None => Err(AttributeError::NotText),
                Some(text) => Ok(text),
            }
        },
    }
}

/// The index without the element under `tag`.
pub open spec fn without(elements: Map<Tag, ElementView>, tag: Tag) -> Map<Tag, ElementView> {
    elements.remove(tag)
}

/// Removing is idempotent: a second removal of the same tag finds nothing
/// left to remove.
pub proof fn lemma_remove_twice_is_remove_once(elements: Map<Tag, ElementView>, tag: Tag)
    ensures
        without(without(elements, tag), tag) == without(elements, tag),
        !without(elements, tag).contains_key(tag),
{
    assert(without(without(elements, tag), tag) =~= without(elements, tag));
}

/// Removing a tag that the index does not hold changes nothing.
pub proof fn lemma_remove_of_absent_is_nothing(elements: Map<Tag, ElementView>, tag: Tag)
    requires
        !elements.contains_key(tag),
    ensures
        without(elements, tag) == elements,
{
    assert(without(elements, tag) =~= elements);
}

impl ElementIndex {
    /// The byte stream that `write` gives for this index, or `None` where the
    /// encoder refuses it.
    pub closed spec fn image(&self) -> Option<Seq<u8>> {
        file_image(self.file)
    }

    /// Decode a byte stream into an index, and set the index up to be written
    /// in explicit VR little endian.
    pub fn parse(buffer: &[u8]) -> (r: Result<ElementIndex, ParseError>)
        ensures
            match r {
                Ok(index) => decoded_file(buffer@) == Ok::<Map<Tag, ElementView>, ReadFailure>(
                    index@,
                ),
                Err(error) => decoded_file(buffer@) is Err && error == ParseError::of(
                    decoded_file(buffer@)->Err_0,
                ),
            },
    {
        match decode_file(buffer) {
            Ok(file) => {
                let mut file = file;
                select_explicit_little_endian(&mut file);
                Ok(ElementIndex { file })
            },
            Err(failure) => Err(ParseError::from_failure(failure)),
        }
    }

    /// The element with the given tag, if the index holds one.
    pub fn find_by_tag(&self, tag: Tag) -> (r: Option<Element>)
        ensures
            match r {
                Some(element) => self@.contains_key(tag) && element.tag == tag && element@
                    == self@[tag],
                None => !self@.contains_key(tag),
            },
    {
        lookup_element(&self.file, tag)
    }

    /// The element that the dictionary lists under `name`, if the index holds
    /// one. A name that the dictionary does not know is an error.
    pub fn find_by_name(&self, name: &str) -> (r: Result<Option<Element>, AttributeError>)
        ensures
            match dictionary_tag(name@) {
                None => r == Err::<Option<Element>, AttributeError>(
                    AttributeError::UnknownAttributeName,
                ),
                Some(tag) => match r {
                    Ok(Some(element)) => self@.contains_key(tag) && element.tag == tag
                        && element@ == self@[tag],
                    Ok(None) => !self@.contains_key(tag),
                    Err(_) => false,
                },
            },
    {
        match dictionary_lookup(name) {
            None => Err(AttributeError::UnknownAttributeName),
            Some(tag) => Ok(self.find_by_tag(tag)),
        }
    }

    /// The value of the attribute `name`, read as text.
    pub fn read_text(&self, name: &str) -> (r: Result<String, AttributeError>)
        ensures
            match text_of_name(self@, name@) {
                Ok(text) => r.is_ok() && r->Ok_0@ == text,
                Err(kind) => r == Err::<String, AttributeError>(kind),
            },
    {
        match self.find_by_name(name) {
            Err(kind) => Err(kind),
            Ok(None) => Err(AttributeError::AttributeNotFound),
            Ok(Some(element)) => match element.text {
                None => Err(AttributeError::NotText),
                Some(text) => Ok(text),
            },
        }
    }

    /// Replace the value of the element under `tag` by `value`, padded to
    /// even length with the pad character of the element's representation.
    /// An index that holds no such element is left as it is.
    pub fn set_string(&mut self, tag: Tag, value: &str) -> (r: Result<(), AttributeError>)
        ensures
            old(self)@.contains_key(tag) ==> r.is_ok() && final(self)@ == with_text(
                old(self)@,
                tag,
                value@,
            ),
            !old(self)@.contains_key(tag) ==> r == Err::<(), AttributeError>(
                AttributeError::AttributeNotFound,
            ) && final(self)@ == old(self)@,
    {
        match lookup_element(&self.file, tag) {
            None => Err(AttributeError::AttributeNotFound),
            Some(element) => {
                let stored = pad_to_even(value, element.vr);
                store_text(&mut self.file, tag, stored.as_str());
                Ok(())
            },
        }
    }

    /// Take the element under `tag` out of the index. Nothing happens where
    /// the index holds no such element.
    pub fn remove(&mut self, tag: Tag)
        ensures
            final(self)@ == without(old(self)@, tag),
    {
        discard_element(&mut self.file, tag);
    }

    /// The tags of the index, in the order in which its elements are written.
    pub fn tags(&self) -> (r: Vec<Tag>)
        ensures
            ascending(r@),
            forall|tag: Tag| r@.contains(tag) <==> self@.contains_key(tag),
    {
        list_tags(&self.file)
    }

    /// Encode the index as a byte stream in explicit VR little endian.
    pub fn write(&self) -> (r: Option<Vec<u8>>)
        ensures
            match r {
                Some(bytes) => self.image() == Some(bytes@),
                None => self.image().is_none(),
            },
    {
        encode_file(&self.file)
    }
}

} // verus!
