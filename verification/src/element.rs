use vstd::prelude::*;
use crate::tag::Tag;
use crate::vr::{lemma_padded_even, lemma_padded_reads_back, padded, stored_len, trimmed, Vr};

verus! {

/// What the index holds for one tag, as contracts see it: the element's value
/// representation, its value as it is stored, and its value read as text,
/// which leaves the trailing pad out. Both are `None` for an element whose
/// value is nested data (a sequence of items, or encapsulated fragments),
/// which has no form as text.
pub struct ElementView {
    pub vr: Vr,
    pub stored: Option<Seq<char>>,
    pub text: Option<Seq<char>>,
}

/// One data element as handed out by the index.
#[derive(Clone, Debug, PartialEq, Eq)]
pub struct Element {
    pub tag: Tag,
    pub vr: Vr,
    pub stored: Option<String>,
    pub text: Option<String>,
}

impl View for Element {
    type V = ElementView;

    open spec fn view(&self) -> ElementView {
        ElementView {
            vr: self.vr,
            stored: match self.stored {
                Some(stored) => Some(stored@),
                None => None,
            },
            text: match self.text {
                Some(text) => Some(text@),
                None => None,
            },
        }
    }
}

/// The element that takes the place of one of representation `vr` when the
/// string `held` is put in it as it is: the representation stays, the string
/// is what is stored, and it reads back without its trailing pad. The one
/// exception is an empty string put in a sequence element, which leaves an
/// empty sequence and so no text at all.
pub open spec fn element_holding(vr: Vr, held: Seq<char>) -> ElementView {
    if vr.is_sequence() && held.len() == 0 {
        ElementView { vr, stored: None, text: None }
    } else {
        ElementView { vr, stored: Some(held), text: Some(trimmed(held)) }
    }
}

/// The element that takes the place of one of representation `vr` when
/// `value` is set: what is stored is `value` brought to even length with the
/// pad character of the representation.
pub open spec fn element_set_to(vr: Vr, value: Seq<char>) -> ElementView {
    element_holding(vr, padded(value, vr.pad()))
}

/// Setting a value stores it at even length and changes nothing for a
/// reader: the element holds the value with at most one pad behind it, and
/// reads back as the value without its trailing pad. Only an empty value set
/// in a sequence element leaves nothing to read.
pub proof fn lemma_set_stores_even_and_reads_back(vr: Vr, value: Seq<char>)
    ensures
        match element_set_to(vr, value).stored {
            Some(held) => {
                &&& stored_len(held) % 2 == 0
                &&& held == value || held == value.push(vr.pad())
                &&& element_set_to(vr, value).text == Some(trimmed(value))
            },
            None => vr.is_sequence() && value.len() == 0 && element_set_to(vr, value).text.is_none(),
        },
        element_set_to(vr, value).vr == vr,
{
    lemma_padded_even(value, vr.pad());
    lemma_padded_reads_back(value, vr.pad());
    if value.len() == 0 {
        assert(vstd::utf8::encode_utf8(value).len() == 0);
    }
}

} // verus!
