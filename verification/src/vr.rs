use vstd::prelude::*;
use vstd::string::*;
use vstd::utf8::*;

verus! {

/// The value representation of a data element: its two-letter code.
#[derive(Clone, Copy, Debug, PartialEq, Eq, Structural)]
pub struct Vr {
    pub first: u8,
    pub second: u8,
}

/// Whether the two letters name one of the character-string representations
/// whose values are padded with a space: AE, AS, CS, DA, DS, DT, IS, LO, LT,
/// PN, SH, ST, TM, UC, UR and UT.
pub open spec fn text_code(first: u8, second: u8) -> bool {
    ||| first == 0x41 && (second == 0x45 || second == 0x53)
    ||| first == 0x43 && second == 0x53
    ||| first == 0x44 && (second == 0x41 || second == 0x53 || second == 0x54)
    ||| first == 0x49 && second == 0x53
    ||| first == 0x4C && (second == 0x4F || second == 0x54)
    ||| first == 0x50 && second == 0x4E
    ||| first == 0x53 && (second == 0x48 || second == 0x54)
    ||| first == 0x54 && second == 0x4D
    ||| first == 0x55 && (second == 0x43 || second == 0x52 || second == 0x54)
}

impl Vr {
    /// Whether values of this representation are text padded with a space.
    pub open spec fn is_text(self) -> bool {
        text_code(self.first, self.second)
    }

    /// Whether this is the representation of a sequence of items, SQ.
    pub open spec fn is_sequence(self) -> bool {
        self.first == 0x53 && self.second == 0x51
    }

    /// The character that brings a value of this representation to even
    /// length: a space for text, a null for everything else.
    pub open spec fn pad(self) -> char {
        if self.is_text() {
            ' '
        } else {
            '\0'
        }
    }

    pub fn new(first: u8, second: u8) -> (vr: Vr)
        ensures
            vr.first == first,
            vr.second == second,
    {
        Vr { first, second }
    }

    /// Decide whether values of this representation are space-padded text.
    pub fn text(&self) -> (r: bool)
        ensures
            r == self.is_text(),
    {
        let a: u8 = self.first;
        let b: u8 = self.second;
        (a == 0x41 && (b == 0x45 || b == 0x53)) || (a == 0x43 && b == 0x53) || (a == 0x44 && (b
            == 0x41 || b == 0x53 || b == 0x54)) || (a == 0x49 && b == 0x53) || (a == 0x4C && (b
            == 0x4F || b == 0x54)) || (a == 0x50 && b == 0x4E) || (a == 0x53 && (b == 0x48 || b
            == 0x54)) || (a == 0x54 && b == 0x4D) || (a == 0x55 && (b == 0x43 || b == 0x52 || b
            == 0x54))
    }

    /// The pad character of this representation.
    pub fn pad_char(&self) -> (c: char)
        ensures
            c == self.pad(),
    {
        if self.text() {
            ' '
        } else {
            '\0'
        }
    }
}

/// Whether `c` is one of the two pad characters.
pub open spec fn is_pad(c: char) -> bool {
    c == ' ' || c == '\0'
}

/// A stored value read as text: the value without its trailing pad
/// characters.
pub open spec fn trimmed(value: Seq<char>) -> Seq<char>
    decreases value.len(),
{
    if value.len() > 0 && is_pad(value.last()) {
        trimmed(value.drop_last())
    } else {
        value
    }
}

/// The number of bytes that `value` takes when it is stored.
pub open spec fn stored_len(value: Seq<char>) -> nat {
    encode_utf8(value).len()
}

/// `value` brought to an even stored length: unchanged where its length is
/// even already, followed by one `pad` otherwise.
pub open spec fn padded(value: Seq<char>, pad: char) -> Seq<char> {
    if stored_len(value) % 2 == 1 {
        value.push(pad)
    } else {
        value
    }
}

/// Appending a pad character adds exactly one byte to the stored value.
pub proof fn lemma_stored_len_push(value: Seq<char>, pad: char)
    requires
        is_pad(pad),
    ensures
        stored_len(value.push(pad)) == stored_len(value) + 1,
    decreases value.len(),
{
    if value.len() == 0 {
        assert(value.push(pad).drop_first() =~= Seq::<char>::empty());
        assert(encode_utf8(value.push(pad).drop_first()) =~= Seq::<u8>::empty());
        assert(encode_scalar(pad as u32).len() == 1);
        assert(encode_utf8(value) =~= Seq::<u8>::empty());
    } else {
        assert(value.push(pad).drop_first() =~= value.drop_first().push(pad));
        assert(value.push(pad)[0] == value[0]);
        lemma_stored_len_push(value.drop_first(), pad);
    }
}

/// A padded value always has an even stored length.
pub proof fn lemma_padded_even(value: Seq<char>, pad: char)
    requires
        is_pad(pad),
    ensures
        stored_len(padded(value, pad)) % 2 == 0,
{
    lemma_stored_len_push(value, pad);
}

/// Padding is invisible to a reader: a padded value reads back as the same
/// text as the value it was made from.
pub proof fn lemma_padded_reads_back(value: Seq<char>, pad: char)
    requires
        is_pad(pad),
    ensures
        trimmed(padded(value, pad)) == trimmed(value),
{
    if stored_len(value) % 2 == 1 {
        let longer = value.push(pad);
        assert(longer.last() == pad);
        assert(longer.drop_last() =~= value);
    }
}

/// What was read as text carries no pad at its end, so trimming twice is
/// trimming once.
pub proof fn lemma_trimmed_is_clean(value: Seq<char>)
    ensures
        trimmed(value).len() > 0 ==> !is_pad(trimmed(value).last()),
        trimmed(trimmed(value)) == trimmed(value),
        trimmed(value).len() <= value.len(),
    decreases value.len(),
{
    if value.len() > 0 && is_pad(value.last()) {
        lemma_trimmed_is_clean(value.drop_last());
    }
}

/// Bring `value` to an even stored length for an element of representation
/// `vr`, by appending the representation's pad character where needed.
pub fn pad_to_even(value: &str, vr: Vr) -> (stored: String)
    ensures
        stored@ == padded(value@, vr.pad()),
        stored_len(stored@) % 2 == 0,
        trimmed(stored@) == trimmed(value@),
{
    let mut stored = String::from_str(value);
    proof {
        lemma_padded_even(value@, vr.pad());
        lemma_padded_reads_back(value@, vr.pad());
    }
    let len: usize = value.as_bytes().len();
    if len % 2 == 1 {
        if vr.text() {
            proof {
                reveal_strlit(" ");
                assert(" "@ =~= seq![' ']);
                assert(value@ + " "@ =~= value@.push(' '));
            }
            stored.append(" ");
        } else {
            proof {
                reveal_strlit("\0");
                assert("\0"@ =~= seq!['\0']);
                assert(value@ + "\0"@ =~= value@.push('\0'));
            }
            stored.append("\0");
        }
    }
    stored
}

} // verus!
