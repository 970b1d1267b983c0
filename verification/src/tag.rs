use vstd::prelude::*;

verus! {

/// The numeric identifier of a data element: a group and an element number.
#[derive(Clone, Copy, Debug, PartialEq, Eq, Structural)]
pub struct Tag {
    pub group: u16,
    pub element: u16,
}

impl Tag {
    /// Whether `self` stands strictly before `other` in the order of tags: by
    /// group first, then by element number.
    pub open spec fn before(self, other: Tag) -> bool {
        self.group < other.group || (self.group == other.group && self.element < other.element)
    }

    pub fn new(group: u16, element: u16) -> (tag: Tag)
        ensures
            tag.group == group,
            tag.element == element,
    {
        Tag { group, element }
    }

    /// Decide whether `self` stands strictly before `other`.
    pub fn precedes(&self, other: &Tag) -> (r: bool)
        ensures
            r == self.before(*other),
    {
        self.group < other.group || (self.group == other.group && self.element < other.element)
    }
}

/// Whether the tags stand in strictly ascending order, which leaves no room
/// for a tag to occur twice.
pub open spec fn ascending(tags: Seq<Tag>) -> bool {
    forall|i: int, j: int| 0 <= i < j < tags.len() ==> tags[i].before(tags[j])
}

/// Tags in ascending order are listed in one way only: two ascending lists
/// of the same tags are the same list.
pub proof fn lemma_ascending_is_unique(a: Seq<Tag>, b: Seq<Tag>)
    requires
        ascending(a),
        ascending(b),
        forall|tag: Tag| a.contains(tag) <==> b.contains(tag),
    ensures
        a == b,
    decreases a.len(),
{
    if a.len() == 0 {
        if b.len() > 0 {
            assert(b.contains(b[0]));
        }
        assert(a =~= b);
    } else if b.len() == 0 {
        assert(a.contains(a[0]));
    } else {
        assert(a.contains(a[0]));
        assert(b.contains(b[0]));
        let j = choose|j: int| 0 <= j < b.len() && b[j] == a[0];
        let i = choose|i: int| 0 <= i < a.len() && a[i] == b[0];
        if j > 0 {
            assert(b[0].before(b[j]));
            if i > 0 {
                assert(a[0].before(a[i]));
            }
        }
        assert(a[0] == b[0]);
        let rest_a = a.drop_first();
        let rest_b = b.drop_first();
        assert forall|tag: Tag| rest_a.contains(tag) <==> rest_b.contains(tag) by {
            if rest_a.contains(tag) {
                let k = choose|k: int| 0 <= k < rest_a.len() && rest_a[k] == tag;
                assert(a[k + 1] == tag);
                assert(a[0].before(a[k + 1]));
                assert(a.contains(tag));
                let m = choose|m: int| 0 <= m < b.len() && b[m] == tag;
                assert(m > 0);
                assert(rest_b[m - 1] == tag);
            }
            if rest_b.contains(tag) {
                let k = choose|k: int| 0 <= k < rest_b.len() && rest_b[k] == tag;
                assert(b[k + 1] == tag);
                assert(b[0].before(b[k + 1]));
                assert(b.contains(tag));
                let m = choose|m: int| 0 <= m < a.len() && a[m] == tag;
                assert(m > 0);
                assert(rest_a[m - 1] == tag);
            }
        }
        assert(ascending(rest_a)) by {
            assert forall|x: int, y: int| 0 <= x < y < rest_a.len() implies rest_a[x].before(
                rest_a[y],
            ) by {
                assert(a[x + 1].before(a[y + 1]));
            }
        }
        assert(ascending(rest_b)) by {
            assert forall|x: int, y: int| 0 <= x < y < rest_b.len() implies rest_b[x].before(
                rest_b[y],
            ) by {
                assert(b[x + 1].before(b[y + 1]));
            }
        }
        lemma_ascending_is_unique(rest_a, rest_b);
        assert(a =~= seq![a[0]] + rest_a);
        assert(b =~= seq![b[0]] + rest_b);
    }
}

} // verus!
