//! Selection of records by type tag.

use crate::text::str_eq;
use crate::text::views;
use vstd::prelude::*;

verus! {

/// A tag passes when it is not excluded and, where anything is included at all, is among it.
pub open spec fn spec_passes(
    tag: Seq<char>,
    included: Seq<Seq<char>>,
    excluded: Seq<Seq<char>>,
) -> bool {
    !excluded.contains(tag) && (included.len() == 0 || included.contains(tag))
}

/// Whether `item` is one of `list`.
pub fn contains(list: &[String], item: &str) -> (r: bool)
    ensures
        r == views(list@).contains(item@),
{
    let mut i: usize = 0;
    while i < list.len()
        invariant
            i <= list.len(),
            forall|j: int| 0 <= j < i ==> views(list@)[j] != item@,
        decreases list.len() - i,
    {
        if str_eq(list[i].as_str(), item) {
            assert(views(list@)[i as int] == item@);
            return true;
        }
        i += 1;
    }
    false
}

/// Whether a record with type tag `tag` is kept under the two tag lists.
pub fn passes(tag: &str, included: &[String], excluded: &[String]) -> (r: bool)
    ensures
        r == spec_passes(tag@, views(included@), views(excluded@)),
{
    if contains(excluded, tag) {
        return false;
    }
    if included.len() != 0 && !contains(included, tag) {
        return false;
    }
    true
}

/// Exclusion wins: an excluded tag passes whatever is included.
pub proof fn lemma_exclusion_wins(tag: Seq<char>, included: Seq<Seq<char>>, excluded: Seq<Seq<char>>)
    requires
        excluded.contains(tag),
    ensures
        !spec_passes(tag, included, excluded),
{
}

/// With nothing included there is no restriction: exactly the tags that are not excluded pass.
pub proof fn lemma_nothing_included(tag: Seq<char>, excluded: Seq<Seq<char>>)
    ensures
        spec_passes(tag, Seq::empty(), excluded) == !excluded.contains(tag),
{
}

/// With nothing excluded and nothing included, every tag passes.
pub proof fn lemma_no_filter(tag: Seq<char>)
    ensures
        spec_passes(tag, Seq::empty(), Seq::empty()),
{
}

/// The order of the tags within a list, and their repetition, do not matter.
pub proof fn lemma_lists_are_sets(
    tag: Seq<char>,
    included: Seq<Seq<char>>,
    excluded: Seq<Seq<char>>,
    included2: Seq<Seq<char>>,
    excluded2: Seq<Seq<char>>,
)
    requires
        included.to_set() == included2.to_set(),
        excluded.to_set() == excluded2.to_set(),
    ensures
        spec_passes(tag, included, excluded) == spec_passes(tag, included2, excluded2),
{
    assert(excluded.contains(tag) == excluded.to_set().contains(tag));
    assert(included.contains(tag) == included.to_set().contains(tag));
    if included.len() == 0 {
        if included2.len() > 0 {
            assert(included2.to_set().contains(included2[0]));
        }
    } else if included2.len() == 0 {
        assert(included.to_set().contains(included[0]));
    }
}

/// A tag that differs from `other` passes or fails the same whether or not `other` is
/// listed: a listed tag that no record carries changes nothing.
pub proof fn lemma_foreign_tag_never_matches(
    tag: Seq<char>,
    other: Seq<char>,
    included: Seq<Seq<char>>,
    excluded: Seq<Seq<char>>,
)
    requires
        tag != other,
    ensures
        spec_passes(tag, included, excluded.push(other)) == spec_passes(tag, included, excluded),
        included.len() > 0 ==> spec_passes(tag, included.push(other), excluded) == spec_passes(
            tag,
            included,
            excluded,
        ),
{
    lemma_push_contains(excluded, other, tag);
    lemma_push_contains(included, other, tag);
}

proof fn lemma_push_contains(s: Seq<Seq<char>>, x: Seq<char>, y: Seq<char>)
    ensures
        s.push(x).contains(y) == (s.contains(y) || x == y),
{
    if s.contains(y) {
        let i = choose|i: int| 0 <= i < s.len() && s[i] == y;
        assert(s.push(x)[i] == y);
    }
    if x == y {
        assert(s.push(x)[s.len() as int] == y);
    }
}

} // verus!
