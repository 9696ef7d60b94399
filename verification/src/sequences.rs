//! Facts about sequences that the laws of the other modules rest on.

use vstd::prelude::*;

verus! {

/// An element of a concatenation lies in one of the parts, and the other way round.
pub proof fn lemma_flatten_contains<A>(parts: Seq<Seq<A>>, x: A)
    ensures
        parts.flatten().contains(x) <==> exists|i: int|
            0 <= i < parts.len() && (#[trigger] parts[i]).contains(x),
    decreases parts.len(),
{
    if parts.len() > 0 {
        let front = parts.drop_last();
        let last = parts.last();
        assert(parts =~= front.push(last));
        front.lemma_flatten_push(last);
        lemma_flatten_contains(front, x);
        let whole = front.flatten() + last;
        if whole.contains(x) {
            let k = choose|k: int| 0 <= k < whole.len() && whole[k] == x;
            if k < front.flatten().len() {
                assert(front.flatten().contains(x));
                let i = choose|i: int| 0 <= i < front.len() && (#[trigger] front[i]).contains(x);
                assert(parts[i].contains(x));
            } else {
                assert(last[k - front.flatten().len()] == x);
                assert(parts[parts.len() - 1].contains(x));
            }
        }
        if exists|i: int| 0 <= i < parts.len() && (#[trigger] parts[i]).contains(x) {
            let i = choose|i: int| 0 <= i < parts.len() && (#[trigger] parts[i]).contains(x);
            if i < front.len() {
                assert(front[i].contains(x));
                let k = choose|k: int| 0 <= k < front.flatten().len() && front.flatten()[k] == x;
                assert(whole[k] == x);
            } else {
                let k = choose|k: int| 0 <= k < last.len() && last[k] == x;
                assert(whole[front.flatten().len() + k] == x);
            }
        }
    }
}

/// Mapping and filtering in one go distributes over concatenation.
pub proof fn lemma_filter_map_add<A, B>(a: Seq<A>, b: Seq<A>, f: spec_fn(A) -> Option<B>)
    ensures
        (a + b).filter_map(f) == a.filter_map(f) + b.filter_map(f),
    decreases b.len(),
{
    if b.len() == 0 {
        assert(a + b =~= a);
    } else {
        let front = b.drop_last();
        lemma_filter_map_add(a, front, f);
        assert((a + b).drop_last() =~= a + front);
        match f(b.last()) {
            Some(x) => {
                assert((a.filter_map(f) + front.filter_map(f)) + seq![x] =~= a.filter_map(f) + (
                front.filter_map(f) + seq![x]));
            },
            None => {},
        }
    }
}

/// Where `f` gives nothing for any element, nothing is left.
pub proof fn lemma_filter_map_none<A, B>(s: Seq<A>, f: spec_fn(A) -> Option<B>)
    requires
        forall|i: int| 0 <= i < s.len() ==> f(#[trigger] s[i]) is None,
    ensures
        s.filter_map(f) == Seq::<B>::empty(),
    decreases s.len(),
{
    if s.len() > 0 {
        let front = s.drop_last();
        assert forall|i: int| 0 <= i < front.len() implies f(#[trigger] front[i]) is None by {
            assert(front[i] == s[i]);
        }
        lemma_filter_map_none(front, f);
        assert(f(s.last()) is None);
    }
}

/// Filtering first changes nothing where `f` gives nothing for what the filter drops.
pub proof fn lemma_filter_then_filter_map<A, B>(
    s: Seq<A>,
    keep: spec_fn(A) -> bool,
    f: spec_fn(A) -> Option<B>,
)
    requires
        forall|i: int| 0 <= i < s.len() && !keep(#[trigger] s[i]) ==> f(s[i]) is None,
    ensures
        s.filter(keep).filter_map(f) == s.filter_map(f),
    decreases s.len(),
{
    if s.len() == 0 {
        assert(s.filter(keep) =~= s) by {
            reveal(Seq::filter);
        }
    } else {
        let front = s.drop_last();
        let last = s.last();
        assert forall|i: int| 0 <= i < front.len() && !keep(#[trigger] front[i]) implies f(
            front[i],
        ) is None by {
            assert(front[i] == s[i]);
        }
        lemma_filter_then_filter_map(front, keep, f);
        assert(s =~= front.push(last));
        front.lemma_filter_push(last, keep);
        if keep(last) {
            assert(front.filter(keep).push(last).drop_last() =~= front.filter(keep));
        }
    }
}

/// Where `f` after `g` always gives what `h` gives, mapping by `g` and then mapping and
/// filtering by `f` is mapping by `h`.
pub proof fn lemma_map_filter_map<A, B, C>(
    s: Seq<A>,
    g: spec_fn(A) -> B,
    f: spec_fn(B) -> Option<C>,
    h: spec_fn(A) -> C,
)
    requires
        forall|i: int| 0 <= i < s.len() ==> f(g(#[trigger] s[i])) == Some(h(s[i])),
    ensures
        s.map_values(g).filter_map(f) == s.map_values(h),
    decreases s.len(),
{
    if s.len() > 0 {
        let front = s.drop_last();
        assert forall|i: int| 0 <= i < front.len() implies f(g(#[trigger] front[i])) == Some(
            h(front[i]),
        ) by {
            assert(front[i] == s[i]);
        }
        lemma_map_filter_map(front, g, f, h);
        assert(s.map_values(g).drop_last() =~= front.map_values(g));
        assert(s.map_values(g).last() == g(s.last()));
    }
}

} // verus!
