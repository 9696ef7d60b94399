//! The load order of imported plugins: oldest first.

use vstd::prelude::*;

verus! {

/// A plugin file with the time it was last modified, counted from a fixed instant.
#[derive(Debug, Clone, PartialEq, Eq)]
pub struct DatedFile {
    pub name: String,
    pub modified: u64,
}

/// No file of `s` is older than a file before it.
pub open spec fn sorted_by_time(s: Seq<DatedFile>) -> bool {
    forall|i: int, j: int| 0 <= i <= j < s.len() ==> s[i].modified <= s[j].modified
}

/// The files last modified at `time`.
pub open spec fn modified_at(time: u64) -> spec_fn(DatedFile) -> bool {
    |f: DatedFile| f.modified == time
}

/// `sorted` holds the files of `files`, oldest first, and files of the same age stand in
/// the order they have in `files`.
pub open spec fn is_stable_sort(sorted: Seq<DatedFile>, files: Seq<DatedFile>) -> bool {
    &&& sorted_by_time(sorted)
    &&& forall|time: u64| #[trigger]
        sorted.filter(modified_at(time)) == files.filter(modified_at(time))
}

/// Inserting `file` behind every file that is not younger keeps the order, and among the
/// files of its own age puts it last.
proof fn lemma_insert_keeps_order(out: Seq<DatedFile>, p: int, file: DatedFile, time: u64)
    requires
        sorted_by_time(out),
        0 <= p <= out.len(),
        forall|j: int| 0 <= j < p ==> out[j].modified <= file.modified,
        forall|j: int| p <= j < out.len() ==> out[j].modified > file.modified,
    ensures
        sorted_by_time(out.insert(p, file)),
        out.insert(p, file).filter(modified_at(time)) == if file.modified == time {
            out.filter(modified_at(time)).push(file)
        } else {
            out.filter(modified_at(time))
        },
{
    let pred = modified_at(time);
    let front = out.take(p);
    let back = out.skip(p);
    assert(out =~= front + back);
    Seq::filter_distributes_over_add(front, back, pred);
    Seq::filter_distributes_over_add(front.push(file), back, pred);
    front.lemma_filter_push(file, pred);
    if file.modified == time {
        back.lemma_all_neg_filter_empty(pred);
        assert(front.filter(pred).push(file) + back.filter(pred) =~= front.filter(pred).push(
            file,
        ));
    }
}

/// The files ordered by the time of their last modification, oldest first; files of the
/// same age keep their order.
pub fn sort_by_modified(files: Vec<DatedFile>) -> (r: Vec<DatedFile>)
    ensures
        is_stable_sort(r@, files@),
        r@.to_multiset() == files@.to_multiset(),
        r@.len() == files@.len(),
{
    let ghost all = files@;
    let mut out: Vec<DatedFile> = Vec::new();
    assert(all.take(0) =~= out@);
    for file in it: files
        invariant
            it.seq() == all,
            is_stable_sort(out@, all.take(it.index())),
            out@.to_multiset() == all.take(it.index()).to_multiset(),
            out@.len() == it.index(),
    {
        let ghost done = all.take(it.index());
        let ghost before = out@;
        let mut p: usize = out.len();
        while p > 0 && out[p - 1].modified > file.modified
            invariant
                p <= out.len(),
                out@ == before,
                sorted_by_time(before),
                forall|j: int| p <= j < out.len() ==> out@[j].modified > file.modified,
            decreases p,
        {
            p -= 1;
        }
        proof {
            assert(all.take(it.index() + 1) == done.push(file));
            assert forall|time: u64| #[trigger]
                before.insert(p as int, file).filter(modified_at(time)) == done.push(file).filter(
                    modified_at(time),
                ) by {
                lemma_insert_keeps_order(before, p as int, file, time);
                done.lemma_filter_push(file, modified_at(time));
            }
            lemma_insert_keeps_order(before, p as int, file, 0);
            vstd::seq_lib::to_multiset_insert(before, p as int, file);
            vstd::seq_lib::to_multiset_build(done, file);
        }
        out.insert(p, file);
    }
    assert(all.take(all.len() as int) == all);
    out
}

} // verus!
