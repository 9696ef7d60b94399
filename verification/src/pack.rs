//! The pack: from the records read back from text to a container that opens with its header.

use crate::dump::FileName;
use crate::error::Error;
use crate::format::script_extension;
use crate::format::spec_script_extension;
use crate::record::Record;
use crate::record::RecordKind;
use crate::text::str_eq;
use vstd::prelude::*;

verus! {

/// A file of a dump holds a record unless it carries the script extension: a script
/// body is plain text in no encoding.
pub open spec fn spec_holds_record(name: FileName) -> bool {
    match name.extension {
        Some(e) => e@ != spec_script_extension(),
        None => true,
    }
}

/// Whether the file named `name` is to be read back as a record.
pub fn holds_record(name: &FileName) -> (r: bool)
    ensures
        r == spec_holds_record(*name),
{
    match &name.extension {
        Some(e) => !str_eq(e.as_str(), script_extension()),
        None => true,
    }
}

/// Some record of `records` is a header.
pub open spec fn has_header<T>(records: Seq<Record<T>>) -> bool {
    exists|i: int| 0 <= i < records.len() && (#[trigger] records[i]).kind == RecordKind::Header
}

/// `p` is the position of the first header of `records`.
pub open spec fn is_first_header<T>(records: Seq<Record<T>>, p: int) -> bool {
    &&& 0 <= p < records.len()
    &&& records[p].kind == RecordKind::Header
    &&& forall|j: int| 0 <= j < p ==> (#[trigger] records[j]).kind != RecordKind::Header
}

/// The position of the first header of `records`, where there is one.
pub open spec fn first_header<T>(records: Seq<Record<T>>) -> int {
    choose|p: int| is_first_header(records, p)
}

/// `records` with the record at `p` moved to the front, the others keeping their order.
pub open spec fn moved_to_front<T>(records: Seq<Record<T>>, p: int) -> Seq<Record<T>> {
    seq![records[p]] + records.remove(p)
}

/// A container is well formed when it opens with a header and holds no other header.
pub open spec fn spec_well_formed<T>(records: Seq<Record<T>>) -> bool {
    &&& records.len() > 0
    &&& records[0].kind == RecordKind::Header
    &&& forall|j: int| 0 < j < records.len() ==> (#[trigger] records[j]).kind != RecordKind::Header
}

/// The records that were read, in order, without the gaps left by files that gave none.
pub open spec fn present<T>(parsed: Seq<Option<Record<T>>>) -> Seq<Record<T>> {
    parsed.filter(|o: Option<Record<T>>| o is Some).map_values(|o: Option<Record<T>>| o->Some_0)
}

/// The container packed from what the files gave.
///
/// A file that gave no record is an error unless an incomplete container is allowed. A
/// container without a header is an error. Otherwise the result holds the records that
/// were read, the first header moved to the front.
pub open spec fn spec_pack<T>(parsed: Seq<Option<Record<T>>>, allow_incomplete: bool) -> Result<
    Seq<Record<T>>,
    Error,
> {
    let records = present(parsed);
    if !allow_incomplete && exists|i: int| 0 <= i < parsed.len() && #[trigger] parsed[i] is None {
        Err(Error::Incomplete)
    } else if !has_header(records) {
        Err(Error::MissingHeader)
    } else {
        Ok(moved_to_front(records, first_header(records)))
    }
}

/// The result of `pack` as a view.
pub open spec fn pack_view<T>(r: Result<Vec<Record<T>>, Error>) -> Result<Seq<Record<T>>, Error> {
    match r {
        Ok(v) => Ok(v@),
        Err(e) => Err(e),
    }
}

/// At most one position is that of the first header.
pub proof fn lemma_first_header_unique<T>(records: Seq<Record<T>>, p: int, q: int)
    requires
        is_first_header(records, p),
        is_first_header(records, q),
    ensures
        p == q,
{
}

/// The position of the first header, if any record is one.
pub fn header_position<T>(records: &Vec<Record<T>>) -> (r: Option<usize>)
    ensures
        match r {
            Some(p) => is_first_header(records@, p as int) && p == first_header(records@),
            None => !has_header(records@),
        },
{
    let mut i: usize = 0;
    while i < records.len()
        invariant
            i <= records.len(),
            forall|j: int| 0 <= j < i ==> (#[trigger] records@[j]).kind != RecordKind::Header,
        decreases records.len() - i,
    {
        if matches!(records[i].kind, RecordKind::Header) {
            proof {
                assert(is_first_header(records@, i as int));
                lemma_first_header_unique(records@, i as int, first_header(records@));
            }
            return Some(i);
        }
        i += 1;
    }
    None
}

/// Whether the container opens with a header and holds no other header.
pub fn well_formed<T>(records: &Vec<Record<T>>) -> (r: bool)
    ensures
        r == spec_well_formed(records@),
{
    if records.len() == 0 {
        return false;
    }
    if !matches!(records[0].kind, RecordKind::Header) {
        return false;
    }
    let mut i: usize = 1;
    while i < records.len()
        invariant
            1 <= i <= records.len(),
            forall|j: int| 0 < j < i ==> (#[trigger] records@[j]).kind != RecordKind::Header,
        decreases records.len() - i,
    {
        if matches!(records[i].kind, RecordKind::Header) {
            return false;
        }
        i += 1;
    }
    true
}

/// The records that were read, in order, and whether every file gave one.
pub fn take_present<T>(parsed: Vec<Option<Record<T>>>) -> (r: (Vec<Record<T>>, bool))
    ensures
        r.0@ == present(parsed@),
        r.1 == forall|i: int| 0 <= i < parsed.len() ==> #[trigger] parsed[i] is Some,
{
    let ghost all = parsed@;
    let ghost some = |o: Option<Record<T>>| o is Some;
    let ghost inner = |o: Option<Record<T>>| o->Some_0;
    let mut out: Vec<Record<T>> = Vec::new();
    let mut complete = true;
    for item in it: parsed
        invariant
            it.seq() == all,
            some == |o: Option<Record<T>>| o is Some,
            inner == |o: Option<Record<T>>| o->Some_0,
            out@ == all.take(it.index()).filter(some).map_values(inner),
            complete == forall|i: int| 0 <= i < it.index() ==> #[trigger] all[i] is Some,
    {
        proof {
            let done = all.take(it.index());
            assert(all.take(it.index() + 1) == done.push(item));
            done.lemma_filter_push(item, some);
        }
        match item {
            Some(record) => {
                assert(all.take(it.index() + 1).filter(some).map_values(inner) =~= out@.push(
                    record,
                ));
                out.push(record);
            },
            None => {
                complete = false;
            },
        }
    }
    assert(all.take(all.len() as int) == all);
    (out, complete)
}

/// Packs what the files gave into a container that opens with its header.
pub fn pack<T>(parsed: Vec<Option<Record<T>>>, allow_incomplete: bool) -> (r: Result<
    Vec<Record<T>>,
    Error,
>)
    ensures
        pack_view(r) == spec_pack(parsed@, allow_incomplete),
        r matches Ok(out) ==> out@.len() > 0 && out@[0].kind == RecordKind::Header,
{
    let (mut records, complete) = take_present(parsed);
    if !allow_incomplete && !complete {
        return Err(Error::Incomplete);
    }
    match header_position(&records) {
        None => Err(Error::MissingHeader),
        Some(p) => {
            let ghost before = records@;
            let header = records.remove(p);
            records.insert(0, header);
            assert(records@ =~= moved_to_front(before, p as int));
            Ok(records)
        },
    }
}

/// Moving the first header to the front gives a container that opens with a header, holds
/// the same records as before, and keeps the other records in their order. A container
/// that already opens with its header is left as it is.
pub proof fn lemma_header_first<T>(records: Seq<Record<T>>, p: int)
    requires
        is_first_header(records, p),
    ensures
        moved_to_front(records, p)[0].kind == RecordKind::Header,
        moved_to_front(records, p).len() == records.len(),
        moved_to_front(records, p).to_multiset() == records.to_multiset(),
        moved_to_front(records, p).skip(1) == records.remove(p),
        p == 0 ==> moved_to_front(records, p) == records,
{
    let out = moved_to_front(records, p);
    assert(out =~= records.remove(p).insert(0, records[p]));
    assert(out.to_multiset() =~= records.to_multiset()) by {
        broadcast use vstd::multiset::group_multiset_axioms;

        vstd::seq_lib::to_multiset_remove(records, p);
        vstd::seq_lib::to_multiset_insert(records.remove(p), 0, records[p]);
        vstd::seq_lib::to_multiset_contains(records, records[p]);
    }
}

/// Where exactly one record is a header, moving it to the front gives a well-formed
/// container; a well-formed container is left as it is, so packing twice is packing once.
pub proof fn lemma_pack_well_formed<T>(records: Seq<Record<T>>, p: int)
    requires
        is_first_header(records, p),
    ensures
        (forall|j: int|
            0 <= j < records.len() && j != p ==> (#[trigger] records[j]).kind
                != RecordKind::Header) ==> spec_well_formed(moved_to_front(records, p)),
        is_first_header(moved_to_front(records, p), 0),
        moved_to_front(moved_to_front(records, p), 0) == moved_to_front(records, p),
        spec_well_formed(records) ==> p == 0,
{
    let out = moved_to_front(records, p);
    if forall|j: int|
        0 <= j < records.len() && j != p ==> (#[trigger] records[j]).kind != RecordKind::Header {
        assert forall|j: int| 0 < j < out.len() implies (#[trigger] out[j]).kind
            != RecordKind::Header by {
            assert(out[j] == if j - 1 < p {
                records[j - 1]
            } else {
                records[j]
            });
        }
    }
}

} // verus!
