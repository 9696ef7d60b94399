//! Dump and pack together: what was dumped comes back.

use crate::dump::spec_dump_plugin;
use crate::dump::spec_filtered;
use crate::dump::spec_write_object;
use crate::dump::ArtifactView;
use crate::error::Error;
use crate::format::ESerializedType;
use crate::pack::first_header;
use crate::pack::is_first_header;
use crate::pack::lemma_first_header_unique;
use crate::pack::moved_to_front;
use crate::pack::present;
use crate::pack::spec_pack;
use crate::record::Record;
use crate::record::RecordKind;
use crate::record::Routing;
use vstd::prelude::*;

verus! {

/// The files that hold a record in a text encoding.
pub open spec fn is_structured() -> spec_fn(ArtifactView) -> bool {
    |a: ArtifactView| a.content is Structured
}

/// The records of supported variants and the header: those that a dump writes.
pub open spec fn is_written<T>() -> spec_fn(Record<T>) -> bool {
    |r: Record<T>| r.kind.spec_routing() != Routing::Unsupported
}

/// What is read back from the files of a dump when every file in a text encoding yields
/// the record it was written from: those records, in the order of the files.
pub open spec fn read_back<T>(records: Seq<Record<T>>, files: Seq<ArtifactView>) -> Seq<
    Option<Record<T>>,
> {
    files.filter(is_structured()).map_values(|a: ArtifactView| Some(records[a.record]))
}

/// What is read back from the files of the record at `index`.
#[verifier::opaque]
spec fn read_back_one<T>(records: Seq<Record<T>>, index: int, typ: ESerializedType) -> Seq<
    Option<Record<T>>,
> {
    read_back(records, spec_write_object(records[index], index, typ))
}

/// Of the files of one record exactly one holds the record in a text encoding, unless the
/// record is of an unsupported variant and has no file: a written record is read back
/// once, an unsupported one never.
proof fn lemma_read_back_one<T>(records: Seq<Record<T>>, index: int, typ: ESerializedType)
    requires
        0 <= index < records.len(),
    ensures
        read_back_one(records, index, typ) == if is_written()(records[index]) {
            seq![Some(records[index])]
        } else {
            Seq::<Option<Record<T>>>::empty()
        },
{
    reveal(read_back_one);
    let files = spec_write_object(records[index], index, typ);
    let none = Seq::<ArtifactView>::empty();
    assert(none.filter(is_structured()) =~= none) by {
        reveal(Seq::filter);
    }
    if files.len() == 1 {
        none.lemma_filter_push(files[0], is_structured());
    } else if files.len() == 2 {
        assert(files =~= none.push(files[0]).push(files[1]));
        none.lemma_filter_push(files[0], is_structured());
        none.push(files[0]).lemma_filter_push(files[1], is_structured());
    }
}

/// Reading back distributes over the concatenation of file lists.
proof fn lemma_read_back_add<T>(
    records: Seq<Record<T>>,
    before: Seq<ArtifactView>,
    part: Seq<ArtifactView>,
)
    ensures
        read_back(records, before + part) == read_back(records, before) + read_back(records, part),
{
    Seq::filter_distributes_over_add(before, part, is_structured());
    assert(read_back(records, before + part) =~= read_back(records, before) + read_back(
        records,
        part,
    ));
}

/// The unfiltered dump of the first `n` records is that of the first `n - 1`, followed by
/// the files of the record at `n - 1`.
proof fn lemma_dump_step<T>(records: Seq<Record<T>>, typ: ESerializedType, n: int)
    requires
        0 < n <= records.len(),
    ensures
        spec_dump_plugin(records.take(n), Seq::empty(), Seq::empty(), typ) == spec_dump_plugin(
            records.take(n - 1),
            Seq::empty(),
            Seq::empty(),
            typ,
        ) + spec_write_object(records[n - 1], n - 1, typ),
{
    let none = Seq::<Seq<char>>::empty();
    let each = |i: int, r: Record<T>| spec_filtered(r, i, none, none, typ);
    let done = records.take(n - 1);
    let part = spec_filtered(records[n - 1], n - 1, none, none, typ);
    assert(records.take(n).map(each) =~= done.map(each).push(part));
    done.map(each).lemma_flatten_push(part);
}

/// Reading back the files of the first `n` records of an unfiltered dump gives the
/// written ones among those records, in container order.
proof fn lemma_read_back_prefix<T>(records: Seq<Record<T>>, typ: ESerializedType, n: int)
    requires
        0 <= n <= records.len(),
    ensures
        read_back(
            records,
            spec_dump_plugin(records.take(n), Seq::empty(), Seq::empty(), typ),
        ) == records.take(n).filter(is_written()).map_values(|r: Record<T>| Some(r)),
    decreases n,
{
    let some = |r: Record<T>| Some(r);
    if n == 0 {
        lemma_empty_dump(records, typ);
    } else {
        lemma_read_back_prefix(records, typ, n - 1);
        let record = records[n - 1];
        let done = records.take(n - 1);
        let before = spec_dump_plugin(done, Seq::empty(), Seq::empty(), typ);
        let kept = done.filter(is_written());
        lemma_dump_step(records, typ, n);
        lemma_read_back_add(records, before, spec_write_object(record, n - 1, typ));
        assert(read_back(records, spec_write_object(record, n - 1, typ)) == read_back_one(
            records,
            n - 1,
            typ,
        )) by {
            reveal(read_back_one);
        }
        lemma_read_back_one(records, n - 1, typ);
        assert(records.take(n) =~= done.push(record));
        done.lemma_filter_push(record, is_written());
        if is_written()(record) {
            assert(kept.push(record).map_values(some) =~= kept.map_values(some) + seq![
                Some(record),
            ]);
        } else {
            assert(kept.map_values(some) + Seq::<Option<Record<T>>>::empty() =~= kept.map_values(
                some,
            ));
        }
    }
}

/// The dump of no record holds no file, and nothing is read back from it.
proof fn lemma_empty_dump<T>(records: Seq<Record<T>>, typ: ESerializedType)
    ensures
        read_back(
            records,
            spec_dump_plugin(records.take(0), Seq::empty(), Seq::empty(), typ),
        ) == records.take(0).filter(is_written()).map_values(|r: Record<T>| Some(r)),
{
    let none = Seq::<Seq<char>>::empty();
    let each = |i: int, r: Record<T>| spec_filtered(r, i, none, none, typ);
    let some = |r: Record<T>| Some(r);
    assert(Seq::<ArtifactView>::empty().filter(is_structured()) =~= Seq::empty()) by {
        reveal(Seq::filter);
    }
    assert(records.take(0).filter(is_written()) =~= Seq::empty()) by {
        reveal(Seq::filter);
    }
    assert(read_back(records, records.take(0).map(each).flatten()) =~= records.take(0).filter(
        is_written(),
    ).map_values(some));
}

/// Where every entry holds a record, the records that are present are all of them.
proof fn lemma_present_all<T>(records: Seq<Record<T>>)
    ensures
        present(records.map_values(|r: Record<T>| Some(r))) == records,
    decreases records.len(),
{
    let some = |r: Record<T>| Some(r);
    let is_some = |o: Option<Record<T>>| o is Some;
    let inner = |o: Option<Record<T>>| o->Some_0;
    if records.len() == 0 {
        assert(records.map_values(some).filter(is_some) =~= Seq::empty()) by {
            reveal(Seq::filter);
        }
    } else {
        let front = records.drop_last();
        lemma_present_all(front);
        assert(records.map_values(some) =~= front.map_values(some).push(Some(records.last())));
        front.map_values(some).lemma_filter_push(Some(records.last()), is_some);
        assert(front.map_values(some).filter(is_some).push(Some(records.last())).map_values(inner)
            =~= front.map_values(some).filter(is_some).map_values(inner).push(records.last()));
    }
}

/// Dump and pack are inverse to each other as far as the routing goes: dump a container
/// that opens with its header without any filter, read every text-encoded file back into
/// the record it was written from, in the order of the dump, and pack. The result is the
/// container without its records of unsupported variants, in the same order.
pub proof fn lemma_dump_then_pack<T>(
    records: Seq<Record<T>>,
    typ: ESerializedType,
    allow_incomplete: bool,
)
    requires
        records.len() > 0,
        records[0].kind == RecordKind::Header,
    ensures
        spec_pack(
            read_back(records, spec_dump_plugin(records, Seq::empty(), Seq::empty(), typ)),
            allow_incomplete,
        ) == Ok::<Seq<Record<T>>, Error>(records.filter(is_written())),
{
    let some = |r: Record<T>| Some(r);
    let kept = records.filter(is_written());
    let parsed = read_back(records, spec_dump_plugin(records, Seq::empty(), Seq::empty(), typ));
    lemma_read_back_prefix(records, typ, records.len() as int);
    assert(records.take(records.len() as int) == records);
    assert(parsed == kept.map_values(some));
    lemma_present_all(kept);
    let rest = records.drop_first();
    assert(records =~= seq![records[0]] + rest);
    Seq::filter_distributes_over_add(seq![records[0]], rest, is_written());
    assert(seq![records[0]].filter(is_written()) =~= seq![records[0]]) by {
        let none = Seq::<Record<T>>::empty();
        assert(none.filter(is_written()) =~= none) by {
            reveal(Seq::filter);
        }
        none.lemma_filter_push(records[0], is_written());
    }
    assert(kept[0] == records[0]);
    assert(is_first_header(kept, 0));
    lemma_first_header_unique(kept, 0, first_header(kept));
    assert(moved_to_front(kept, 0) =~= kept);
}

} // verus!
