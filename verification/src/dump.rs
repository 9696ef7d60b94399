//! The dump: from the records of a container to the files that are to be written.

use crate::error::Error;
use crate::filter::passes;
use crate::filter::spec_passes;
use crate::format::script_extension;
use crate::format::spec_script_extension;
use crate::format::ESerializedType;
use crate::record::Record;
use crate::record::RecordKind;
use crate::record::Routing;
use crate::sequences::lemma_flatten_contains;
use crate::text::ascii_lowercase;
use crate::text::push_str;
use crate::text::str_eq;
use crate::text::to_ascii_lowercase;
use crate::text::views;
use vstd::prelude::*;

verus! {

/// What a file holds.
#[derive(Debug, Clone, PartialEq, Eq)]
pub enum Content {
    /// The attributes of the record, in the chosen text encoding.
    Structured,
    /// The given text as it stands.
    Text(String),
}

pub enum ContentView {
    Structured,
    Text(Seq<char>),
}

impl View for Content {
    type V = ContentView;

    open spec fn view(&self) -> ContentView {
        match self {
            Content::Structured => ContentView::Structured,
            Content::Text(t) => ContentView::Text(t@),
        }
    }
}

/// One file to write: `<folder>/<file_name>` below the output directory, made from the
/// record at position `record` of the container.
#[derive(Debug, Clone, PartialEq, Eq)]
pub struct Artifact {
    pub record: usize,
    pub folder: String,
    pub file_name: String,
    pub content: Content,
}

pub struct ArtifactView {
    pub record: int,
    pub folder: Seq<char>,
    pub file_name: Seq<char>,
    pub content: ContentView,
}

impl View for Artifact {
    type V = ArtifactView;

    open spec fn view(&self) -> ArtifactView {
        ArtifactView {
            record: self.record as int,
            folder: self.folder@,
            file_name: self.file_name@,
            content: self.content@,
        }
    }
}

/// The views of a list of artifacts, in order.
pub open spec fn artifact_views(v: Seq<Artifact>) -> Seq<ArtifactView> {
    v.map_values(|a: Artifact| a@)
}

/// A file name: the stem, a dot, the extension.
pub open spec fn spec_file_name(stem: Seq<char>, extension: Seq<char>) -> Seq<char> {
    stem + seq!['.'] + extension
}

/// A file name: the stem, a dot, the extension.
pub fn file_name(stem: &str, extension: &str) -> (r: String)
    ensures
        r@ == spec_file_name(stem@, extension@),
{
    let mut out = String::new();
    push_str(&mut out, stem);
    out.push('.');
    push_str(&mut out, extension);
    out
}

/// The files that one record gives rise to.
///
/// The header goes to `Header/Header.<ext>`. A record of an unsupported variant gives no
/// file. Any other record goes to `<Variant>/<id>.<ext>`, and where it has a plain-text
/// body, that body goes beside it under the script extension.
pub open spec fn spec_write_object<T>(
    record: Record<T>,
    index: int,
    typ: ESerializedType,
) -> Seq<ArtifactView> {
    let folder = record.kind.spec_name();
    match record.kind.spec_routing() {
        Routing::Unsupported => Seq::empty(),
        Routing::Header => seq![
            ArtifactView {
                record: index,
                folder,
                file_name: spec_file_name(folder, typ.spec_extension()),
                content: ContentView::Structured,
            },
        ],
        Routing::Supported => {
            let main = ArtifactView {
                record: index,
                folder,
                file_name: spec_file_name(record.id@, typ.spec_extension()),
                content: ContentView::Structured,
            };
            match record.spec_text_body() {
                Some(body) => seq![
                    main,
                    ArtifactView {
                        record: index,
                        folder,
                        file_name: spec_file_name(record.id@, spec_script_extension()),
                        content: ContentView::Text(body),
                    },
                ],
                None => seq![main],
            }
        },
    }
}

/// The files that the record at position `index` gives rise to.
pub fn write_object<T>(record: &Record<T>, index: usize, typ: &ESerializedType) -> (r: Vec<
    Artifact,
>)
    ensures
        artifact_views(r@) == spec_write_object(*record, index as int, *typ),
{
    let mut out: Vec<Artifact> = Vec::new();
    let folder = record.kind.name();
    match record.kind.routing() {
        Routing::Unsupported => {},
        Routing::Header => {
            out.push(
                Artifact {
                    record: index,
                    folder: folder.to_owned(),
                    file_name: file_name(folder, typ.extension()),
                    content: Content::Structured,
                },
            );
        },
        Routing::Supported => {
            out.push(
                Artifact {
                    record: index,
                    folder: folder.to_owned(),
                    file_name: file_name(record.id.as_str(), typ.extension()),
                    content: Content::Structured,
                },
            );
            if record.kind.has_text_body() {
                match &record.text {
                    Some(body) => {
                        out.push(
                            Artifact {
                                record: index,
                                folder: folder.to_owned(),
                                file_name: file_name(record.id.as_str(), script_extension()),
                                content: Content::Text(body.clone()),
                            },
                        );
                    },
                    None => {},
                }
            }
        },
    }
    out
}

/// The files of one record under a filter: those of `spec_write_object` where the record's
/// type tag passes, none where it does not.
pub open spec fn spec_filtered<T>(
    record: Record<T>,
    index: int,
    included: Seq<Seq<char>>,
    excluded: Seq<Seq<char>>,
    typ: ESerializedType,
) -> Seq<ArtifactView> {
    if spec_passes(record.kind.spec_tag(), included, excluded) {
        spec_write_object(record, index, typ)
    } else {
        Seq::empty()
    }
}

/// The files of a whole container: those of its records, in container order.
pub open spec fn spec_dump_plugin<T>(
    records: Seq<Record<T>>,
    included: Seq<Seq<char>>,
    excluded: Seq<Seq<char>>,
    typ: ESerializedType,
) -> Seq<ArtifactView> {
    records.map(|i: int, r: Record<T>| spec_filtered(r, i, included, excluded, typ)).flatten()
}

/// The files to write for the records of one container, in container order.
pub fn dump_plugin<T>(
    records: &Vec<Record<T>>,
    included: &[String],
    excluded: &[String],
    typ: &ESerializedType,
) -> (r: Vec<Artifact>)
    ensures
        artifact_views(r@) == spec_dump_plugin(records@, views(included@), views(excluded@), *typ),
{
    let mut out: Vec<Artifact> = Vec::new();
    let ghost inc = views(included@);
    let ghost exc = views(excluded@);
    let ghost each = |i: int, r: Record<T>| spec_filtered(r, i, inc, exc, *typ);
    let mut i: usize = 0;
    while i < records.len()
        invariant
            i <= records.len(),
            inc == views(included@),
            exc == views(excluded@),
            each == |i: int, r: Record<T>| spec_filtered(r, i, inc, exc, *typ),
            artifact_views(out@) == records@.take(i as int).map(each).flatten(),
        decreases records.len() - i,
    {
        let record = &records[i];
        proof {
            let done = records@.take(i as int).map(each);
            assert(records@.take(i + 1).map(each) =~= done.push(each(i as int, records@[i as int])));
            done.lemma_flatten_push(each(i as int, records@[i as int]));
        }
        if passes(record.kind.tag(), included, excluded) {
            let mut files = write_object(record, i, typ);
            out.append(&mut files);
        }
        i += 1;
    }
    assert(records@.take(records.len() as int) == records@);
    out
}

/// A record gives no file exactly when its variant is unsupported: no other variant is
/// dropped.
pub proof fn lemma_dropped_iff_unsupported<T>(record: Record<T>, index: int, typ: ESerializedType)
    ensures
        spec_write_object(record, index, typ).len() == 0 <==> record.kind.spec_routing()
            == Routing::Unsupported,
        record.kind.spec_routing() != Routing::Unsupported ==> spec_write_object(
            record,
            index,
            typ,
        )[0].content == ContentView::Structured,
        forall|k: int|
            0 <= k < spec_write_object(record, index, typ).len() ==> {
                &&& (#[trigger] spec_write_object(record, index, typ)[k]).record == index
                &&& spec_write_object(record, index, typ)[k].folder == record.kind.spec_name()
            },
{
}

/// Every file of a dump comes from a record of the container whose type tag passes the
/// filter and whose variant is supported, and is one of the files of that record.
pub proof fn lemma_dump_sound<T>(
    records: Seq<Record<T>>,
    included: Seq<Seq<char>>,
    excluded: Seq<Seq<char>>,
    typ: ESerializedType,
    file: ArtifactView,
)
    requires
        spec_dump_plugin(records, included, excluded, typ).contains(file),
    ensures
        0 <= file.record < records.len(),
        spec_passes(records[file.record].kind.spec_tag(), included, excluded),
        !excluded.contains(records[file.record].kind.spec_tag()),
        records[file.record].kind.spec_routing() != Routing::Unsupported,
        spec_write_object(records[file.record], file.record, typ).contains(file),
        file.folder == records[file.record].kind.spec_name(),
{
    let each = |i: int, r: Record<T>| spec_filtered(r, i, included, excluded, typ);
    let parts = records.map(each);
    lemma_flatten_contains(parts, file);
    let i = choose|i: int| 0 <= i < parts.len() && (#[trigger] parts[i]).contains(file);
    let files = spec_write_object(records[i], i, typ);
    let k = choose|k: int| 0 <= k < parts[i].len() && parts[i][k] == file;
    assert(files[k] == file);
    lemma_dropped_iff_unsupported(records[i], i, typ);
}

/// Every file of a record whose type tag passes the filter is part of the dump: the filter
/// and the unsupported variants are the only reasons for a record to be left out.
pub proof fn lemma_dump_complete<T>(
    records: Seq<Record<T>>,
    included: Seq<Seq<char>>,
    excluded: Seq<Seq<char>>,
    typ: ESerializedType,
    index: int,
    file: ArtifactView,
)
    requires
        0 <= index < records.len(),
        spec_passes(records[index].kind.spec_tag(), included, excluded),
        spec_write_object(records[index], index, typ).contains(file),
    ensures
        spec_dump_plugin(records, included, excluded, typ).contains(file),
{
    let each = |i: int, r: Record<T>| spec_filtered(r, i, included, excluded, typ);
    let parts = records.map(each);
    assert(parts[index] == spec_write_object(records[index], index, typ));
    lemma_flatten_contains(parts, file);
}

/// A file name determines its stem, once the extension is known.
pub proof fn lemma_file_name_injective(a: Seq<char>, b: Seq<char>, extension: Seq<char>)
    requires
        spec_file_name(a, extension) == spec_file_name(b, extension),
    ensures
        a == b,
{
    let x = spec_file_name(a, extension);
    let y = spec_file_name(b, extension);
    assert(x.len() == a.len() + 1 + extension.len());
    assert(y.len() == b.len() + 1 + extension.len());
    assert(a =~= x.take(a.len() as int));
    assert(b =~= y.take(b.len() as int));
}

/// No file in a text encoding has the name of a script body, whatever their stems.
pub proof fn lemma_body_name_differs(a: Seq<char>, b: Seq<char>, typ: ESerializedType)
    ensures
        spec_file_name(a, typ.spec_extension()) != spec_file_name(b, spec_script_extension()),
{
    reveal_strlit("yaml");
    reveal_strlit("toml");
    reveal_strlit("json");
    reveal_strlit("mwscript");
    let x = spec_file_name(a, typ.spec_extension());
    let y = spec_file_name(b, spec_script_extension());
    assert(x[x.len() - 1] == typ.spec_extension()[3]);
    assert(y[y.len() - 1] == spec_script_extension()[7]);
}

/// Two files of a dump that have the same place come from records of the same variant
/// and hold the same kind of content; unless they come from headers, which all go to one
/// fixed place, the records also have the same identifier. So records that differ in
/// variant or identifier are never written to the same file.
pub proof fn lemma_same_place_same_record<T>(
    records: Seq<Record<T>>,
    included: Seq<Seq<char>>,
    excluded: Seq<Seq<char>>,
    typ: ESerializedType,
    a: ArtifactView,
    b: ArtifactView,
)
    requires
        spec_dump_plugin(records, included, excluded, typ).contains(a),
        spec_dump_plugin(records, included, excluded, typ).contains(b),
        a.folder == b.folder,
        a.file_name == b.file_name,
    ensures
        records[a.record].kind == records[b.record].kind,
        a.content is Structured <==> b.content is Structured,
        records[a.record].kind != RecordKind::Header ==> records[a.record].id@
            == records[b.record].id@,
{
    lemma_dump_sound(records, included, excluded, typ, a);
    lemma_dump_sound(records, included, excluded, typ, b);
    let ra = records[a.record];
    let rb = records[b.record];
    crate::record::lemma_name_injective(ra.kind, rb.kind);
    let fa = spec_write_object(ra, a.record, typ);
    let fb = spec_write_object(rb, b.record, typ);
    let i = choose|i: int| 0 <= i < fa.len() && fa[i] == a;
    let j = choose|j: int| 0 <= j < fb.len() && fb[j] == b;
    if ra.kind != RecordKind::Header {
        if i == 0 && j == 0 {
            lemma_file_name_injective(ra.id@, rb.id@, typ.spec_extension());
        } else if i == 1 && j == 1 {
            lemma_file_name_injective(ra.id@, rb.id@, spec_script_extension());
        } else if i == 0 && j == 1 {
            lemma_body_name_differs(ra.id@, rb.id@, typ);
        } else if i == 1 && j == 0 {
            lemma_body_name_differs(rb.id@, ra.id@, typ);
        }
    }
}

/// The name of a file, split at its last dot.
#[derive(Debug, Clone, PartialEq, Eq)]
pub struct FileName {
    pub stem: String,
    pub extension: Option<String>,
}

/// What was found at the input path.
#[derive(Debug, Clone, PartialEq, Eq)]
pub enum Input {
    /// Nothing is there.
    Missing,
    /// A file, with its name.
    File(FileName),
    /// A directory, with the names of the files directly in it.
    Directory(Vec<FileName>),
    /// Something that is neither a file nor a directory.
    Other,
}

/// One container to dump: the file at position `entry` of the input (0 for a single file),
/// written to the output directory itself or to the folder `subfolder` in it.
#[derive(Debug, Clone, PartialEq, Eq)]
pub struct Job {
    pub entry: usize,
    pub subfolder: Option<String>,
}

pub struct JobView {
    pub entry: int,
    pub subfolder: Option<Seq<char>>,
}

impl View for Job {
    type V = JobView;

    open spec fn view(&self) -> JobView {
        JobView {
            entry: self.entry as int,
            subfolder: match self.subfolder {
                Some(s) => Some(s@),
                None => None,
            },
        }
    }
}

/// The views of a list of jobs, in order.
pub open spec fn job_views(v: Seq<Job>) -> Seq<JobView> {
    v.map_values(|j: Job| j@)
}

/// An extension marks a container when it reads `esp` or `omwaddon`, in either case of
/// each letter.
pub open spec fn spec_is_container_extension(extension: Seq<char>) -> bool {
    ascii_lowercase(extension) == "esp"@ || ascii_lowercase(extension) == "omwaddon"@
}

/// A file is a container when it has an extension and that extension marks one.
pub open spec fn spec_is_container(name: FileName) -> bool {
    match name.extension {
        Some(e) => spec_is_container_extension(e@),
        None => false,
    }
}

/// Whether `extension` marks a container file.
pub fn is_container_extension(extension: &str) -> (r: bool)
    ensures
        r == spec_is_container_extension(extension@),
{
    let lower = to_ascii_lowercase(extension);
    str_eq(lower.as_str(), "esp") || str_eq(lower.as_str(), "omwaddon")
}

/// Whether the file named `name` is a container.
pub fn is_container(name: &FileName) -> (r: bool)
    ensures
        r == spec_is_container(*name),
{
    match &name.extension {
        Some(e) => is_container_extension(e.as_str()),
        None => false,
    }
}

/// The job for the file at position `index` of a directory: none unless it is a container;
/// a container goes to the folder named by its stem.
pub open spec fn spec_sweep_one(name: FileName, index: int) -> Seq<JobView> {
    if spec_is_container(name) {
        seq![JobView { entry: index, subfolder: Some(name.stem@) }]
    } else {
        Seq::empty()
    }
}

/// The jobs for the files of a directory, in the order of the listing.
pub open spec fn spec_sweep(files: Seq<FileName>) -> Seq<JobView> {
    files.map(|i: int, f: FileName| spec_sweep_one(f, i)).flatten()
}

/// Every job of a sweep stands for a container of the listing and sends it to the folder
/// named by its stem.
pub proof fn lemma_sweep_sound(files: Seq<FileName>, job: JobView)
    requires
        spec_sweep(files).contains(job),
    ensures
        0 <= job.entry < files.len(),
        spec_is_container(files[job.entry]),
        job.subfolder == Some(files[job.entry].stem@),
{
    let each = |i: int, f: FileName| spec_sweep_one(f, i);
    let parts = files.map(each);
    lemma_flatten_contains(parts, job);
    let i = choose|i: int| 0 <= i < parts.len() && (#[trigger] parts[i]).contains(job);
    let k = choose|k: int| 0 <= k < parts[i].len() && parts[i][k] == job;
    assert(parts[i] == spec_sweep_one(files[i], i) && k == 0);
}

/// Every container of the listing has its job in the sweep: no container is passed over.
pub proof fn lemma_sweep_complete(files: Seq<FileName>, index: int)
    requires
        0 <= index < files.len(),
        spec_is_container(files[index]),
    ensures
        spec_sweep(files).contains(JobView { entry: index, subfolder: Some(files[index].stem@) }),
{
    let each = |i: int, f: FileName| spec_sweep_one(f, i);
    let parts = files.map(each);
    let job = JobView { entry: index, subfolder: Some(files[index].stem@) };
    assert(parts[index][0] == job);
    lemma_flatten_contains(parts, job);
}

/// The containers to dump for an input.
///
/// No input and an absent input are errors, and so is a single file that is no container.
/// A single container is dumped into the output directory, or, with `create`, into the
/// folder named by its stem. Of a directory every container in it is dumped, each into
/// the folder named by its stem. Anything else gives no work.
pub open spec fn spec_dump(input: Option<Input>, create: bool) -> Result<Seq<JobView>, Error> {
    match input {
        None => Err(Error::NoInput),
        Some(Input::Missing) => Err(Error::InputNotFound),
        Some(Input::File(name)) => if spec_is_container(name) {
            Ok(
                seq![
                    JobView {
                        entry: 0,
                        subfolder: if create {
                            Some(name.stem@)
                        } else {
                            None
                        },
                    },
                ],
            )
        } else {
            Err(Error::WrongExtension)
        },
        Some(Input::Directory(files)) => Ok(spec_sweep(files@)),
        Some(Input::Other) => Ok(Seq::empty()),
    }
}

/// The result of `dump` as a view.
pub open spec fn dump_view(r: Result<Vec<Job>, Error>) -> Result<Seq<JobView>, Error> {
    match r {
        Ok(jobs) => Ok(job_views(jobs@)),
        Err(e) => Err(e),
    }
}

/// The containers to dump for what was found at the input path.
pub fn dump(input: &Option<Input>, create: bool) -> (r: Result<Vec<Job>, Error>)
    ensures
        dump_view(r) == spec_dump(*input, create),
{
    match input {
        None => Err(Error::NoInput),
        Some(Input::Missing) => Err(Error::InputNotFound),
        Some(Input::File(name)) => {
            if !is_container(name) {
                return Err(Error::WrongExtension);
            }
            let subfolder = if create {
                Some(name.stem.clone())
            } else {
                None
            };
            let mut jobs: Vec<Job> = Vec::new();
            jobs.push(Job { entry: 0, subfolder });
            assert(job_views(jobs@) =~= spec_dump(*input, create)->Ok_0);
            Ok(jobs)
        },
        Some(Input::Directory(files)) => {
            let jobs = sweep(files);
            Ok(jobs)
        },
        Some(Input::Other) => {
            let jobs: Vec<Job> = Vec::new();
            assert(job_views(jobs@) =~= Seq::<JobView>::empty());
            Ok(jobs)
        },
    }
}

/// The jobs for the files of a directory, in the order of the listing.
pub fn sweep(files: &Vec<FileName>) -> (r: Vec<Job>)
    ensures
        job_views(r@) == spec_sweep(files@),
{
    let mut out: Vec<Job> = Vec::new();
    let ghost each = |i: int, f: FileName| spec_sweep_one(f, i);
    let mut i: usize = 0;
    while i < files.len()
        invariant
            i <= files.len(),
            each == |i: int, f: FileName| spec_sweep_one(f, i),
            job_views(out@) == files@.take(i as int).map(each).flatten(),
        decreases files.len() - i,
    {
        proof {
            let done = files@.take(i as int).map(each);
            assert(files@.take(i + 1).map(each) =~= done.push(each(i as int, files@[i as int])));
            done.lemma_flatten_push(each(i as int, files@[i as int]));
        }
        if is_container(&files[i]) {
            out.push(Job { entry: i, subfolder: Some(files[i].stem.clone()) });
        }
        i += 1;
    }
    assert(files@.take(files.len() as int) == files@);
    out
}

/// A container begins with the byte `T`.
pub open spec fn spec_has_signature(raw: Seq<u8>) -> bool {
    raw.len() > 0 && raw[0] == 0x54u8
}

/// Whether `raw` may be handed to the codec: `BadSignature` unless it begins as a
/// container does.
pub fn check_signature(raw: &[u8]) -> (r: Result<(), Error>)
    ensures
        r == if spec_has_signature(raw@) {
            Ok::<(), Error>(())
        } else {
            Err(Error::BadSignature)
        },
{
    if raw.len() > 0 && raw[0] == 0x54u8 {
        Ok(())
    } else {
        Err(Error::BadSignature)
    }
}

} // verus!
