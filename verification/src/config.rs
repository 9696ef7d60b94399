//! The configuration file of the game engine: its data directories and content files, and
//! the manifest of the plugins copied out of them.

use crate::filter::contains;
use crate::text::is_prefix;
use crate::text::other_than;
use crate::text::lemma_views_push;
use crate::text::remove_char;
use crate::text::str_eq;
use crate::text::strip_prefix;
use crate::text::views;
use crate::text::without_char;
use vstd::prelude::*;

verus! {

/// The plugins that were copied, and those among them that were in place already.
#[derive(Debug, Clone, PartialEq, Eq)]
pub struct Manifest {
    pub files: Vec<String>,
    pub existing_files: Vec<String>,
}

impl Default for Manifest {
    fn default() -> (r: Self)
        ensures
            r.files@.len() == 0,
            r.existing_files@.len() == 0,
    {
        Manifest { files: Vec::new(), existing_files: Vec::new() }
    }
}

/// The directory that a `data=` line names: what follows the key, without any double quote.
pub open spec fn spec_data_dir(line: Seq<char>) -> Option<Seq<char>> {
    if is_prefix("data="@, line) {
        Some(without_char(line.skip("data="@.len() as int), '"'))
    } else {
        None
    }
}

/// The plugin that a `content=` line names: what follows the key.
pub open spec fn spec_content_name(line: Seq<char>) -> Option<Seq<char>> {
    if is_prefix("content="@, line) {
        Some(line.skip("content="@.len() as int))
    } else {
        None
    }
}

/// The data directories and the content files that the lines name, each in file order.
pub open spec fn spec_parse_cfg(lines: Seq<Seq<char>>) -> (Seq<Seq<char>>, Seq<Seq<char>>) {
    (
        lines.filter_map(|l: Seq<char>| spec_data_dir(l)),
        lines.filter_map(|l: Seq<char>| spec_content_name(l)),
    )
}

/// The directory that a line names holds no double quote.
pub proof fn lemma_data_dir_unquoted(line: Seq<char>)
    ensures
        spec_data_dir(line) matches Some(d) ==> !d.contains('"'),
{
    if spec_data_dir(line) is Some {
        let rest = line.skip("data="@.len() as int);
        let d = without_char(rest, '"');
        if d.contains('"') {
            let i = choose|i: int| 0 <= i < d.len() && d[i] == '"';
            rest.lemma_filter_pred(other_than('"'), i);
        }
    }
}

/// The directory that a `data=` line names.
pub fn data_dir(line: &str) -> (r: Option<String>)
    ensures
        match r {
            Some(d) => spec_data_dir(line@) == Some(d@),
            None => spec_data_dir(line@) is None,
        },
{
    match strip_prefix(line, "data=") {
        Some(rest) => Some(remove_char(rest.as_str(), '"')),
        None => None,
    }
}

/// The plugin that a `content=` line names.
pub fn content_name(line: &str) -> (r: Option<String>)
    ensures
        match r {
            Some(d) => spec_content_name(line@) == Some(d@),
            None => spec_content_name(line@) is None,
        },
{
    strip_prefix(line, "content=")
}

/// Reads the lines of a configuration file: the data directories and the content files.
pub fn parse_cfg(lines: &Vec<String>) -> (r: (Vec<String>, Vec<String>))
    ensures
        (views(r.0@), views(r.1@)) == spec_parse_cfg(views(lines@)),
{
    let mut data_dirs: Vec<String> = Vec::new();
    let mut plugin_names: Vec<String> = Vec::new();
    let ghost all = views(lines@);
    let ghost dir = |l: Seq<char>| spec_data_dir(l);
    let ghost name = |l: Seq<char>| spec_content_name(l);
    let mut i: usize = 0;
    while i < lines.len()
        invariant
            i <= lines.len(),
            all == views(lines@),
            dir == |l: Seq<char>| spec_data_dir(l),
            name == |l: Seq<char>| spec_content_name(l),
            views(data_dirs@) == all.take(i as int).filter_map(dir),
            views(plugin_names@) == all.take(i as int).filter_map(name),
        decreases lines.len() - i,
    {
        let line = lines[i].as_str();
        proof {
            all.lemma_filter_map_take_succ(dir, i as int);
            all.lemma_filter_map_take_succ(name, i as int);
        }
        match data_dir(line) {
            Some(d) => {
                proof {
                    lemma_views_push(data_dirs@, d);
                }
                data_dirs.push(d);
            },
            None => {},
        }
        match content_name(line) {
            Some(n) => {
                proof {
                    lemma_views_push(plugin_names@, n);
                }
                plugin_names.push(n);
            },
            None => {},
        }
        i += 1;
    }
    assert(all.take(lines.len() as int) == all);
    (data_dirs, plugin_names)
}

/// A file found in a data directory: where it is, and its file name.
#[derive(Debug, Clone, PartialEq, Eq)]
pub struct PluginFile {
    pub path: String,
    pub name: String,
}

/// An extension marks a plugin when it is exactly one of `esm`, `esp`, `omwaddon` and
/// `omwscripts`.
pub open spec fn spec_is_plugin_extension(extension: Seq<char>) -> bool {
    extension == "esm"@ || extension == "esp"@ || extension == "omwaddon"@ || extension
        == "omwscripts"@
}

/// Whether a file with this extension is a plugin.
pub fn is_plugin_extension(extension: &str) -> (r: bool)
    ensures
        r == spec_is_plugin_extension(extension@),
{
    str_eq(extension, "esm") || str_eq(extension, "esp") || str_eq(extension, "omwaddon")
        || str_eq(extension, "omwscripts")
}

/// The files whose name is among the active plugins, in the order in which they were found.
pub open spec fn spec_get_plugins(found: Seq<PluginFile>, plugin_names: Seq<Seq<char>>) -> Seq<
    PluginFile,
> {
    found.filter(|f: PluginFile| plugin_names.contains(f.name@))
}

/// Of the plugin files found in the data directories, those that are active.
pub fn get_plugins(found: Vec<PluginFile>, plugin_names: &[String]) -> (r: Vec<PluginFile>)
    ensures
        r@ == spec_get_plugins(found@, views(plugin_names@)),
{
    let ghost all = found@;
    let ghost names = views(plugin_names@);
    let ghost active = |f: PluginFile| names.contains(f.name@);
    let mut out: Vec<PluginFile> = Vec::new();
    for file in it: found
        invariant
            it.seq() == all,
            names == views(plugin_names@),
            active == |f: PluginFile| names.contains(f.name@),
            out@ == all.take(it.index()).filter(active),
    {
        proof {
            let done = all.take(it.index());
            assert(all.take(it.index() + 1) == done.push(file));
            done.lemma_filter_push(file, active);
        }
        if contains(plugin_names, file.name.as_str()) {
            out.push(file);
        }
    }
    assert(all.take(all.len() as int) == all);
    out
}

/// What became of one file that was to be copied.
#[derive(Clone, Copy, Debug, PartialEq, Eq, Structural)]
pub enum CopyOutcome {
    /// Source and destination are the same file: nothing was copied.
    InPlace,
    /// The file was copied.
    Copied,
    /// The copy failed.
    Failed,
}

/// A file that was to be copied, by its file name, and what became of it.
#[derive(Debug, Clone, PartialEq, Eq)]
pub struct CopyReport {
    pub name: String,
    pub outcome: CopyOutcome,
}

/// The name of a file that is now in the output directory.
pub open spec fn spec_delivered(report: CopyReport) -> Option<Seq<char>> {
    if report.outcome != CopyOutcome::Failed {
        Some(report.name@)
    } else {
        None
    }
}

/// The name of a file that was in the output directory before.
pub open spec fn spec_in_place(report: CopyReport) -> Option<Seq<char>> {
    if report.outcome == CopyOutcome::InPlace {
        Some(report.name@)
    } else {
        None
    }
}

/// The names of the files that are in the output directory after the copies, in the
/// order of the reports.
pub open spec fn spec_manifest_files(reports: Seq<CopyReport>) -> Seq<Seq<char>> {
    reports.filter_map(|r: CopyReport| spec_delivered(r))
}

/// The names of the files that were in the output directory before the copies, in the
/// order of the reports.
pub open spec fn spec_manifest_existing(reports: Seq<CopyReport>) -> Seq<Seq<char>> {
    reports.filter_map(|r: CopyReport| spec_in_place(r))
}

/// Records the outcome of the copies: `files` lists what is now in the output directory,
/// `existing_files` what was there before, both in the order of the reports. What the
/// manifest held before is replaced.
pub fn copy_files(reports: &Vec<CopyReport>, manifest: &mut Manifest)
    ensures
        views(final(manifest).files@) == spec_manifest_files(reports@),
        views(final(manifest).existing_files@) == spec_manifest_existing(reports@),
{
    let mut result: Vec<String> = Vec::new();
    let mut existing: Vec<String> = Vec::new();
    let ghost delivered = |r: CopyReport| spec_delivered(r);
    let ghost in_place = |r: CopyReport| spec_in_place(r);
    let mut i: usize = 0;
    while i < reports.len()
        invariant
            i <= reports.len(),
            delivered == |r: CopyReport| spec_delivered(r),
            in_place == |r: CopyReport| spec_in_place(r),
            views(result@) == reports@.take(i as int).filter_map(delivered),
            views(existing@) == reports@.take(i as int).filter_map(in_place),
        decreases reports.len() - i,
    {
        let report = &reports[i];
        proof {
            reports@.lemma_filter_map_take_succ(delivered, i as int);
            reports@.lemma_filter_map_take_succ(in_place, i as int);
        }
        match report.outcome {
            CopyOutcome::InPlace => {
                let a = report.name.clone();
                let b = report.name.clone();
                proof {
                    lemma_views_push(result@, a);
                    lemma_views_push(existing@, b);
                }
                result.push(a);
                existing.push(b);
            },
            CopyOutcome::Copied => {
                let a = report.name.clone();
                proof {
                    lemma_views_push(result@, a);
                }
                result.push(a);
            },
            CopyOutcome::Failed => {},
        }
        i += 1;
    }
    assert(reports@.take(reports.len() as int) == reports@);
    manifest.files = result;
    manifest.existing_files = existing;
}

/// The files to delete when cleaning up: those of the manifest that were not in place
/// before the copy.
pub open spec fn spec_cleanup(files: Seq<Seq<char>>, existing: Seq<Seq<char>>) -> Seq<Seq<char>> {
    files.filter(|f: Seq<char>| !existing.contains(f))
}

/// The names of the files that a cleanup is to delete, in manifest order.
pub fn cleanup(manifest: &Manifest) -> (r: Vec<String>)
    ensures
        views(r@) == spec_cleanup(views(manifest.files@), views(manifest.existing_files@)),
{
    let ghost files = views(manifest.files@);
    let ghost existing = views(manifest.existing_files@);
    let ghost copied = |f: Seq<char>| !existing.contains(f);
    let mut out: Vec<String> = Vec::new();
    let mut i: usize = 0;
    while i < manifest.files.len()
        invariant
            i <= manifest.files.len(),
            files == views(manifest.files@),
            existing == views(manifest.existing_files@),
            copied == |f: Seq<char>| !existing.contains(f),
            views(out@) == files.take(i as int).filter(copied),
        decreases manifest.files.len() - i,
    {
        let name = &manifest.files[i];
        proof {
            let done = files.take(i as int);
            assert(files.take(i + 1) == done.push(name@));
            done.lemma_filter_push(name@, copied);
        }
        if !contains(manifest.existing_files.as_slice(), name.as_str()) {
            let kept = name.clone();
            proof {
                lemma_views_push(out@, kept);
            }
            out.push(kept);
        }
        i += 1;
    }
    assert(files.take(manifest.files.len() as int) == files);
    out
}

/// A configuration path that the user gave, and what is at it.
#[derive(Debug, Clone, PartialEq, Eq)]
pub struct Candidate {
    pub path: String,
    pub exists: bool,
    pub is_file: bool,
}

/// The configuration file to use: the one given if it exists and is a file; none if it
/// was given and is not; the default location if none was given.
pub fn check_cfg_path(given: Option<Candidate>, default_path: Option<String>) -> (r: Option<
    String,
>)
    ensures
        r == match given {
            Some(c) => if c.exists && c.is_file {
                Some(c.path)
            } else {
                None
            },
            None => default_path,
        },
{
    match given {
        Some(c) => {
            if !c.exists {
                return None;
            }
            if !c.is_file {
                return None;
            }
            Some(c.path)
        },
        None => default_path,
    }
}

/// The per-user directory below which the configuration file lies.
#[derive(Clone, Copy, Debug, PartialEq, Eq, Structural)]
pub enum BaseDir {
    Config,
    Preference,
    Document,
}

/// Where the configuration file lies by default: a per-user directory and the path from it.
#[derive(Debug, Clone, PartialEq, Eq)]
pub struct CfgLocation {
    pub base: BaseDir,
    pub segments: Vec<String>,
}

/// The default location of the configuration file on an operating system.
pub open spec fn spec_default_location(os: Seq<char>) -> Option<(BaseDir, Seq<Seq<char>>)> {
    if os == "linux"@ {
        Some((BaseDir::Config, seq!["openmw.cfg"@]))
    } else if os == "macos"@ {
        Some((BaseDir::Preference, seq!["openmw"@, "openmw.cfg"@]))
    } else if os == "windows"@ {
        Some((BaseDir::Document, seq!["my games"@, "openmw"@, "openmw.cfg"@]))
    } else {
        None
    }
}

/// The default location of the configuration file on the operating system named `os`.
pub fn default_location(os: &str) -> (r: Option<CfgLocation>)
    ensures
        match r {
            Some(l) => spec_default_location(os@) == Some((l.base, views(l.segments@))),
            None => spec_default_location(os@) is None,
        },
{
    let mut segments: Vec<String> = Vec::new();
    if str_eq(os, "linux") {
        segments.push("openmw.cfg".to_owned());
        Some(CfgLocation { base: BaseDir::Config, segments })
    } else if str_eq(os, "macos") {
        segments.push("openmw".to_owned());
        segments.push("openmw.cfg".to_owned());
        Some(CfgLocation { base: BaseDir::Preference, segments })
    } else if str_eq(os, "windows") {
        segments.push("my games".to_owned());
        segments.push("openmw".to_owned());
        segments.push("openmw.cfg".to_owned());
        Some(CfgLocation { base: BaseDir::Document, segments })
    } else {
        None
    }
}

} // verus!
