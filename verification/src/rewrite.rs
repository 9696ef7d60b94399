//! Rewriting the plugin lists of the two configuration files, line by line.

use crate::config::spec_content_name;
use crate::config::spec_data_dir;
use crate::config::spec_parse_cfg;
use crate::sequences::lemma_filter_map_add;
use crate::sequences::lemma_filter_map_none;
use crate::sequences::lemma_filter_then_filter_map;
use crate::sequences::lemma_map_filter_map;
use crate::text::decimal;
use crate::text::ends_with;
use crate::text::is_prefix;
use crate::text::is_suffix;
use crate::text::lemma_views_push;
use crate::text::other_than;
use crate::text::push_decimal;
use crate::text::push_str;
use crate::text::starts_with;
use crate::text::views;
use crate::text::without_char;
use vstd::prelude::*;

verus! {

/// Which lines of a file stay when its plugin list is rewritten.
#[derive(Clone, Copy, Debug, PartialEq, Eq, Structural)]
pub enum LineRule {
    /// Every line but the `GameFile` entries.
    DropGameFiles,
    /// Every line but the `content=` entries.
    DropContent,
    /// Of the `data=` entries the game's own directory, of the `content=` entries the three
    /// master files of the game, and every other line.
    KeepVanilla,
}

/// Whether `line` stays under `rule`.
pub open spec fn spec_keeps(rule: LineRule, line: Seq<char>) -> bool {
    match rule {
        LineRule::DropGameFiles => !is_prefix("GameFile"@, line),
        LineRule::DropContent => !is_prefix("content="@, line),
        LineRule::KeepVanilla => if is_prefix("data="@, line) {
            is_suffix("Data Files\""@, line)
        } else if is_prefix("content="@, line) {
            is_suffix("Morrowind.esm"@, line) || is_suffix("Bloodmoon.esm"@, line) || is_suffix(
                "Tribunal.esm"@,
                line,
            )
        } else {
            true
        },
    }
}

/// Whether `line` stays under `rule`.
pub fn keeps(rule: LineRule, line: &str) -> (r: bool)
    ensures
        r == spec_keeps(rule, line@),
{
    match rule {
        LineRule::DropGameFiles => !starts_with(line, "GameFile"),
        LineRule::DropContent => !starts_with(line, "content="),
        LineRule::KeepVanilla => {
            if starts_with(line, "data=") {
                ends_with(line, "Data Files\"")
            } else if starts_with(line, "content=") {
                ends_with(line, "Morrowind.esm") || ends_with(line, "Bloodmoon.esm") || ends_with(
                    line,
                    "Tribunal.esm",
                )
            } else {
                true
            }
        },
    }
}

/// The lines that stay under a rule.
pub open spec fn staying(rule: LineRule) -> spec_fn(Seq<char>) -> bool {
    |l: Seq<char>| spec_keeps(rule, l)
}

/// A line as it is written: followed by a line feed.
pub open spec fn spec_with_eol(line: Seq<char>) -> Seq<char> {
    line.push('\n')
}

/// The lines of `lines` that stay under `rule`, each as it is written.
pub open spec fn spec_kept(lines: Seq<Seq<char>>, rule: LineRule) -> Seq<Seq<char>> {
    lines.filter(staying(rule)).map_values(|l: Seq<char>| spec_with_eol(l))
}

/// The entry of the plugin at position `index` in the game's own configuration file.
pub open spec fn spec_game_file_line(index: nat, name: Seq<char>) -> Seq<char> {
    "GameFile"@ + decimal(index) + seq!['='] + name + seq!['\n']
}

/// The entry of a plugin in the engine's configuration file.
pub open spec fn spec_content_line(name: Seq<char>) -> Seq<char> {
    "content="@ + name + seq!['\n']
}

/// The entry of a data directory in the engine's configuration file.
pub open spec fn spec_data_line(dir: Seq<char>) -> Seq<char> {
    "data=\""@ + dir + "\"\n"@
}

/// Appends to `out` the lines of `lines` that stay under `rule`, each with its line feed.
pub fn push_kept(out: &mut Vec<String>, lines: &Vec<String>, rule: LineRule)
    ensures
        views(final(out)@) == views(old(out)@) + spec_kept(views(lines@), rule),
{
    let ghost all = views(lines@);
    let ghost start = views(out@);
    let mut i: usize = 0;
    while i < lines.len()
        invariant
            i <= lines.len(),
            all == views(lines@),
            views(out@) == start + spec_kept(all.take(i as int), rule),
        decreases lines.len() - i,
    {
        let line = lines[i].as_str();
        proof {
            let done = all.take(i as int);
            assert(all.take(i + 1) == done.push(line@));
            done.lemma_filter_push(line@, staying(rule));
        }
        if keeps(rule, line) {
            let mut written = String::new();
            push_str(&mut written, line);
            written.push('\n');
            proof {
                lemma_views_push(out@, written);
                assert(spec_kept(all.take(i + 1), rule) =~= spec_kept(all.take(i as int), rule).push(
                    written@,
                ));
            }
            out.push(written);
        }
        i += 1;
    }
    assert(all.take(lines.len() as int) == all);
}

/// The lines of the game's own configuration file after an export: the lines that were no
/// plugin entries, then one numbered entry for each exported plugin.
pub open spec fn spec_export(ini: Seq<Seq<char>>, files: Seq<Seq<char>>) -> Seq<Seq<char>> {
    spec_kept(ini, LineRule::DropGameFiles) + files.map(
        |i: int, f: Seq<char>| spec_game_file_line(i as nat, f),
    )
}

/// The lines to write to the game's own configuration file after `files` were exported.
pub fn export(ini_lines: &Vec<String>, files: &[String]) -> (r: Vec<String>)
    ensures
        views(r@) == spec_export(views(ini_lines@), views(files@)),
{
    let mut out: Vec<String> = Vec::new();
    push_kept(&mut out, ini_lines, LineRule::DropGameFiles);
    let ghost kept = views(out@);
    let ghost names = views(files@);
    let ghost entry = |i: int, f: Seq<char>| spec_game_file_line(i as nat, f);
    let mut i: usize = 0;
    while i < files.len()
        invariant
            i <= files.len(),
            names == views(files@),
            entry == |i: int, f: Seq<char>| spec_game_file_line(i as nat, f),
            views(out@) == kept + names.take(i as int).map(entry),
        decreases files.len() - i,
    {
        let mut line = String::new();
        push_str(&mut line, "GameFile");
        push_decimal(&mut line, i);
        line.push('=');
        push_str(&mut line, files[i].as_str());
        line.push('\n');
        proof {
            assert(line@ =~= spec_game_file_line(i as nat, names[i as int]));
            lemma_views_push(out@, line);
        }
        out.push(line);
        i += 1;
    }
    out
}

/// Appends to `out` one line for each of `names`, made of `head`, the name and `tail`.
pub fn push_entries(out: &mut Vec<String>, names: &[String], head: &str, tail: &str)
    ensures
        views(final(out)@) == views(old(out)@) + views(names@).map_values(
            |n: Seq<char>| head@ + n + tail@,
        ),
{
    let ghost start = views(out@);
    let ghost all = views(names@);
    let ghost entry = |n: Seq<char>| head@ + n + tail@;
    let mut i: usize = 0;
    while i < names.len()
        invariant
            i <= names.len(),
            all == views(names@),
            entry == |n: Seq<char>| head@ + n + tail@,
            views(out@) == start + all.take(i as int).map_values(entry),
        decreases names.len() - i,
    {
        let mut line = String::new();
        push_str(&mut line, head);
        push_str(&mut line, names[i].as_str());
        push_str(&mut line, tail);
        proof {
            lemma_views_push(out@, line);
            assert(all.take(i + 1).map_values(entry) =~= all.take(i as int).map_values(entry).push(
                line@,
            ));
        }
        out.push(line);
        i += 1;
    }
}

/// The lines of the engine's configuration file after an import: the lines that were no
/// plugin entries, then one entry for each imported plugin.
pub open spec fn spec_import(cfg: Seq<Seq<char>>, plugins: Seq<Seq<char>>) -> Seq<Seq<char>> {
    spec_kept(cfg, LineRule::DropContent) + plugins.map_values(
        |n: Seq<char>| spec_content_line(n),
    )
}

/// The lines to write to the engine's configuration file to import `plugins`.
pub fn import(cfg_lines: &Vec<String>, plugins: &[String]) -> (r: Vec<String>)
    ensures
        views(r@) == spec_import(views(cfg_lines@), views(plugins@)),
{
    let mut out: Vec<String> = Vec::new();
    push_kept(&mut out, cfg_lines, LineRule::DropContent);
    push_entries(&mut out, plugins, "content=", "\n");
    proof {
        reveal_strlit("\n");
        assert("\n"@ =~= seq!['\n']);
        assert(views(plugins@).map_values(|n: Seq<char>| "content="@ + n + "\n"@) =~= views(
            plugins@,
        ).map_values(|n: Seq<char>| spec_content_line(n)));
    }
    out
}

/// Written lines as they are read again: each without its line feed.
pub open spec fn spec_read_again(written: Seq<Seq<char>>) -> Seq<Seq<char>> {
    written.map_values(|l: Seq<char>| l.drop_last())
}

/// The kept lines are read again as they were.
proof fn lemma_read_kept(lines: Seq<Seq<char>>, rule: LineRule)
    ensures
        spec_read_again(spec_kept(lines, rule)) == lines.filter(staying(rule)),
{
    let kept = lines.filter(staying(rule));
    assert forall|i: int| 0 <= i < kept.len() implies spec_read_again(spec_kept(lines, rule))[i]
        == kept[i] by {
        assert(spec_with_eol(kept[i]).drop_last() =~= kept[i]);
    }
}

/// A plugin entry without its line feed.
pub open spec fn spec_content_entry(name: Seq<char>) -> Seq<char> {
    "content="@ + name
}

/// A plugin entry names its plugin and no data directory.
proof fn lemma_content_entry(name: Seq<char>)
    ensures
        spec_content_name(spec_content_entry(name)) == Some(name),
        spec_data_dir(spec_content_entry(name)) is None,
        spec_content_line(name).drop_last() == spec_content_entry(name),
{
    reveal_strlit("content=");
    reveal_strlit("data=");
    let entry = spec_content_entry(name);
    assert(entry.take(8) =~= "content="@);
    assert(entry[0] == 'c');
}

/// What an import writes, a later reading of the configuration finds: the content files
/// are exactly the imported plugins, in their order, and the data directories are those
/// of the file before the import.
pub proof fn lemma_import_then_parse(cfg: Seq<Seq<char>>, plugins: Seq<Seq<char>>)
    ensures
        spec_parse_cfg(spec_read_again(spec_import(cfg, plugins))) == (
            spec_parse_cfg(cfg).0,
            plugins,
        ),
{
    let dir = |l: Seq<char>| spec_data_dir(l);
    let name = |l: Seq<char>| spec_content_name(l);
    let entry = |n: Seq<char>| spec_content_entry(n);
    let kept = cfg.filter(staying(LineRule::DropContent));
    let entries = plugins.map_values(entry);
    let written = spec_import(cfg, plugins);
    lemma_read_kept(cfg, LineRule::DropContent);
    assert(spec_read_again(plugins.map_values(|n: Seq<char>| spec_content_line(n))) =~= entries)
        by {
        assert forall|i: int| 0 <= i < plugins.len() implies spec_content_line(
            plugins[i],
        ).drop_last() == entry(plugins[i]) by {
            lemma_content_entry(plugins[i]);
        }
    }
    assert(spec_read_again(written) =~= kept + entries);
    lemma_filter_map_add(kept, entries, dir);
    lemma_filter_map_add(kept, entries, name);
    // the kept lines: every data directory, no plugin
    assert forall|i: int| 0 <= i < kept.len() implies name(#[trigger] kept[i]) is None by {
        cfg.lemma_filter_pred(staying(LineRule::DropContent), i);
    }
    lemma_filter_map_none(kept, name);
    assert forall|i: int|
        0 <= i < cfg.len() && !staying(LineRule::DropContent)(#[trigger] cfg[i]) implies dir(
        cfg[i],
    ) is None by {
        reveal_strlit("content=");
        lemma_content_entry(cfg[i].skip(8));
        assert(cfg[i].take(8) + cfg[i].skip(8) =~= cfg[i]);
    }
    lemma_filter_then_filter_map(cfg, staying(LineRule::DropContent), dir);
    // the entries: every plugin, no data directory
    assert forall|i: int| 0 <= i < entries.len() implies dir(#[trigger] entries[i]) is None by {
        lemma_content_entry(plugins[i]);
    }
    lemma_filter_map_none(entries, dir);
    assert forall|i: int| 0 <= i < plugins.len() implies name(entry(#[trigger] plugins[i]))
        == Some(plugins[i]) by {
        lemma_content_entry(plugins[i]);
    }
    lemma_map_filter_map(plugins, entry, name, |n: Seq<char>| n);
}

/// The lines of the engine's configuration file for a set of enabled mods and plugins:
/// the lines that stay, then one entry for each mod directory, then one for each plugin.
pub open spec fn spec_update_cfg(
    cfg: Seq<Seq<char>>,
    mods: Seq<Seq<char>>,
    plugins: Seq<Seq<char>>,
) -> Seq<Seq<char>> {
    spec_kept(cfg, LineRule::KeepVanilla) + mods.map_values(|d: Seq<char>| spec_data_line(d))
        + plugins.map_values(|n: Seq<char>| spec_content_line(n))
}

/// The lines to write to the engine's configuration file so that it lists the enabled
/// mods and plugins.
pub fn update_cfg(cfg_lines: &Vec<String>, enabled_mods: &[String], enabled_plugins: &[String]) -> (r:
    Vec<String>)
    ensures
        views(r@) == spec_update_cfg(
            views(cfg_lines@),
            views(enabled_mods@),
            views(enabled_plugins@),
        ),
{
    let mut out: Vec<String> = Vec::new();
    push_kept(&mut out, cfg_lines, LineRule::KeepVanilla);
    push_entries(&mut out, enabled_mods, "data=\"", "\"\n");
    push_entries(&mut out, enabled_plugins, "content=", "\n");
    proof {
        reveal_strlit("\n");
        assert("\n"@ =~= seq!['\n']);
        assert(views(enabled_plugins@).map_values(|n: Seq<char>| "content="@ + n + "\n"@)
            =~= views(enabled_plugins@).map_values(|n: Seq<char>| spec_content_line(n)));
        assert(views(enabled_mods@).map_values(|n: Seq<char>| "data=\""@ + n + "\"\n"@) =~= views(
            enabled_mods@,
        ).map_values(|d: Seq<char>| spec_data_line(d)));
    }
    out
}

/// A data entry without its line feed.
pub open spec fn spec_data_entry(dir: Seq<char>) -> Seq<char> {
    "data=\""@ + dir + "\""@
}

/// A data entry names its directory, without any double quote of its own, and no plugin.
proof fn lemma_data_entry(dir: Seq<char>)
    ensures
        spec_data_dir(spec_data_entry(dir)) == Some(without_char(dir, '"')),
        spec_content_name(spec_data_entry(dir)) is None,
        spec_data_line(dir).drop_last() == spec_data_entry(dir),
{
    reveal_strlit("content=");
    reveal_strlit("data=");
    reveal_strlit("data=\"");
    reveal_strlit("\"");
    reveal_strlit("\"\n");
    let entry = spec_data_entry(dir);
    let quote = seq!['"'];
    assert(entry.take(5) =~= "data="@);
    assert(entry.skip(5) =~= quote + dir + quote);
    if is_prefix("content="@, entry) {
        assert(entry.take(8)[0] == 'c');
    }
    let keep = other_than('"');
    Seq::filter_distributes_over_add(quote + dir, quote, keep);
    Seq::filter_distributes_over_add(quote, dir, keep);
    assert(quote.filter(keep) =~= Seq::<char>::empty()) by {
        let none = Seq::<char>::empty();
        assert(none.filter(keep) =~= none) by {
            reveal(Seq::filter);
        }
        none.lemma_filter_push('"', keep);
    }
}

/// What an update writes, a later reading of the configuration finds: after the data
/// directories and content files of the lines that stayed come the enabled mods, each
/// without any double quote, and the enabled plugins, in their order.
pub proof fn lemma_update_then_parse(
    cfg: Seq<Seq<char>>,
    mods: Seq<Seq<char>>,
    plugins: Seq<Seq<char>>,
)
    ensures
        spec_parse_cfg(spec_read_again(spec_update_cfg(cfg, mods, plugins))) == (
            spec_parse_cfg(cfg.filter(staying(LineRule::KeepVanilla))).0 + mods.map_values(
                |d: Seq<char>| without_char(d, '"'),
            ),
            spec_parse_cfg(cfg.filter(staying(LineRule::KeepVanilla))).1 + plugins,
        ),
{
    let dir = |l: Seq<char>| spec_data_dir(l);
    let name = |l: Seq<char>| spec_content_name(l);
    let content = |n: Seq<char>| spec_content_entry(n);
    let data = |d: Seq<char>| spec_data_entry(d);
    let bare = |d: Seq<char>| without_char(d, '"');
    let kept = cfg.filter(staying(LineRule::KeepVanilla));
    let data_entries = mods.map_values(data);
    let content_entries = plugins.map_values(content);
    lemma_read_kept(cfg, LineRule::KeepVanilla);
    assert forall|i: int| 0 <= i < plugins.len() implies spec_content_line(plugins[i]).drop_last()
        == content(plugins[i]) && dir(content(plugins[i])) is None && name(
        content(#[trigger] plugins[i]),
    ) == Some(plugins[i]) by {
        lemma_content_entry(plugins[i]);
    }
    assert forall|i: int| 0 <= i < mods.len() implies spec_data_line(mods[i]).drop_last() == data(
        mods[i],
    ) && name(data(mods[i])) is None && dir(data(#[trigger] mods[i])) == Some(bare(mods[i])) by {
        lemma_data_entry(mods[i]);
    }
    assert(spec_read_again(spec_update_cfg(cfg, mods, plugins)) =~= (kept + data_entries)
        + content_entries);
    lemma_filter_map_add(kept + data_entries, content_entries, dir);
    lemma_filter_map_add(kept, data_entries, dir);
    lemma_filter_map_add(kept + data_entries, content_entries, name);
    lemma_filter_map_add(kept, data_entries, name);
    lemma_filter_map_none(content_entries, dir);
    lemma_filter_map_none(data_entries, name);
    lemma_map_filter_map(plugins, content, name, |n: Seq<char>| n);
    lemma_map_filter_map(mods, data, dir, bare);
    assert(kept.filter_map(dir) + mods.map_values(bare) + Seq::<Seq<char>>::empty()
        =~= kept.filter_map(dir) + mods.map_values(bare));
    assert(kept.filter_map(name) + Seq::<Seq<char>>::empty() + plugins =~= kept.filter_map(name)
        + plugins);
}

} // verus!
