use mwscript::config::cleanup;
use mwscript::config::copy_files;
use mwscript::config::get_plugins;
use mwscript::config::parse_cfg;
use mwscript::config::CopyOutcome;
use mwscript::config::CopyReport;
use mwscript::config::Manifest;
use mwscript::config::PluginFile;
use mwscript::order::sort_by_modified;
use mwscript::order::DatedFile;
use mwscript::rewrite::export;
use mwscript::rewrite::import;
use mwscript::rewrite::keeps;
use mwscript::rewrite::push_entries;
use mwscript::rewrite::push_kept;
use mwscript::rewrite::update_cfg;
use mwscript::rewrite::LineRule;

fn lines(text: &str) -> Vec<String> {
    text.lines().map(|l| l.to_string()).collect()
}

fn strings(list: &[&str]) -> Vec<String> {
    list.iter().map(|t| t.to_string()).collect()
}

fn get_cfg() -> (Vec<String>, usize, usize) {
    let text = "\
data=\"tests/assets/mods/mod1\"
data=\"tests/assets/mods/mod2\"
data=\"tests/assets/Data Files\"
content=Morrowind.esm
content=Tribunal.esm
content=Bloodmoon.esm
content=mod1.esp
content=mod2.omwaddon
";
    (lines(text), 3, 5)
}

fn get_out_cfg() -> (Vec<String>, usize, usize) {
    let text = "\
data=\"tests/assets/Data Files\"
data=\"tests/assets/mods\"
fallback=x
content=old1.esp
content=old2.esp
content=old3.esp
";
    (lines(text), 2, 2)
}

fn found_files() -> Vec<PluginFile> {
    ["mod1.esp", "mod2.omwaddon", "Bloodmoon.esm", "Morrowind.esm", "Tribunal.esm"]
        .iter()
        .map(|n| PluginFile { path: format!("tests/assets/{}", n), name: n.to_string() })
        .collect()
}

fn ini() -> Vec<String> {
    lines("[General]\nShow FPS=0\n[Game Files]\nGameFile0=Morrowind.esm\nGameFile1=old.esp\n[Archives]\nArchive 0=Tribunal.bsa")
}

fn copied(names: &[String]) -> Manifest {
    let reports: Vec<CopyReport> = names
        .iter()
        .map(|n| CopyReport { name: n.clone(), outcome: CopyOutcome::Copied })
        .collect();
    let mut manifest = Manifest::default();
    copy_files(&reports, &mut manifest);
    manifest
}

#[test]
fn test_export() {
    let (cfg, _d, c) = get_cfg();
    let (_dirs, plugin_names) = parse_cfg(&cfg);
    let files: Vec<String> =
        get_plugins(found_files(), &plugin_names).into_iter().map(|f| f.name).collect();
    let manifest = copied(&files);
    assert_eq!(manifest.files.len(), c);
    let written = export(&ini(), &manifest.files);
    let entries = written.iter().filter(|l| l.starts_with("GameFile")).count();
    assert_eq!(entries, c);

    let to_delete = cleanup(&manifest);
    assert_eq!(to_delete.len(), c);
}

#[test]
fn test_import() {
    let (cfg, _d, c) = get_cfg();
    let (_dirs, plugin_names) = parse_cfg(&cfg);
    let files: Vec<String> =
        get_plugins(found_files(), &plugin_names).into_iter().map(|f| f.name).collect();
    let manifest = copied(&files);
    assert_eq!(manifest.files.len(), c);

    let in_folder = vec![
        DatedFile { name: "mod1.esp".to_string(), modified: 2_000 },
        DatedFile { name: "mod0.esp".to_string(), modified: 1_000 },
    ];
    let plugins: Vec<String> = sort_by_modified(in_folder).into_iter().map(|f| f.name).collect();
    let (cfg_out, d_out, c_out) = get_out_cfg();
    let written = import(&cfg_out, &plugins);
    assert_eq!(cleanup(&manifest).len(), c);

    let read_again: Vec<String> =
        written.iter().map(|l| l.strip_suffix('\n').unwrap().to_string()).collect();
    let (data_dirs, plugin_names) = parse_cfg(&read_again);
    assert_eq!(data_dirs.len(), d_out);
    assert_eq!(plugin_names.len(), c_out);
    assert_eq!(plugin_names, strings(&["mod0.esp", "mod1.esp"]));
}

#[test]
fn export_rewrites_the_game_files() {
    let written = export(&ini(), &strings(&["Morrowind.esm", "a b.esp", "c.omwaddon"]));
    assert_eq!(
        written,
        strings(&[
            "[General]\n",
            "Show FPS=0\n",
            "[Game Files]\n",
            "[Archives]\n",
            "Archive 0=Tribunal.bsa\n",
            "GameFile0=Morrowind.esm\n",
            "GameFile1=a b.esp\n",
            "GameFile2=c.omwaddon\n",
        ])
    );
}

#[test]
fn export_numbers_in_decimal() {
    let files: Vec<String> = (0..12).map(|i| format!("p{}.esp", i)).collect();
    let written = export(&vec![], &files);
    assert_eq!(written.len(), 12);
    assert_eq!(written[0], "GameFile0=p0.esp\n");
    assert_eq!(written[9], "GameFile9=p9.esp\n");
    assert_eq!(written[10], "GameFile10=p10.esp\n");
    assert_eq!(written[11], "GameFile11=p11.esp\n");
}

#[test]
fn export_of_nothing() {
    assert_eq!(export(&vec![], &[]), Vec::<String>::new());
    assert_eq!(export(&strings(&["GameFile0=x", "GameFiles"]), &[]), Vec::<String>::new());
    assert_eq!(export(&strings(&[" GameFile0=x", ""]), &[]), strings(&[" GameFile0=x\n", "\n"]));
}

#[test]
fn import_rewrites_the_content_entries() {
    let (cfg, _, _) = get_out_cfg();
    let written = import(&cfg, &strings(&["new.esp", "newer.omwaddon"]));
    assert_eq!(
        written,
        strings(&[
            "data=\"tests/assets/Data Files\"\n",
            "data=\"tests/assets/mods\"\n",
            "fallback=x\n",
            "content=new.esp\n",
            "content=newer.omwaddon\n",
        ])
    );
    assert_eq!(import(&vec![], &[]), Vec::<String>::new());
}

#[test]
fn update_keeps_the_vanilla_entries() {
    let cfg = lines(
        "fallback=x\ndata=\"C:\\Morrowind\\Data Files\"\ndata=\"C:\\mods\\old\"\ncontent=Morrowind.esm\ncontent=Tribunal.esm\ncontent=Bloodmoon.esm\ncontent=old.esp\nencoding=win1252\ndata=/no/quote/Data Files",
    );
    let written = update_cfg(&cfg, &strings(&["/mods/a", "/mods/b c"]), &strings(&["a.esp"]));
    assert_eq!(
        written,
        strings(&[
            "fallback=x\n",
            "data=\"C:\\Morrowind\\Data Files\"\n",
            "content=Morrowind.esm\n",
            "content=Tribunal.esm\n",
            "content=Bloodmoon.esm\n",
            "encoding=win1252\n",
            "data=\"/mods/a\"\n",
            "data=\"/mods/b c\"\n",
            "content=a.esp\n",
        ])
    );
}

#[test]
fn update_with_nothing_enabled() {
    let cfg = strings(&["content=x.esp", "data=\"y\"", "z"]);
    assert_eq!(update_cfg(&cfg, &[], &[]), strings(&["z\n"]));
    assert_eq!(update_cfg(&vec![], &[], &[]), Vec::<String>::new());
}

#[test]
fn line_rules() {
    assert!(!keeps(LineRule::DropGameFiles, "GameFile12=x.esp"));
    assert!(!keeps(LineRule::DropGameFiles, "GameFile"));
    assert!(keeps(LineRule::DropGameFiles, "gamefile0=x"));
    assert!(keeps(LineRule::DropGameFiles, "content=x"));
    assert!(keeps(LineRule::DropGameFiles, ""));
    assert!(!keeps(LineRule::DropContent, "content=x"));
    assert!(keeps(LineRule::DropContent, "data=x"));
    assert!(keeps(LineRule::DropContent, "Content=x"));
    assert!(keeps(LineRule::KeepVanilla, "data=\"a/Data Files\""));
    assert!(!keeps(LineRule::KeepVanilla, "data=\"a/Data Files\" "));
    assert!(!keeps(LineRule::KeepVanilla, "data=a/Data Files"));
    assert!(!keeps(LineRule::KeepVanilla, "data=\"mods\""));
    assert!(keeps(LineRule::KeepVanilla, "content=Morrowind.esm"));
    assert!(keeps(LineRule::KeepVanilla, "content=Bloodmoon.esm"));
    assert!(keeps(LineRule::KeepVanilla, "content=Tribunal.esm"));
    assert!(!keeps(LineRule::KeepVanilla, "content=morrowind.esm"));
    assert!(!keeps(LineRule::KeepVanilla, "content=mod.esp"));
    assert!(keeps(LineRule::KeepVanilla, "GameFile0=x"));
    assert!(keeps(LineRule::KeepVanilla, ""));
}

#[test]
fn kept_lines_are_appended() {
    let mut out = strings(&["first"]);
    push_kept(&mut out, &strings(&["a", "content=b", "c"]), LineRule::DropContent);
    assert_eq!(out, strings(&["first", "a\n", "c\n"]));
    push_entries(&mut out, &strings(&["x", ""]), "<", ">");
    assert_eq!(out, strings(&["first", "a\n", "c\n", "<x>", "<>"]));
}

#[test]
fn what_an_update_writes_is_read_again() {
    let cfg = lines(
        "fallback=x\ndata=\"C:\\Morrowind\\Data Files\"\ndata=\"C:\\mods\\old\"\ncontent=Morrowind.esm\ncontent=old.esp",
    );
    let written = update_cfg(&cfg, &strings(&["/mods/a", "/mods/\"b\" c"]), &strings(&["a.esp"]));
    let read_again: Vec<String> =
        written.iter().map(|l| l.strip_suffix('\n').unwrap().to_string()).collect();
    let (data_dirs, plugin_names) = parse_cfg(&read_again);
    assert_eq!(data_dirs, strings(&["C:\\Morrowind\\Data Files", "/mods/a", "/mods/b c"]));
    assert_eq!(plugin_names, strings(&["Morrowind.esm", "a.esp"]));
}

#[test]
fn what_an_import_writes_is_read_again() {
    let cfg = lines("data=\"a\"\ncontent=old.esp\nfallback=content=x\ndata=b");
    let written = import(&cfg, &strings(&["one.esp", "", "two words.omwaddon"]));
    let read_again: Vec<String> =
        written.iter().map(|l| l.strip_suffix('\n').unwrap().to_string()).collect();
    let (data_dirs, plugin_names) = parse_cfg(&read_again);
    assert_eq!(data_dirs, strings(&["a", "b"]));
    assert_eq!(plugin_names, strings(&["one.esp", "", "two words.omwaddon"]));
}
