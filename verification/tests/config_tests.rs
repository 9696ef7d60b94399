use mwscript::config::check_cfg_path;
use mwscript::config::cleanup;
use mwscript::config::content_name;
use mwscript::config::copy_files;
use mwscript::config::data_dir;
use mwscript::config::default_location;
use mwscript::config::get_plugins;
use mwscript::config::is_plugin_extension;
use mwscript::config::parse_cfg;
use mwscript::config::BaseDir;
use mwscript::config::Candidate;
use mwscript::config::CopyOutcome;
use mwscript::config::CopyReport;
use mwscript::config::Manifest;
use mwscript::config::PluginFile;

fn lines(text: &str) -> Vec<String> {
    text.lines().map(|l| l.to_string()).collect()
}

fn strings(list: &[&str]) -> Vec<String> {
    list.iter().map(|t| t.to_string()).collect()
}

fn get_cfg() -> (Vec<String>, usize, usize) {
    let text = "\
# comment
fallback-archive=Morrowind.bsa
data=\"tests/assets/mods/mod1\"
data=\"tests/assets/mods/mod2\"
data=\"tests/assets/Data Files\"
encoding=win1252
content=Morrowind.esm
content=Tribunal.esm
content=Bloodmoon.esm
content=mod1.esp
content=mod2.omwaddon
";
    (lines(text), 3, 5)
}

fn get_cfg_full() -> (Vec<String>, usize, usize) {
    let mut all = vec!["fallback=x".to_string()];
    for i in 0..806 {
        all.push(format!("data=\"/mods/dir {}\"", i));
        if i % 7 == 0 {
            all.push(String::new());
        }
    }
    for i in 0..578 {
        all.push(format!("content=plugin {}.esp", i));
    }
    (all, 806, 578)
}

fn file(dir: &str, name: &str) -> PluginFile {
    PluginFile { path: format!("{}/{}", dir, name), name: name.to_string() }
}

fn found_files() -> Vec<PluginFile> {
    vec![
        file("tests/assets/mods/mod1", "mod1.esp"),
        file("tests/assets/mods/mod1", "unused.esp"),
        file("tests/assets/mods/mod2", "mod2.omwaddon"),
        file("tests/assets/Data Files", "Bloodmoon.esm"),
        file("tests/assets/Data Files", "Morrowind.esm"),
        file("tests/assets/Data Files", "Tribunal.esm"),
        file("tests/assets/Data Files", "other.omwscripts"),
    ]
}

#[test]
fn test_parse() {
    let (cfg, d, c) = get_cfg();
    let (data_dirs, plugin_names) = parse_cfg(&cfg);
    assert_eq!(data_dirs.len(), d);
    assert_eq!(plugin_names.len(), c);

    let (cfg, d, c) = get_cfg_full();
    let (data_dirs, plugin_names) = parse_cfg(&cfg);
    assert_eq!(data_dirs.len(), d);
    assert_eq!(plugin_names.len(), c);
}

#[test]
fn test_manifest() {
    let (cfg, d, c) = get_cfg();
    let (data_dirs, plugin_names) = parse_cfg(&cfg);
    assert_eq!(data_dirs.len(), d);
    assert_eq!(plugin_names.len(), c);
    let files = get_plugins(found_files(), &plugin_names);
    assert_eq!(files.len(), plugin_names.len());
}

#[test]
fn test_copy() {
    let (cfg, d, c) = get_cfg();
    let (data_dirs, plugin_names) = parse_cfg(&cfg);
    assert_eq!(data_dirs.len(), d);
    assert_eq!(plugin_names.len(), c);

    let files = get_plugins(found_files(), &plugin_names);
    assert_eq!(files.len(), plugin_names.len());

    let reports: Vec<CopyReport> = files
        .iter()
        .map(|f| CopyReport { name: f.name.clone(), outcome: CopyOutcome::Copied })
        .collect();
    let mut manifest = Manifest::default();
    copy_files(&reports, &mut manifest);
    assert!(!manifest.files.is_empty());
    let count = manifest.files.len();
    assert_eq!(count, c);

    let to_delete = cleanup(&manifest);
    assert_eq!(to_delete.len(), c);
}

#[test]
fn parsed_values() {
    let (cfg, _, _) = get_cfg();
    let (data_dirs, plugin_names) = parse_cfg(&cfg);
    assert_eq!(
        data_dirs,
        strings(&["tests/assets/mods/mod1", "tests/assets/mods/mod2", "tests/assets/Data Files"])
    );
    assert_eq!(
        plugin_names,
        strings(&["Morrowind.esm", "Tribunal.esm", "Bloodmoon.esm", "mod1.esp", "mod2.omwaddon"])
    );
}

#[test]
fn parse_of_nothing() {
    assert_eq!(parse_cfg(&vec![]), (vec![], vec![]));
    assert_eq!(parse_cfg(&lines("a=b\n\n#data=x\n content=y")), (vec![], vec![]));
}

#[test]
fn data_lines() {
    assert_eq!(data_dir("data=\"C:\\Data Files\""), Some("C:\\Data Files".to_string()));
    assert_eq!(data_dir("data=/plain/path"), Some("/plain/path".to_string()));
    assert_eq!(data_dir("data=a\"b\"c"), Some("abc".to_string()));
    assert_eq!(data_dir("data="), Some(String::new()));
    assert_eq!(data_dir("data"), None);
    assert_eq!(data_dir("Data=x"), None);
    assert_eq!(data_dir(" data=x"), None);
    assert_eq!(data_dir("data-local=x"), None);
    assert_eq!(data_dir("content=x"), None);
}

#[test]
fn content_lines() {
    assert_eq!(content_name("content=Morrowind.esm"), Some("Morrowind.esm".to_string()));
    assert_eq!(content_name("content=\"quoted.esp\""), Some("\"quoted.esp\"".to_string()));
    assert_eq!(content_name("content="), Some(String::new()));
    assert_eq!(content_name("content"), None);
    assert_eq!(content_name("data=x"), None);
}

#[test]
fn active_plugins_keep_the_order_in_which_they_were_found() {
    let names = strings(&["Morrowind.esm", "mod1.esp", "absent.esp"]);
    let files = get_plugins(found_files(), &names);
    assert_eq!(
        files,
        vec![
            file("tests/assets/mods/mod1", "mod1.esp"),
            file("tests/assets/Data Files", "Morrowind.esm"),
        ]
    );
    assert_eq!(get_plugins(found_files(), &[]), vec![]);
    assert_eq!(get_plugins(vec![], &names), vec![]);
}

#[test]
fn same_name_in_two_directories_is_kept_twice() {
    let found = vec![file("a", "m.esp"), file("b", "m.esp")];
    let files = get_plugins(found.clone(), &strings(&["m.esp"]));
    assert_eq!(files, found);
}

#[test]
fn plugin_extensions() {
    for ext in ["esm", "esp", "omwaddon", "omwscripts"] {
        assert!(is_plugin_extension(ext));
    }
    for ext in ["ESP", "Esm", "bsa", "", "esp ", "omwaddons", "txt"] {
        assert!(!is_plugin_extension(ext));
    }
}

#[test]
fn manifest_of_mixed_outcomes() {
    let reports = vec![
        CopyReport { name: "a.esp".to_string(), outcome: CopyOutcome::Copied },
        CopyReport { name: "b.esp".to_string(), outcome: CopyOutcome::InPlace },
        CopyReport { name: "c.esp".to_string(), outcome: CopyOutcome::Failed },
        CopyReport { name: "d.esp".to_string(), outcome: CopyOutcome::InPlace },
        CopyReport { name: "e.esp".to_string(), outcome: CopyOutcome::Copied },
    ];
    let mut manifest = Manifest {
        files: strings(&["old"]),
        existing_files: strings(&["older"]),
    };
    copy_files(&reports, &mut manifest);
    assert_eq!(manifest.files, strings(&["a.esp", "b.esp", "d.esp", "e.esp"]));
    assert_eq!(manifest.existing_files, strings(&["b.esp", "d.esp"]));
    assert_eq!(cleanup(&manifest), strings(&["a.esp", "e.esp"]));
}

#[test]
fn manifest_of_no_copy() {
    let mut manifest = Manifest { files: strings(&["x"]), existing_files: strings(&["x"]) };
    copy_files(&vec![], &mut manifest);
    assert_eq!(manifest, Manifest::default());
    assert_eq!(cleanup(&manifest), Vec::<String>::new());
}

#[test]
fn default_manifest_is_empty() {
    let m = Manifest::default();
    assert!(m.files.is_empty());
    assert!(m.existing_files.is_empty());
}

#[test]
fn cleanup_spares_existing_files() {
    let manifest = Manifest {
        files: strings(&["a", "b", "a", "c"]),
        existing_files: strings(&["b", "zzz"]),
    };
    assert_eq!(cleanup(&manifest), strings(&["a", "a", "c"]));
    let all_existing = Manifest { files: strings(&["a", "b"]), existing_files: strings(&["b", "a"]) };
    assert_eq!(cleanup(&all_existing), Vec::<String>::new());
}

#[test]
fn given_configuration_path() {
    let good = Candidate { path: "openmw.cfg".to_string(), exists: true, is_file: true };
    assert_eq!(check_cfg_path(Some(good), Some("default".to_string())), Some("openmw.cfg".to_string()));
    let absent = Candidate { path: "openmw.cfg".to_string(), exists: false, is_file: false };
    assert_eq!(check_cfg_path(Some(absent), Some("default".to_string())), None);
    let dir = Candidate { path: "openmw".to_string(), exists: true, is_file: false };
    assert_eq!(check_cfg_path(Some(dir), Some("default".to_string())), None);
    let odd = Candidate { path: "x".to_string(), exists: false, is_file: true };
    assert_eq!(check_cfg_path(Some(odd), None), None);
}

#[test]
fn default_configuration_path() {
    assert_eq!(check_cfg_path(None, Some("default".to_string())), Some("default".to_string()));
    assert_eq!(check_cfg_path(None, None), None);
}

#[test]
fn default_locations() {
    let linux = default_location("linux").unwrap();
    assert_eq!(linux.base, BaseDir::Config);
    assert_eq!(linux.segments, strings(&["openmw.cfg"]));
    let macos = default_location("macos").unwrap();
    assert_eq!(macos.base, BaseDir::Preference);
    assert_eq!(macos.segments, strings(&["openmw", "openmw.cfg"]));
    let windows = default_location("windows").unwrap();
    assert_eq!(windows.base, BaseDir::Document);
    assert_eq!(windows.segments, strings(&["my games", "openmw", "openmw.cfg"]));
    assert_eq!(default_location("freebsd"), None);
    assert_eq!(default_location("Linux"), None);
    assert_eq!(default_location(""), None);
}
