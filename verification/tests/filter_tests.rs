use mwscript::filter::contains;
use mwscript::filter::passes;
use mwscript::record::RecordKind;

fn tags(list: &[&str]) -> Vec<String> {
    list.iter().map(|t| t.to_string()).collect()
}

#[test]
fn excluded_tag_is_rejected_even_when_included() {
    let included = tags(&["SCPT"]);
    let excluded = tags(&["SCPT"]);
    assert!(!passes("SCPT", &included, &excluded));
}

#[test]
fn empty_lists_accept_every_tag() {
    assert!(passes("SCPT", &[], &[]));
    assert!(passes("TES3", &[], &[]));
    assert!(passes("anything", &[], &[]));
    assert!(passes("", &[], &[]));
}

#[test]
fn empty_included_list_means_no_restriction() {
    let excluded = tags(&["CELL", "LAND"]);
    assert!(passes("SCPT", &[], &excluded));
    assert!(passes("MISC", &[], &excluded));
    assert!(!passes("CELL", &[], &excluded));
    assert!(!passes("LAND", &[], &excluded));
}

#[test]
fn non_empty_included_list_restricts() {
    let included = tags(&["SCPT", "MISC"]);
    assert!(passes("SCPT", &included, &[]));
    assert!(passes("MISC", &included, &[]));
    assert!(!passes("CELL", &included, &[]));
    assert!(!passes("TES3", &included, &[]));
}

#[test]
fn included_and_excluded_together() {
    let included = tags(&["SCPT", "MISC", "BOOK"]);
    let excluded = tags(&["MISC"]);
    assert!(passes("SCPT", &included, &excluded));
    assert!(!passes("MISC", &included, &excluded));
    assert!(passes("BOOK", &included, &excluded));
    assert!(!passes("DOOR", &included, &excluded));
}

#[test]
fn tags_are_compared_exactly() {
    let included = tags(&["SCPT"]);
    assert!(!passes("scpt", &included, &[]));
    assert!(!passes("SCP", &included, &[]));
    assert!(!passes("SCPTX", &included, &[]));
    let excluded = tags(&["scpt"]);
    assert!(passes("SCPT", &[], &excluded));
}

#[test]
fn unknown_tags_in_the_lists_match_no_record() {
    let excluded = tags(&["XXXX", "not a tag"]);
    let included = tags(&["SCPT", "YYYY"]);
    for kind in [RecordKind::Header, RecordKind::Script, RecordKind::Cell, RecordKind::Npc] {
        assert!(passes(kind.tag(), &[], &excluded));
        assert_eq!(
            passes(kind.tag(), &included, &[]),
            passes(kind.tag(), &tags(&["SCPT"]), &[])
        );
    }
}

#[test]
fn order_and_repetition_do_not_matter() {
    let a = tags(&["SCPT", "MISC", "SCPT"]);
    let b = tags(&["MISC", "SCPT"]);
    for tag in ["SCPT", "MISC", "CELL", "TES3"] {
        assert_eq!(passes(tag, &a, &[]), passes(tag, &b, &[]));
        assert_eq!(passes(tag, &[], &a), passes(tag, &[], &b));
    }
}

#[test]
fn contains_finds_exact_items() {
    let list = tags(&["a", "bc", ""]);
    assert!(contains(&list, "a"));
    assert!(contains(&list, "bc"));
    assert!(contains(&list, ""));
    assert!(!contains(&list, "b"));
    assert!(!contains(&list, "abc"));
    assert!(!contains(&[], "a"));
}
