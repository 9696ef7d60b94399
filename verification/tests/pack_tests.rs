use mwscript::error::Error;
use mwscript::dump::FileName;
use mwscript::pack::header_position;
use mwscript::pack::holds_record;
use mwscript::pack::well_formed;
use mwscript::pack::pack;
use mwscript::pack::take_present;
use mwscript::record::Record;
use mwscript::record::RecordKind;

fn record(kind: RecordKind, id: &str) -> Record<String> {
    Record { kind, id: id.to_string(), text: None, payload: format!("payload of {}", id) }
}

fn read_in_directory_order() -> Vec<Option<Record<String>>> {
    vec![
        Some(record(RecordKind::Book, "bk_ash")),
        Some(record(RecordKind::Cell, "Ashlander Camp")),
        Some(record(RecordKind::Header, "Header")),
        Some(record(RecordKind::MiscItem, "ash_pot")),
        Some(record(RecordKind::Script, "ash_craft")),
    ]
}

fn expected_container() -> Vec<Record<String>> {
    vec![
        record(RecordKind::Header, "Header"),
        record(RecordKind::Book, "bk_ash"),
        record(RecordKind::Cell, "Ashlander Camp"),
        record(RecordKind::MiscItem, "ash_pot"),
        record(RecordKind::Script, "ash_craft"),
    ]
}

#[test]
fn test_pack_yaml() {
    assert_eq!(pack(read_in_directory_order(), false), Ok(expected_container()));
}

#[test]
fn test_pack_toml() {
    assert_eq!(pack(read_in_directory_order(), true), Ok(expected_container()));
}

#[test]
fn test_pack_json() {
    let packed = pack(read_in_directory_order(), false).unwrap();
    assert_eq!(packed[0].kind, RecordKind::Header);
    assert_eq!(packed.len(), 5);
}

#[test]
fn header_first_wherever_it_was() {
    for position in 0..4 {
        let mut records = vec![
            Some(record(RecordKind::Door, "a")),
            Some(record(RecordKind::Npc, "b")),
            Some(record(RecordKind::Spell, "c")),
        ];
        records.insert(position, Some(record(RecordKind::Header, "h")));
        let packed = pack(records, false).unwrap();
        assert_eq!(
            packed,
            vec![
                record(RecordKind::Header, "h"),
                record(RecordKind::Door, "a"),
                record(RecordKind::Npc, "b"),
                record(RecordKind::Spell, "c"),
            ]
        );
    }
}

#[test]
fn container_that_opens_with_its_header_is_unchanged() {
    let records = expected_container();
    let parsed: Vec<Option<Record<String>>> = records.iter().cloned().map(Some).collect();
    assert_eq!(pack(parsed, false), Ok(records));
}

#[test]
fn only_the_first_header_moves() {
    let parsed = vec![
        Some(record(RecordKind::Door, "a")),
        Some(record(RecordKind::Header, "first")),
        Some(record(RecordKind::Header, "second")),
    ];
    assert_eq!(
        pack(parsed, false),
        Ok(vec![
            record(RecordKind::Header, "first"),
            record(RecordKind::Door, "a"),
            record(RecordKind::Header, "second"),
        ])
    );
}

#[test]
fn no_header_is_fatal() {
    let parsed = vec![Some(record(RecordKind::Door, "a")), Some(record(RecordKind::Npc, "b"))];
    assert_eq!(pack(parsed, false), Err(Error::MissingHeader));
    let empty: Vec<Option<Record<String>>> = vec![];
    assert_eq!(pack(empty, true), Err(Error::MissingHeader));
    let gaps: Vec<Option<Record<String>>> = vec![None, None];
    assert_eq!(pack(gaps, true), Err(Error::MissingHeader));
}

#[test]
fn unreadable_file_is_skipped_when_allowed() {
    let parsed = vec![
        Some(record(RecordKind::Door, "a")),
        None,
        Some(record(RecordKind::Header, "h")),
        None,
        Some(record(RecordKind::Npc, "b")),
    ];
    assert_eq!(
        pack(parsed, true),
        Ok(vec![
            record(RecordKind::Header, "h"),
            record(RecordKind::Door, "a"),
            record(RecordKind::Npc, "b"),
        ])
    );
}

#[test]
fn unreadable_file_is_an_error_when_not_allowed() {
    let parsed = vec![
        Some(record(RecordKind::Header, "h")),
        None,
        Some(record(RecordKind::Npc, "b")),
    ];
    assert_eq!(pack(parsed, false), Err(Error::Incomplete));
    let no_header = vec![None, Some(record(RecordKind::Npc, "b"))];
    assert_eq!(pack(no_header, false), Err(Error::Incomplete));
}

#[test]
fn position_of_the_header() {
    let records = vec![
        record(RecordKind::Door, "a"),
        record(RecordKind::Header, "h"),
        record(RecordKind::Header, "h2"),
    ];
    assert_eq!(header_position(&records), Some(1));
    assert_eq!(header_position(&records[..1].to_vec()), None);
    let none: Vec<Record<String>> = vec![];
    assert_eq!(header_position(&none), None);
}

#[test]
fn present_records_keep_their_order() {
    let parsed = vec![
        None,
        Some(record(RecordKind::Door, "a")),
        None,
        Some(record(RecordKind::Npc, "b")),
    ];
    let (records, complete) = take_present(parsed);
    assert_eq!(records, vec![record(RecordKind::Door, "a"), record(RecordKind::Npc, "b")]);
    assert!(!complete);
    let (records, complete) = take_present(vec![Some(record(RecordKind::Door, "a"))]);
    assert_eq!(records.len(), 1);
    assert!(complete);
    let nothing: Vec<Option<Record<String>>> = vec![];
    assert_eq!(take_present(nothing), (vec![], true));
}

#[test]
fn payload_is_carried_through() {
    let parsed = vec![Some(record(RecordKind::Npc, "b")), Some(record(RecordKind::Header, "h"))];
    let packed = pack(parsed, false).unwrap();
    assert_eq!(packed[0].payload, "payload of h");
    assert_eq!(packed[1].payload, "payload of b");
}

#[test]
fn script_bodies_are_not_read_back() {
    let named = |stem: &str, ext: Option<&str>| FileName {
        stem: stem.to_string(),
        extension: ext.map(|e| e.to_string()),
    };
    assert!(!holds_record(&named("ash_craft", Some("mwscript"))));
    assert!(holds_record(&named("ash_craft", Some("yaml"))));
    assert!(holds_record(&named("ash_craft", Some("json"))));
    assert!(holds_record(&named("ash_craft", Some("toml"))));
    assert!(holds_record(&named("ash_craft", Some("MWSCRIPT"))));
    assert!(holds_record(&named("mwscript", None)));
}

#[test]
fn well_formed_containers() {
    assert!(well_formed(&expected_container()));
    assert!(well_formed(&vec![record(RecordKind::Header, "h")]));
    let empty: Vec<Record<String>> = vec![];
    assert!(!well_formed(&empty));
    assert!(!well_formed(&vec![record(RecordKind::Door, "a"), record(RecordKind::Header, "h")]));
    assert!(!well_formed(&vec![record(RecordKind::Header, "h"), record(RecordKind::Header, "h")]));
    assert!(!well_formed(&vec![record(RecordKind::Door, "a")]));
}

#[test]
fn packed_container_is_well_formed_and_packing_again_changes_nothing() {
    let packed = pack(read_in_directory_order(), false).unwrap();
    assert!(well_formed(&packed));
    let again: Vec<Option<Record<String>>> = packed.iter().cloned().map(Some).collect();
    assert_eq!(pack(again, false), Ok(packed));
}
