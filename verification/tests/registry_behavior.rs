use folder_events::EventEntry;
use folder_events::EventRegistry;
use folder_events::FolderEvent;
use folder_events::SchemaViolation;
use folder_events::folder_entries;
use folder_events::folder_registry;

fn entry(name: &str, code: i32) -> EventEntry {
    EventEntry { name: String::from(name), code }
}

#[test]
fn folder_registry_concrete_scenario() {
    let reg = folder_registry();
    assert_eq!(reg.code_of(&String::from("CreateApp")), Some(101));
    assert_eq!(reg.event_of(101), Some(String::from("CreateApp")));
    assert_eq!(reg.event_of(999), None);
    assert_eq!(reg.default_event(), String::from("CreateWorkspace"));
    assert_eq!(reg.code_of(&String::from("CreateWorkspace")), Some(0));
    assert_eq!(reg.code_of(&String::from("ReadCurWorkspace")), Some(1));
}

#[test]
fn folder_registry_matches_declared_events() {
    let reg = folder_registry();
    let names = reg.all_events();
    let events = FolderEvent::values();
    assert_eq!(names.len(), events.len());
    for (i, e) in events.iter().enumerate() {
        assert_eq!(names[i], String::from(e.name()));
        assert_eq!(reg.code_of(&names[i]), Some(e.value()));
        assert_eq!(reg.event_of(e.value()), Some(String::from(e.name())));
    }
}

#[test]
fn duplicate_code_is_a_schema_violation() {
    let entries = vec![entry("First", 7), entry("Second", 7)];
    let built = EventRegistry::from_entries(entries);
    assert!(matches!(built, Err(SchemaViolation::DuplicateCode)));
}

#[test]
fn duplicate_name_is_a_schema_violation() {
    let entries = vec![entry("Twice", 1), entry("Twice", 2)];
    let built = EventRegistry::from_entries(entries);
    assert!(matches!(built, Err(SchemaViolation::DuplicateName)));
}

#[test]
fn empty_schema_is_a_schema_violation() {
    let built = EventRegistry::from_entries(Vec::new());
    assert!(matches!(built, Err(SchemaViolation::EmptyRegistry)));
}

#[test]
fn small_valid_schema_builds_a_working_registry() {
    let entries = vec![entry("Alpha", 10), entry("Beta", 20)];
    let reg = EventRegistry::from_entries(entries).unwrap();
    assert_eq!(reg.event_of(10), Some(String::from("Alpha")));
    assert_eq!(reg.event_of(20), Some(String::from("Beta")));
    assert_eq!(reg.event_of(30), None);
    assert_eq!(reg.code_of(&String::from("Beta")), Some(20));
    assert_eq!(reg.code_of(&String::from("Gamma")), None);
    assert_eq!(reg.default_event(), String::from("Alpha"));
    let listed = reg.all_events();
    assert_eq!(listed, vec![String::from("Alpha"), String::from("Beta")]);
}

#[test]
fn appending_a_new_event_keeps_every_old_entry() {
    let reg = folder_registry();
    let before = reg.all_events();
    let grown = reg.append(entry("EmptyTrash", 305)).unwrap();
    let after = grown.all_events();
    assert_eq!(after.len(), before.len() + 1);
    for (i, name) in before.iter().enumerate() {
        assert_eq!(&after[i], name);
        assert_eq!(grown.code_of(name), reg.code_of(name));
    }
    assert_eq!(after[before.len()], String::from("EmptyTrash"));
    assert_eq!(grown.event_of(305), Some(String::from("EmptyTrash")));
    assert_eq!(grown.code_of(&String::from("EmptyTrash")), Some(305));
    for e in FolderEvent::values() {
        assert_eq!(grown.event_of(e.value()), Some(String::from(e.name())));
    }
}

#[test]
fn appending_a_used_code_is_rejected() {
    let reg = folder_registry();
    let res = reg.append(entry("Fresh", 0));
    assert!(matches!(res, Err(SchemaViolation::DuplicateCode)));
}

#[test]
fn appending_a_used_name_is_rejected() {
    let reg = folder_registry();
    let res = reg.append(entry("CreateApp", 999));
    assert!(matches!(res, Err(SchemaViolation::DuplicateName)));
}

#[test]
fn folder_entries_lists_the_declared_pairs() {
    let entries = folder_entries();
    assert_eq!(entries.len(), 24);
    assert_eq!(entries[0].name, String::from("CreateWorkspace"));
    assert_eq!(entries[0].code, 0);
    assert_eq!(entries[6].name, String::from("CreateApp"));
    assert_eq!(entries[6].code, 101);
    assert_eq!(entries[23].name, String::from("DeleteAllTrash"));
    assert_eq!(entries[23].code, 304);
}
