use folder_events::FolderEvent;
use folder_events::descriptor::descriptor_proto_data;
use folder_events::file_descriptor_proto;
use folder_events::folder_registry;
use folder_events::parse_descriptor_proto;

#[test]
fn embedded_artifact_parses() {
    assert!(parse_descriptor_proto().is_some());
    assert!(file_descriptor_proto().is_some());
}

#[test]
fn artifact_names_the_schema_file() {
    let proto = file_descriptor_proto().unwrap();
    assert_eq!(proto.get_name(), "event_map.proto");
    assert_eq!(proto.get_syntax(), "proto3");
}

#[test]
fn artifact_declares_the_folder_events() {
    let proto = file_descriptor_proto().unwrap();
    let enums = proto.get_enum_type();
    assert_eq!(enums.len(), 1);
    assert_eq!(enums[0].get_name(), "FolderEvent");
    let declared = enums[0].get_value();
    let events = FolderEvent::values();
    assert_eq!(declared.len(), events.len());
    for (i, e) in events.iter().enumerate() {
        assert_eq!(declared[i].get_name(), e.name());
        assert_eq!(declared[i].get_number(), e.value());
    }
}

#[test]
fn artifact_agrees_with_the_registry() {
    let proto = file_descriptor_proto().unwrap();
    let declared = proto.get_enum_type()[0].get_value();
    let reg = folder_registry();
    for v in declared {
        assert_eq!(reg.code_of(&String::from(v.get_name())), Some(v.get_number()));
        assert_eq!(reg.event_of(v.get_number()), Some(String::from(v.get_name())));
    }
}

#[test]
fn artifact_bytes_are_wire_format() {
    let data = descriptor_proto_data();
    assert_eq!(data.len(), 479);
    assert_eq!(data[0], 0x0a);
    assert_eq!(data[1], 0x0f);
    assert_eq!(&data[2..17], b"event_map.proto");
}
