use std::sync::Arc;

use countersyncd::actor::ipfix_dump::ipfix_debug_dump;
use countersyncd::actor::ipfix_templates::message_templates_read_data;
use countersyncd::actor::ipfix::{
    get_ipfix_message_length, ipfix_framing_stalls, ipfix_message_header, ipfix_set_headers, IpfixSetHeader, get_observation_time, next_ipfix_frame, record_observation_time, record_stats,
    IpfixState,
};
use countersyncd::message::ipfix::{
    IpfixDataRecord, IpfixField, IpfixFieldKey, IpfixFieldSpec, IpfixValue, IPFixTemplatesMessage,
};
use countersyncd::message::saistats::{SAIStat, SAIStats};

const TEMPLATE_BYTES: [u8; 88] = [
    0x00, 0x0A, 0x00, 0x2C, 0x00, 0x00, 0x00, 0x00, 0x00, 0x00, 0x00, 0x01, 0x00, 0x00, 0x00, 0x00, 0x00, 0x02,
    0x00, 0x1C, 0x01, 0x00, 0x00, 0x03, 0x01, 0x45, 0x00, 0x08, 0x80, 0x01, 0x00, 0x08, 0x00, 0x01, 0x00, 0x02,
    0x80, 0x02, 0x00, 0x08, 0x80, 0x03, 0x80, 0x04, 0x00, 0x0A, 0x00, 0x2C, 0x00, 0x00, 0x00, 0x00, 0x00, 0x00,
    0x00, 0x01, 0x00, 0x00, 0x00, 0x00, 0x00, 0x02, 0x00, 0x1C, 0x01, 0x01, 0x00, 0x03, 0x01, 0x45, 0x00, 0x08,
    0x80, 0x01, 0x00, 0x08, 0x00, 0x01, 0x00, 0x02, 0x80, 0x02, 0x00, 0x08, 0x80, 0x03, 0x80, 0x04,
];

const VALID_RECORDS: [u8; 144] = [
    0x00, 0x0A, 0x00, 0x48, 0x00, 0x00, 0x00, 0x00, 0x00, 0x00, 0x00, 0x02, 0x00, 0x00, 0x00, 0x00, 0x01, 0x00,
    0x00, 0x1C, 0x00, 0x00, 0x00, 0x00, 0x00, 0x00, 0x00, 0x01, 0x00, 0x00, 0x00, 0x00, 0x00, 0x00, 0x00, 0x01,
    0x00, 0x00, 0x00, 0x00, 0x00, 0x00, 0x00, 0x01, 0x01, 0x00, 0x00, 0x1C, 0x00, 0x00, 0x00, 0x00, 0x00, 0x00,
    0x00, 0x02, 0x00, 0x00, 0x00, 0x00, 0x00, 0x00, 0x00, 0x02, 0x00, 0x00, 0x00, 0x00, 0x00, 0x00, 0x00, 0x03,
    0x00, 0x0A, 0x00, 0x48, 0x00, 0x00, 0x00, 0x00, 0x00, 0x00, 0x00, 0x02, 0x00, 0x00, 0x00, 0x00, 0x01, 0x00,
    0x00, 0x1C, 0x00, 0x00, 0x00, 0x00, 0x00, 0x00, 0x00, 0x01, 0x00, 0x00, 0x00, 0x00, 0x00, 0x00, 0x00, 0x01,
    0x00, 0x00, 0x00, 0x00, 0x00, 0x00, 0x00, 0x04, 0x01, 0x01, 0x00, 0x1C, 0x00, 0x00, 0x00, 0x00, 0x00, 0x00,
    0x00, 0x02, 0x00, 0x00, 0x00, 0x00, 0x00, 0x00, 0x00, 0x02, 0x00, 0x00, 0x00, 0x00, 0x00, 0x00, 0x00, 0x07,
];

fn stat(name: &str, type_id: u32, stat_id: u32, counter: u64) -> SAIStat {
    SAIStat { object_name: name.to_string(), type_id, stat_id, counter }
}

fn pair(time: u64, ext: u64, plain: u64) -> SAIStats {
    SAIStats {
        observation_time: time,
        stats: vec![stat("Ethernet1", 536870915, 536870916, ext), stat("Ethernet0", 1, 2, plain)],
    }
}

fn session_state() -> IpfixState {
    let mut state = IpfixState::new();
    state.handle_template(&IPFixTemplatesMessage::new(
        String::from("test_key"),
        Arc::new(Vec::from(TEMPLATE_BYTES)),
        Some(vec!["Ethernet0".to_string(), "Ethernet1".to_string()]),
    ));
    state
}

#[test]
fn test_ipfix() {
    let mut state = session_state();
    let invalid_len_record: [u8; 20] = [
        0x00, 0x0A, 0x00, 0x48, 0x00, 0x00, 0x00, 0x00, 0x00, 0x00, 0x00, 0x02, 0x00, 0x00, 0x00, 0x00, 0x01, 0x00,
        0x00, 0x1C,
    ];
    assert!(state.handle_record(Arc::new(Vec::from(invalid_len_record))).is_empty());

    let unknown_record: [u8; 44] = [
        0x00, 0x0A, 0x00, 0x2C, 0x00, 0x00, 0x00, 0x00, 0x00, 0x00, 0x00, 0x02, 0x00, 0x00, 0x00, 0x00, 0x03, 0x00,
        0x00, 0x1C, 0x00, 0x00, 0x00, 0x00, 0x00, 0x00, 0x00, 0x01, 0x00, 0x00, 0x00, 0x00, 0x00, 0x00, 0x00, 0x01,
        0x00, 0x00, 0x00, 0x00, 0x00, 0x00, 0x00, 0x01,
    ];
    assert!(state.handle_record(Arc::new(Vec::from(unknown_record))).is_empty());

    let received = state.handle_record(Arc::new(Vec::from(VALID_RECORDS)));
    let expected = vec![pair(1, 1, 1), pair(2, 3, 2), pair(1, 4, 1), pair(2, 7, 2)];
    assert_eq!(received, expected);
    assert_eq!(state.last_observer_time.map(|t| t >= 2), Some(true));
}

#[test]
fn applied_templates_move_out_of_the_temporary_table() {
    let mut state = session_state();
    assert_eq!(state.temporary_templates_map.len(), 2);
    assert_eq!(state.applied_templates_map.len(), 0);
    state.update_applied_template(256);
    assert_eq!(state.temporary_templates_map.len(), 0);
    assert_eq!(state.applied_templates_map.get(&"test_key".to_string()), Some(&vec![256u16, 257u16]));
    // An unknown template id changes nothing.
    state.update_applied_template(999);
    assert_eq!(state.applied_templates_map.len(), 1);
}

#[test]
fn withdrawing_a_session_forgets_it() {
    let mut state = session_state();
    state.insert_temporary_template(&"other".to_string(), &[300, 301]);
    state.update_applied_template(256);
    state.handle_template(&IPFixTemplatesMessage::delete("test_key".to_string()));
    assert_eq!(state.applied_templates_map.len(), 0);
    assert_eq!(state.object_names_map.len(), 0);
    assert_eq!(state.temporary_templates_map.len(), 2);
    assert_eq!(state.temporary_templates_map.get(&300), Some(&"other".to_string()));
    state.handle_template_deletion("other");
    assert_eq!(state.temporary_templates_map.len(), 0);
}

#[test]
fn template_message_without_bytes_changes_nothing() {
    let mut state = IpfixState::new();
    state.handle_template(&IPFixTemplatesMessage {
        key: "k".to_string(),
        templates: None,
        object_names: Some(vec!["x".to_string()]),
        is_delete: false,
    });
    assert_eq!(state.object_names_map.len(), 0);
    assert_eq!(state.temporary_templates_map.len(), 0);
}

#[test]
fn message_length_comes_from_the_header() {
    assert_eq!(get_ipfix_message_length(&[0x00, 0x0A, 0x01, 0x02]), Ok(0x0102));
    assert_eq!(get_ipfix_message_length(&[0x00, 0x0A, 0x01]), Err("Data too short for IPFIX header"));
    assert_eq!(next_ipfix_frame(&TEMPLATE_BYTES, 0), Some(44));
    assert_eq!(next_ipfix_frame(&TEMPLATE_BYTES, 44), Some(44));
    assert_eq!(next_ipfix_frame(&TEMPLATE_BYTES, 88), None);
    assert_eq!(next_ipfix_frame(&VALID_RECORDS[..100], 72), None);
}

fn field(id: u16, enterprise: Option<u32>, value: IpfixValue) -> IpfixField {
    IpfixField { key: IpfixFieldKey::Unrecognized(IpfixFieldSpec::new(enterprise, id, 8)), value }
}

#[test]
fn observation_time_priorities() {
    let full = IpfixDataRecord { values: vec![field(325, None, IpfixValue::Bytes(vec![0, 0, 0, 0, 0, 0, 1, 0]))] };
    assert_eq!(record_observation_time(&full), Some(256));
    assert_eq!(get_observation_time(&full), Some(256));

    let split = IpfixDataRecord {
        values: vec![
            field(322, None, IpfixValue::U32(3)),
            field(325, None, IpfixValue::Bytes(vec![0, 0, 0, 5])),
        ],
    };
    assert_eq!(record_observation_time(&split), Some(3_000_000_005));

    let seconds_only = IpfixDataRecord { values: vec![field(322, None, IpfixValue::U32(3))] };
    assert_eq!(record_observation_time(&seconds_only), None);
    assert!(get_observation_time(&seconds_only).is_some());

    let enterprise = IpfixDataRecord { values: vec![field(325, Some(7), IpfixValue::U64(9))] };
    assert_eq!(record_observation_time(&enterprise), None);

    let u64_wins = IpfixDataRecord {
        values: vec![field(325, None, IpfixValue::U64(9)), field(322, None, IpfixValue::U32(1)), field(325, None, IpfixValue::U32(1))],
    };
    assert_eq!(record_observation_time(&u64_wins), Some(9));
}

#[test]
fn time_fields_are_not_readings() {
    let record = IpfixDataRecord {
        values: vec![
            field(325, None, IpfixValue::U64(9)),
            field(1, Some(0x00010002), IpfixValue::Bytes(vec![0, 0, 0, 0, 0, 0, 0, 5])),
            IpfixField { key: IpfixFieldKey::Other, value: IpfixValue::U32(1) },
            field(322, Some(0x00150003), IpfixValue::Bytes(vec![1, 0])),
        ],
    };
    let names = vec!["Ethernet0".to_string()];
    let stats = record_stats(&record, &names);
    assert_eq!(stats, vec![stat("Ethernet0", 1, 2, 5), stat("unknown_322", 21, 3, 256)]);
}

#[test]
fn message_headers_and_sets() {
    let h = ipfix_message_header(&TEMPLATE_BYTES).unwrap();
    assert_eq!((h.version, h.length, h.export_time, h.sequence_number, h.observation_domain_id), (10, 44, 0, 1, 0));
    assert_eq!(ipfix_message_header(&TEMPLATE_BYTES[..15]), None);
    assert_eq!(
        ipfix_set_headers(&TEMPLATE_BYTES[..44]),
        Some(vec![IpfixSetHeader::Complete { offset: 16, set_id: 2, length: 28 }])
    );
    assert_eq!(
        ipfix_set_headers(&VALID_RECORDS[..72]),
        Some(vec![
            IpfixSetHeader::Complete { offset: 16, set_id: 256, length: 28 },
            IpfixSetHeader::Complete { offset: 44, set_id: 256, length: 28 },
        ])
    );
    let mut truncated = VALID_RECORDS[..60].to_vec();
    assert_eq!(
        ipfix_set_headers(&truncated),
        Some(vec![
            IpfixSetHeader::Complete { offset: 16, set_id: 256, length: 28 },
            IpfixSetHeader::Truncated { set_id: 256, length: 28 },
        ])
    );
    truncated[19] = 2;
    assert_eq!(ipfix_set_headers(&truncated), Some(vec![IpfixSetHeader::Invalid { set_id: 256, length: 2 }]));
    assert_eq!(ipfix_set_headers(&[0u8; 10]), None);

    assert!(!ipfix_framing_stalls(&TEMPLATE_BYTES));
    assert!(!ipfix_framing_stalls(&VALID_RECORDS[..100]));
    let mut zero = TEMPLATE_BYTES.to_vec();
    zero[46] = 0;
    zero[47] = 0;
    assert!(ipfix_framing_stalls(&zero));
}

// A template record whose fields all have length 0 describes records of no
// bytes; such a message is not decoded, so the template never reaches the
// decoder and a data set naming it decodes nothing.
const ZERO_LENGTH_TEMPLATE: [u8; 28] = [
    0x00, 0x0A, 0x00, 0x1C, 0x00, 0x00, 0x00, 0x00, 0x00, 0x00, 0x00, 0x01, 0x00, 0x00, 0x00, 0x00, 0x00, 0x02,
    0x00, 0x0C, 0x01, 0x02, 0x00, 0x01, 0x01, 0x45, 0x00, 0x00,
];

const DATA_FOR_ZERO_TEMPLATE: [u8; 24] = [
    0x00, 0x0A, 0x00, 0x18, 0x00, 0x00, 0x00, 0x00, 0x00, 0x00, 0x00, 0x02, 0x00, 0x00, 0x00, 0x00, 0x01, 0x02,
    0x00, 0x08, 0x00, 0x00, 0x00, 0x00,
];

#[test]
fn templates_without_data_are_not_decoded() {
    assert!(!message_templates_read_data(&ZERO_LENGTH_TEMPLATE));
    assert!(message_templates_read_data(&TEMPLATE_BYTES[..44]));
    assert!(message_templates_read_data(&DATA_FOR_ZERO_TEMPLATE));
    let mut state = IpfixState::new();
    state.handle_template(&IPFixTemplatesMessage::new(
        String::from("zero"),
        Arc::new(Vec::from(ZERO_LENGTH_TEMPLATE)),
        None,
    ));
    assert_eq!(state.temporary_templates_map.len(), 0);
    assert!(state.handle_record(Arc::new(Vec::from(DATA_FOR_ZERO_TEMPLATE))).is_empty());
}

#[test]
fn options_template_records_are_checked() {
    // Options template set: template 258, one field, one scope field of length 0.
    let msg: [u8; 30] = [
        0x00, 0x0A, 0x00, 0x1E, 0x00, 0x00, 0x00, 0x00, 0x00, 0x00, 0x00, 0x01, 0x00, 0x00, 0x00, 0x00, 0x00, 0x03,
        0x00, 0x0E, 0x01, 0x02, 0x00, 0x01, 0x00, 0x01, 0x00, 0x01, 0x00, 0x00,
    ];
    assert!(!message_templates_read_data(&msg));
    let mut with_length = msg;
    with_length[29] = 0x04;
    assert!(message_templates_read_data(&with_length));
}

#[test]
fn debug_dump_of_a_template_message() {
    let dump = ipfix_debug_dump(&TEMPLATE_BYTES[..44]).unwrap();
    assert_eq!(
        dump,
        "      Set 1 (records type: Discriminant(0)):\n\
         \x20       Type: Template or other set type\n\
         \x20       Templates found: 1\n\
         \x20       Template 1 (ID: 256, field_count: 3):\n\
         \x20         Field 1: ID=325, length=8, enterprise=None\n\
         \x20         Field 2: ID=1, length=8, enterprise=65538\n\
         \x20         Field 3: ID=2, length=8, enterprise=2147713028\n"
    );
}

#[test]
fn debug_dump_of_templates_and_data() {
    let mut msg: Vec<u8> = vec![0x00, 0x0A, 0x00, 0x48];
    msg.extend_from_slice(&TEMPLATE_BYTES[4..44]);
    msg.extend_from_slice(&VALID_RECORDS[16..44]);
    assert_eq!(msg.len(), 72);
    let dump = ipfix_debug_dump(&msg).unwrap();
    let lines: Vec<&str> = dump.lines().collect();
    assert_eq!(lines[0], "      Set 1 (records type: Discriminant(0)):");
    assert!(lines.contains(&"      Set 2 (records type: Discriminant(2)):"));
    assert!(lines.contains(&"        Type: Data Set (template_id: 256)"));
    assert!(lines.contains(&"        Data records count: 1"));
    assert!(lines.contains(&"        Record 1 (3 fields):"));
    assert!(lines.contains(&"          Field(id=325, enterprise=None): u64=1, hex=[00 00 00 00 00 00 00 01]"));
    assert_eq!(lines.len(), 7 + 4 + 3);
}

#[test]
fn debug_dump_without_templates_fails() {
    assert_eq!(ipfix_debug_dump(&VALID_RECORDS[..72]), Err("Failed to parse IPFIX message"));
}
