use countersyncd::message::ipfix::{IpfixFieldSpec, IpfixValue};
use countersyncd::message::saistats::{SAIStat, SAIStats, SAIStatsMessageExt, EXTENSIONS_RANGE_BASE};

fn create_field_spec(element_id: u16, enterprise_number: Option<u32>) -> IpfixFieldSpec {
    IpfixFieldSpec::new(enterprise_number, element_id, 8)
}

fn create_byte_value(value: u64) -> IpfixValue {
    IpfixValue::Bytes(value.to_be_bytes().to_vec())
}

#[test]
fn test_sai_stat_from_ipfix_basic() {
    let field_spec = create_field_spec(2, Some(0x12340000));
    let value = create_byte_value(12345);
    let object_names = vec!["Ethernet0".to_string(), "Ethernet1".to_string()];

    let stat = SAIStat::from_ipfix(&field_spec, &value, &object_names);

    assert_eq!(stat.object_name, "Ethernet1");
    assert_eq!(stat.type_id, 0x1234);
    assert_eq!(stat.stat_id, 0);
    assert_eq!(stat.counter, 12345);
}

#[test]
fn test_sai_stat_from_ipfix_with_extensions() {
    let enterprise_number = 0x80008000 | 0x12340567;
    let field_spec = create_field_spec(1, Some(enterprise_number));
    let value = create_byte_value(99999);
    let object_names = vec!["Ethernet0".to_string()];

    let stat = SAIStat::from_ipfix(&field_spec, &value, &object_names);

    assert_eq!(stat.object_name, "Ethernet0");
    assert_eq!(stat.type_id, 0x1234 + EXTENSIONS_RANGE_BASE);
    assert_eq!(stat.stat_id, 0x0567 + EXTENSIONS_RANGE_BASE);
    assert_eq!(stat.counter, 99999);
}

#[test]
fn test_sai_stat_from_ipfix_short_bytes() {
    let field_spec = create_field_spec(1, Some(0x00010002));
    let short_bytes = vec![0x12, 0x34];
    let value = IpfixValue::Bytes(short_bytes);
    let object_names = vec!["Ethernet0".to_string()];

    let stat = SAIStat::from_ipfix(&field_spec, &value, &object_names);

    assert_eq!(stat.object_name, "Ethernet0");
    assert_eq!(stat.counter, 0x1234);
}

#[test]
fn test_sai_stat_from_ipfix_non_bytes() {
    let field_spec = create_field_spec(1, Some(0x00050006));
    let value = IpfixValue::String("test".to_string());
    let object_names = vec!["Ethernet0".to_string()];

    let stat = SAIStat::from_ipfix(&field_spec, &value, &object_names);

    assert_eq!(stat.object_name, "Ethernet0");
    assert_eq!(stat.counter, 0);
}

#[test]
fn test_sai_stat_from_ipfix_invalid_label() {
    let field_spec = create_field_spec(5, Some(0x00010002));
    let value = create_byte_value(1000);
    let object_names = vec!["Ethernet0".to_string(), "Ethernet1".to_string()];

    let stat = SAIStat::from_ipfix(&field_spec, &value, &object_names);

    assert_eq!(stat.object_name, "unknown_5");
    assert_eq!(stat.type_id, 1);
    assert_eq!(stat.stat_id, 2);
    assert_eq!(stat.counter, 1000);
}

#[test]
fn test_sai_stat_from_ipfix_zero_label() {
    let field_spec = create_field_spec(0, Some(0x00010002));
    let value = create_byte_value(1000);
    let object_names = vec!["Ethernet0".to_string()];

    let stat = SAIStat::from_ipfix(&field_spec, &value, &object_names);

    assert_eq!(stat.object_name, "unknown_0");
    assert_eq!(stat.type_id, 1);
    assert_eq!(stat.stat_id, 2);
    assert_eq!(stat.counter, 1000);
}

#[test]
fn test_sai_stats_creation() {
    let stats = vec![
        SAIStat { object_name: "Ethernet0".to_string(), type_id: 100, stat_id: 200, counter: 1000 },
        SAIStat { object_name: "Ethernet1".to_string(), type_id: 101, stat_id: 201, counter: 2000 },
    ];

    let sai_stats = SAIStats::new(12345, stats.clone());

    assert_eq!(sai_stats.observation_time, 12345);
    assert_eq!(sai_stats.len(), 2);
    assert!(!sai_stats.is_empty());
    assert_eq!(sai_stats.stats, stats);
}

#[test]
fn test_sai_stats_equality() {
    let stats1 = vec![
        SAIStat { object_name: "Ethernet0".to_string(), type_id: 100, stat_id: 200, counter: 1000 },
        SAIStat { object_name: "Ethernet1".to_string(), type_id: 101, stat_id: 201, counter: 2000 },
    ];

    let stats2 = vec![
        SAIStat { object_name: "Ethernet1".to_string(), type_id: 101, stat_id: 201, counter: 2000 },
        SAIStat { object_name: "Ethernet0".to_string(), type_id: 100, stat_id: 200, counter: 1000 },
    ];

    let sai_stats1 = SAIStats::new(12345, stats1);
    let sai_stats2 = SAIStats::new(12345, stats2.clone());
    let sai_stats3 = SAIStats::new(12346, stats2);

    assert_eq!(sai_stats1, sai_stats2);
    assert_ne!(sai_stats1, sai_stats3);
}

#[test]
fn test_sai_stats_message_creation() {
    let stats = vec![SAIStat { object_name: "Ethernet0".to_string(), type_id: 100, stat_id: 200, counter: 1000 }];

    let message1 = SAIStats::new(12345, stats.clone()).into_message();
    let message2 = SAIStats::from_parts(12345, stats);

    assert_eq!(message1.observation_time, message2.observation_time);
    assert_eq!(message1.stats, message2.stats);
}

#[test]
fn test_extensions_range_overflow() {
    let enterprise_number = 0x80008000 | 0x7FFF7FFF;
    let field_spec = create_field_spec(1, Some(enterprise_number));
    let value = create_byte_value(555);
    let object_names = vec!["Ethernet0".to_string()];

    let stat = SAIStat::from_ipfix(&field_spec, &value, &object_names);

    assert_eq!(stat.type_id, 0x7FFF + EXTENSIONS_RANGE_BASE);
    assert_eq!(stat.stat_id, 0x7FFF + EXTENSIONS_RANGE_BASE);
    assert_eq!(stat.object_name, "Ethernet0");
}

#[test]
fn sai_stats_iterate_in_order() {
    let stats = vec![
        SAIStat { object_name: "a".to_string(), type_id: 1, stat_id: 2, counter: 3 },
        SAIStat { object_name: "b".to_string(), type_id: 4, stat_id: 5, counter: 6 },
    ];
    let s = SAIStats::new(7, stats.clone());
    let collected: Vec<SAIStat> = s.iter().cloned().collect();
    assert_eq!(collected, stats);
    assert!(SAIStats::new(1, Vec::new()).is_empty());
}

#[test]
fn sai_stats_equality_needs_equal_lengths() {
    let one = vec![SAIStat { object_name: "a".to_string(), type_id: 1, stat_id: 2, counter: 3 }];
    let two = vec![
        SAIStat { object_name: "a".to_string(), type_id: 1, stat_id: 2, counter: 3 },
        SAIStat { object_name: "a".to_string(), type_id: 1, stat_id: 2, counter: 3 },
    ];
    assert_ne!(SAIStats::new(1, one), SAIStats::new(1, two));
}

#[test]
fn stats_equality_is_symmetric() {
    let a = SAIStat { object_name: "Ethernet0".to_string(), type_id: 100, stat_id: 200, counter: 1000 };
    let mut b = a.clone();
    b.object_name = "Ethernet1".to_string();
    let x = SAIStats::new(1, vec![a.clone(), a.clone()]);
    let y = SAIStats::new(1, vec![a, b]);
    assert!(!(x == y));
    assert!(!(y == x));
}
