use std::time::Duration;

use countersyncd::actor::counter_db::{
    convert_object_name_for_lookup, counters_key, get_counter_name_map_table, get_stat_name, object_type_of,
    oid_cache_key, CounterDBConfig, CounterDBState, CounterKey, CounterValue,
};
use countersyncd::message::saistats::{SAIStat, SAIStats};
use countersyncd::sai::SaiObjectType;

#[test]
fn test_counter_key_creation() {
    let key = CounterKey::new("Ethernet0".to_string(), 1, 0);
    assert_eq!(key.object_name, "Ethernet0");
    assert_eq!(key.type_id, 1);
    assert_eq!(key.stat_id, 0);
}

#[test]
fn test_counter_value_update() {
    let mut value = CounterValue::new(100);
    assert_eq!(value.counter, 100);
    assert!(value.updated);
    assert!(value.has_changed());

    value.mark_written();
    assert!(!value.updated);
    assert!(!value.has_changed());
    assert_eq!(value.last_written_value, Some(100));

    value.update(100);
    assert_eq!(value.counter, 100);
    assert!(!value.updated);
    assert!(!value.has_changed());

    value.update(200);
    assert_eq!(value.counter, 200);
    assert!(value.updated);
    assert!(value.has_changed());
}

#[test]
fn test_config_default() {
    let config = CounterDBConfig::default();
    assert_eq!(config.interval, Duration::from_secs(10));
}

#[test]
fn test_get_counter_name_map_table() {
    assert_eq!(get_counter_name_map_table(&SaiObjectType::Port), Ok("COUNTERS_PORT_NAME_MAP".to_string()));
    assert_eq!(get_counter_name_map_table(&SaiObjectType::Queue), Ok("COUNTERS_QUEUE_NAME_MAP".to_string()));
    assert_eq!(
        get_counter_name_map_table(&SaiObjectType::BufferPool),
        Ok("COUNTERS_BUFFER_POOL_NAME_MAP".to_string())
    );
    assert_eq!(
        get_counter_name_map_table(&SaiObjectType::IngressPriorityGroup),
        Ok("COUNTERS_INGRESS_PRIORITY_GROUP_NAME_MAP".to_string())
    );
}

#[test]
fn test_get_stat_name() {
    assert_eq!(get_stat_name(0, &SaiObjectType::Port), Ok("SAI_PORT_STAT_IF_IN_OCTETS".to_string()));
    assert_eq!(get_stat_name(1, &SaiObjectType::Port), Ok("SAI_PORT_STAT_IF_IN_UCAST_PKTS".to_string()));
    assert_eq!(get_stat_name(0, &SaiObjectType::Queue), Ok("SAI_QUEUE_STAT_PACKETS".to_string()));
    assert_eq!(get_stat_name(1, &SaiObjectType::Queue), Ok("SAI_QUEUE_STAT_BYTES".to_string()));
    assert_eq!(
        get_stat_name(0, &SaiObjectType::BufferPool),
        Ok("SAI_BUFFER_POOL_STAT_CURR_OCCUPANCY_BYTES".to_string())
    );
    assert_eq!(
        get_stat_name(1, &SaiObjectType::BufferPool),
        Ok("SAI_BUFFER_POOL_STAT_WATERMARK_BYTES".to_string())
    );
    assert_eq!(
        get_stat_name(0, &SaiObjectType::IngressPriorityGroup),
        Ok("SAI_INGRESS_PRIORITY_GROUP_STAT_PACKETS".to_string())
    );
    assert_eq!(
        get_stat_name(1, &SaiObjectType::IngressPriorityGroup),
        Ok("SAI_INGRESS_PRIORITY_GROUP_STAT_BYTES".to_string())
    );
    assert!(get_stat_name(0xFFFFFFFF, &SaiObjectType::Port).is_err());
    assert!(get_stat_name(0xFFFFFFFF, &SaiObjectType::Queue).is_err());
}

#[test]
fn test_convert_object_name_for_lookup() {
    assert_eq!(convert_object_name_for_lookup("Ethernet0"), "Ethernet0");
    assert_eq!(convert_object_name_for_lookup("Ethernet0|Queue1"), "Ethernet0:Queue1");
    assert_eq!(convert_object_name_for_lookup("Port|Lane0|Buffer1"), "Port|Lane0:Buffer1");
}

#[test]
fn unknown_stat_messages_name_the_type() {
    assert_eq!(get_stat_name(77777, &SaiObjectType::Port), Err("Unknown port stat ID: 77777".to_string()));
    assert_eq!(
        get_stat_name(4294967295, &SaiObjectType::IngressPriorityGroup),
        Err("Unknown ingress priority group stat ID: 4294967295".to_string())
    );
}

#[test]
fn object_types_by_id() {
    assert_eq!(object_type_of(1), Ok(SaiObjectType::Port));
    assert_eq!(object_type_of(21), Ok(SaiObjectType::Queue));
    assert_eq!(object_type_of(24), Ok(SaiObjectType::BufferPool));
    assert_eq!(object_type_of(26), Ok(SaiObjectType::IngressPriorityGroup));
    assert_eq!(object_type_of(7), Err("Unknown SAI object type: 7".to_string()));
}

#[test]
fn redis_keys_are_built_from_their_parts() {
    assert_eq!(oid_cache_key("COUNTERS_PORT_NAME_MAP", "Ethernet0"), "COUNTERS_PORT_NAME_MAP:Ethernet0");
    assert_eq!(counters_key("oid:0x1000000000013"), "COUNTERS:oid:0x1000000000013");
    assert_eq!(convert_object_name_for_lookup("a|b|"), "a|b:");
    assert_eq!(convert_object_name_for_lookup(""), "");
}

fn stat(name: &str, type_id: u32, stat_id: u32, counter: u64) -> SAIStat {
    SAIStat { object_name: name.to_string(), type_id, stat_id, counter }
}

#[test]
fn cache_tracks_which_counters_need_writing() {
    let mut state = CounterDBState::new();
    state.handle_stats_message(&SAIStats::new(1, vec![stat("Ethernet0", 1, 0, 10), stat("Ethernet4", 1, 1, 20)]));
    assert_eq!(state.total_messages_received, 1);
    let changed = state.changed_keys();
    assert_eq!(changed.len(), 2);
    for key in &changed {
        state.mark_counter_written(key);
    }
    assert!(state.changed_keys().is_empty());

    // The same reading again changes nothing; a new value makes one counter dirty.
    state.handle_stats_message(&SAIStats::new(2, vec![stat("Ethernet0", 1, 0, 10), stat("Ethernet4", 1, 1, 21)]));
    let changed = state.changed_keys();
    assert_eq!(changed, vec![CounterKey::new("Ethernet4".to_string(), 1, 1)]);
    state.record_write_cycle();
    assert_eq!(state.writes_performed, 1);
}

#[test]
fn oid_cache_keeps_what_was_stored() {
    let mut state = CounterDBState::new();
    let key = "COUNTERS_PORT_NAME_MAP:Ethernet0".to_string();
    assert_eq!(state.cached_oid(&key), None);
    state.cache_oid(key.clone(), "oid:0x1".to_string());
    assert_eq!(state.cached_oid(&key), Some("oid:0x1".to_string()));
}

#[test]
fn counter_back_at_written_value_is_unchanged() {
    let mut value = CounterValue::new(100);
    value.mark_written();
    value.update(150);
    assert!(value.has_changed());
    value.update(100);
    assert!(!value.has_changed());
    value.update(7);
    assert!(value.has_changed());
    assert_eq!(value.last_written_value, Some(100));
}
