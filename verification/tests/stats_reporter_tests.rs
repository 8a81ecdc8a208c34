use std::time::Duration;

use countersyncd::actor::stats_report::{ReportBody, ReportEntry};
use countersyncd::actor::stats_reporter::{
    remove_sai_prefix, stat_id_to_string, type_id_to_string, CounterKey, OutputWriter, StatsReporterConfig,
    StatsReporterState, TestWriter,
};
use countersyncd::message::saistats::{SAIStat, SAIStats};

fn create_test_stats(observation_time: u64, stat_count: usize) -> SAIStats {
    let stats = (0..stat_count)
        .map(|i| SAIStat {
            object_name: format!("Ethernet{}", i),
            type_id: (i * 100) as u32,
            stat_id: (i * 10) as u32,
            counter: (i * 1000) as u64,
        })
        .collect();
    SAIStats { observation_time, stats }
}

fn detailed(limit: Option<usize>) -> StatsReporterConfig {
    StatsReporterConfig { interval: Duration::from_millis(200), detailed: true, max_stats_per_report: limit }
}

#[test]
fn test_stats_reporter_no_data() {
    let mut state = StatsReporterState::new();
    let report = state.generate_report(&detailed(None));
    assert_eq!(report.report_number, 1);
    assert_eq!(report.total_unique_counters, 0);
    assert_eq!(report.total_messages_received, 0);
    assert_eq!(report.body, ReportBody::NoData);
    assert_eq!(state.reports_generated, 1);
}

#[test]
fn test_stats_reporter_basic_functionality() {
    let mut state = StatsReporterState::new();
    state.update_stats(&create_test_stats(12345, 5));
    state.update_stats(&create_test_stats(67890, 2));
    assert_eq!(state.total_messages_received, 2);
    let report = state.generate_report(&detailed(Some(3)));
    assert_eq!(report.total_unique_counters, 5);
    match report.body {
        ReportBody::Detailed { entries, heading_only, more_counters } => {
            assert_eq!(entries.len(), 3);
            assert_eq!(heading_only, None);
            assert_eq!(more_counters, Some(2));
            // Readings of the first two counters came twice in this period.
            assert_eq!(entries[0].messages_in_period, 2);
            assert_eq!(entries[1].messages_in_period, 2);
            assert_eq!(entries[2].messages_in_period, 1);
        }
        other => panic!("unexpected body {:?}", other),
    }
    // The period counts start again after a report.
    assert!(state.messages_per_counter.len() == 0);
}

#[test]
fn test_stats_reporter_max_stats_limit() {
    let mut state = StatsReporterState::new();
    state.update_stats(&create_test_stats(55555, 5));
    let report = state.generate_report(&detailed(Some(2)));
    assert_eq!(report.total_unique_counters, 5);
    match report.body {
        ReportBody::Detailed { entries, more_counters, .. } => {
            let names: Vec<&str> = entries.iter().map(|e| e.object_name.as_str()).collect();
            assert_eq!(names, vec!["Ethernet0", "Ethernet1"]);
            assert_eq!(more_counters, Some(3));
            assert!(entries.iter().all(|e| e.starts_group && e.index == 1));
        }
        other => panic!("unexpected body {:?}", other),
    }
}

#[test]
fn test_stats_reporter_summary_mode() {
    let mut state = StatsReporterState::new();
    state.update_stats(&create_test_stats(99999, 3));
    let config = StatsReporterConfig { interval: Duration::from_millis(100), detailed: false, max_stats_per_report: None };
    let report = state.generate_report(&config);
    assert_eq!(
        report.body,
        ReportBody::Summary { total_counter_value: 3000, unique_types: 3, unique_objects: 3, messages_in_period: 3 }
    );
}

#[test]
fn test_stats_reporter_sai_stat_names() {
    let mut state = StatsReporterState::new();
    let stats = vec![
        SAIStat { object_name: "Ethernet0".to_string(), type_id: 1, stat_id: 0, counter: 832 },
        SAIStat { object_name: "Ethernet16".to_string(), type_id: 1, stat_id: 1, counter: 1664 },
    ];
    state.update_stats(&SAIStats { observation_time: 12345, stats });
    let report = state.generate_report(&detailed(None));
    match report.body {
        ReportBody::Detailed { entries, .. } => {
            let names: Vec<&str> = entries.iter().map(|e| e.stat_name.as_str()).collect();
            assert_eq!(names, vec!["IF_IN_OCTETS", "IF_IN_UCAST_PKTS"]);
            assert_eq!(entries[0].type_label, "Port");
            assert!(entries[0].starts_group);
            assert!(!entries[1].starts_group);
            assert_eq!(entries[1].index, 2);
            assert_eq!(entries[0].last_time, "1970-01-01 00:00:00.000012345 UTC");
        }
        other => panic!("unexpected body {:?}", other),
    }
}

#[test]
fn report_order_is_type_then_name_then_stat() {
    let mut state = StatsReporterState::new();
    let stats = vec![
        SAIStat { object_name: "b".to_string(), type_id: 21, stat_id: 1, counter: 1 },
        SAIStat { object_name: "a".to_string(), type_id: 21, stat_id: 9, counter: 2 },
        SAIStat { object_name: "a".to_string(), type_id: 21, stat_id: 3, counter: 3 },
        SAIStat { object_name: "z".to_string(), type_id: 1, stat_id: 0, counter: 4 },
        SAIStat { object_name: "Ethernet10".to_string(), type_id: 1, stat_id: 0, counter: 5 },
        SAIStat { object_name: "Ethernet9".to_string(), type_id: 1, stat_id: 0, counter: 6 },
    ];
    state.update_stats(&SAIStats { observation_time: 1, stats });
    let keys: Vec<(String, u32, u32)> =
        state.sorted_counter_keys().into_iter().map(|k| (k.object_name, k.type_id, k.stat_id)).collect();
    assert_eq!(
        keys,
        vec![
            ("Ethernet10".to_string(), 1, 0),
            ("Ethernet9".to_string(), 1, 0),
            ("z".to_string(), 1, 0),
            ("a".to_string(), 21, 3),
            ("a".to_string(), 21, 9),
            ("b".to_string(), 21, 1),
        ]
    );
    let report = state.generate_report(&detailed(None));
    match report.body {
        ReportBody::Detailed { entries, .. } => {
            let groups: Vec<(bool, usize, &str)> =
                entries.iter().map(|e| (e.starts_group, e.index, e.type_label.as_str())).collect();
            assert_eq!(
                groups,
                vec![
                    (true, 1, "Port"),
                    (false, 2, "Port"),
                    (false, 3, "Port"),
                    (true, 1, "Queue"),
                    (false, 2, "Queue"),
                    (false, 3, "Queue"),
                ]
            );
        }
        other => panic!("unexpected body {:?}", other),
    }
}

#[test]
fn zero_limit_shows_only_the_first_heading() {
    let mut state = StatsReporterState::new();
    state.update_stats(&create_test_stats(1, 2));
    let report = state.generate_report(&detailed(Some(0)));
    assert_eq!(
        report.body,
        ReportBody::Detailed { entries: Vec::<ReportEntry>::new(), heading_only: Some(0), more_counters: Some(2) }
    );
}

#[test]
fn latest_reading_wins() {
    let mut state = StatsReporterState::new();
    state.update_stats(&SAIStats {
        observation_time: 5,
        stats: vec![SAIStat { object_name: "e".to_string(), type_id: 1, stat_id: 0, counter: 1 }],
    });
    state.update_stats(&SAIStats {
        observation_time: 6,
        stats: vec![SAIStat { object_name: "e".to_string(), type_id: 1, stat_id: 0, counter: 9 }],
    });
    let key = CounterKey::new("e".to_string(), 1, 0);
    let info = state.latest_counters.get(&key).unwrap();
    assert_eq!(info.counter, 9);
    assert_eq!(info.last_observation_time, 6);
    assert_eq!(state.messages_per_counter.get(&key), Some(&2));
    assert!(state.counts_fit(5));
}

#[test]
fn names_of_types_and_statistics() {
    assert_eq!(type_id_to_string(1), "Port");
    assert_eq!(type_id_to_string(21), "Queue");
    assert_eq!(type_id_to_string(24), "BufferPool");
    assert_eq!(type_id_to_string(26), "IngressPriorityGroup");
    assert_eq!(type_id_to_string(7), "UNKNOWN(7)");
    assert_eq!(stat_id_to_string(1, 0), "IF_IN_OCTETS");
    assert_eq!(stat_id_to_string(21, 1), "BYTES");
    assert_eq!(stat_id_to_string(1, 999999), "UNKNOWN_PORT_STAT_999999");
    assert_eq!(stat_id_to_string(21, 999999), "UNKNOWN_QUEUE_STAT_999999");
    assert_eq!(stat_id_to_string(24, 999999), "UNKNOWN_BUFFER_POOL_STAT_999999");
    assert_eq!(stat_id_to_string(26, 999999), "UNKNOWN_IPG_STAT_999999");
    assert_eq!(stat_id_to_string(3, 4), "INVALID_TYPE_3_STAT_4");
}

#[test]
fn sai_prefixes_are_removed() {
    assert_eq!(remove_sai_prefix("SAI_PORT_STAT_IF_IN_OCTETS"), "IF_IN_OCTETS");
    assert_eq!(remove_sai_prefix("SAI_QUEUE_STAT_STAT_X"), "STAT_X");
    assert_eq!(remove_sai_prefix("PORT_STAT_X"), "PORT_STAT_X");
    assert_eq!(remove_sai_prefix("SAI_PORT_X"), "SAI_PORT_X");
    assert_eq!(remove_sai_prefix("SAI_"), "SAI_");
    assert_eq!(remove_sai_prefix("SAI_STAT_"), "");
    assert_eq!(remove_sai_prefix("SAI__STAT_"), "");
}

#[test]
fn test_writer_keeps_lines() {
    let mut w = TestWriter::new();
    w.write_line("one");
    w.write_line("two");
    assert_eq!(w.get_output(), &["one".to_string(), "two".to_string()]);
}

#[test]
fn default_reporter_configuration() {
    let c = StatsReporterConfig::default();
    assert_eq!(c.interval, Duration::from_secs(10));
    assert!(c.detailed);
    assert_eq!(c.max_stats_per_report, None);
}
