use std::sync::Arc;
use std::time::Duration;

use countersyncd::actor::ipfix::IpfixState;
use countersyncd::actor::stats_report::ReportBody;
use countersyncd::actor::stats_reporter::{StatsReporterConfig, StatsReporterState};
use countersyncd::message::ipfix::IPFixTemplatesMessage;

fn create_test_ipfix_template() -> Vec<u8> {
    vec![
        0x00, 0x0A, 0x00, 0x2C, 0x00, 0x00, 0x00, 0x00, 0x00, 0x00, 0x00, 0x01, 0x00, 0x00, 0x00, 0x00, 0x00, 0x02,
        0x00, 0x1C, 0x01, 0x00, 0x00, 0x03, 0x01, 0x45, 0x00, 0x08, 0x80, 0x01, 0x00, 0x08, 0x00, 0x01, 0x00, 0x02,
        0x80, 0x02, 0x00, 0x08, 0x80, 0x03, 0x80, 0x04,
    ]
}

fn create_test_ipfix_data() -> Vec<u8> {
    vec![
        0x00, 0x0A, 0x00, 0x2C, 0x00, 0x00, 0x00, 0x00, 0x00, 0x00, 0x00, 0x02, 0x00, 0x00, 0x00, 0x00, 0x01, 0x00,
        0x00, 0x1C, 0x00, 0x00, 0x00, 0x00, 0x00, 0x00, 0x03, 0xE8, 0x00, 0x00, 0x00, 0x00, 0x00, 0x00, 0x07, 0xD0,
        0x00, 0x01, 0x00, 0x00, 0x00, 0x00, 0x00, 0x00, 0x0F, 0xA0,
    ]
}

fn reporter_config(limit: usize) -> StatsReporterConfig {
    StatsReporterConfig { interval: Duration::from_millis(100), detailed: true, max_stats_per_report: Some(limit) }
}

#[test]
fn test_end_to_end_ipfix_processing() {
    let mut ipfix = IpfixState::new();
    let mut reporter = StatsReporterState::new();
    ipfix.handle_template(&IPFixTemplatesMessage::new(
        "test_session|PORT".to_string(),
        Arc::new(create_test_ipfix_template()),
        Some(vec!["Ethernet0".to_string(), "Ethernet1".to_string()]),
    ));
    assert_eq!(ipfix.temporary_templates_map.len(), 1);

    for _ in 0..2 {
        let stats = ipfix.handle_record(Arc::new(create_test_ipfix_data()));
        assert_eq!(stats.len(), 1);
        assert_eq!(stats[0].observation_time, 1000);
        assert_eq!(stats[0].stats.len(), 2);
        for s in &stats {
            reporter.update_stats(s);
        }
    }
    // The data set applied the session's template.
    assert_eq!(ipfix.temporary_templates_map.len(), 0);
    assert_eq!(ipfix.applied_templates_map.get(&"test_session|PORT".to_string()), Some(&vec![256u16]));

    let report = reporter.generate_report(&reporter_config(10));
    assert_eq!(report.total_messages_received, 2);
    assert_eq!(report.total_unique_counters, 2);
    match report.body {
        ReportBody::Detailed { entries, more_counters, .. } => {
            assert_eq!(entries.len(), 2);
            assert_eq!(more_counters, None);
            assert!(entries.iter().all(|e| e.messages_in_period == 2));
        }
        other => panic!("unexpected body {:?}", other),
    }

    ipfix.handle_template(&IPFixTemplatesMessage::delete("test_session|PORT".to_string()));
    assert_eq!(ipfix.applied_templates_map.len(), 0);
    assert_eq!(ipfix.temporary_templates_map.len(), 0);
    assert_eq!(ipfix.object_names_map.len(), 0);
}

#[test]
fn test_direct_ipfix_data_injection() {
    let mut ipfix = IpfixState::new();
    let mut reporter = StatsReporterState::new();
    ipfix.handle_template(&IPFixTemplatesMessage::new(
        "direct_test".to_string(),
        Arc::new(create_test_ipfix_template()),
        Some(vec!["Ethernet0".to_string(), "Ethernet1".to_string()]),
    ));
    let stats = ipfix.handle_record(Arc::new(create_test_ipfix_data()));
    assert!(!stats.is_empty());
    for s in &stats {
        reporter.update_stats(s);
    }
    let report = reporter.generate_report(&reporter_config(5));
    assert_ne!(report.body, ReportBody::NoData);
    assert_eq!(report.total_unique_counters, 2);
}
