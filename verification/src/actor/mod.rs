pub mod control_netlink;
pub mod counter_db;
pub mod data_netlink;
pub mod stats_reporter;
pub mod stats_report;
pub mod ipfix_decoder;
pub mod ipfix_templates;
pub mod ipfix_dump;
pub mod ipfix;
