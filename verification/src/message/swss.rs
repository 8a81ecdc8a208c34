//! Telemetry session records of the SWSS state database.
use vstd::prelude::*;

verus! {

pub struct SwssCfgStreamTelemetry {}

pub struct SwssCfgTelemetryGroup {}

pub enum SessionStatus {
    Enabled,
    Disabled,
}

pub enum SessionType {
    Ipfix,
}

/// A telemetry session: its status, type and IPFIX template.
pub struct SwssStateTelemetrySession {
    session_status: SessionStatus,
    session_type: SessionType,
    session_template: Vec<u8>,
}

} // verus!
