//! Counter synchronisation for SONiC high-frequency telemetry.
//!
//! The library holds the verified core of the daemon: the netlink stream
//! framing, the generic-netlink control message parser, the IPFIX framing,
//! template bookkeeping and record decoding, the SAI statistic tables, and
//! the counter caches that feed the Redis writer and the console reporter.
pub mod assoc;
pub mod clock;
pub mod text;
pub mod wire;
pub mod message;
pub mod sai;
pub mod actor;
