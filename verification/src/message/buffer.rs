//! Raw socket payloads handed between actors.
use std::sync::Arc;
use vstd::prelude::*;

verus! {

/// One netlink payload (one IPFIX message), shared between recipients.
pub type SocketBufferMessage = Arc<Vec<u8>>;

} // verus!
