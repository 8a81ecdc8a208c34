//! Commands from the control actor to the data actor.
use vstd::prelude::*;

verus! {

/// Family and multicast group the data socket should join.
#[derive(Debug)]
pub struct SocketConnect {
    pub family: String,
    pub group: String,
}

/// Command for the data netlink actor.
#[derive(Debug)]
pub enum NetlinkCommand {
    Close,
    Reconnect,
    SocketConnect(SocketConnect),
}

} // verus!
