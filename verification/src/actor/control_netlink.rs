//! Generic-netlink control messages.
//!
//! The control actor listens on the `nlctrl` notify group. A message matters
//! to it when it announces the registration or removal (`CTRL_CMD_NEWFAMILY`,
//! `CTRL_CMD_DELFAMILY`) of the family the daemon reads from; such a message
//! makes the data socket reconnect.
use vstd::prelude::*;
use crate::actor::data_netlink::NetlinkParseError;
use crate::wire::{le_u16_at, read_le_u16};
use vstd::string::StringSliceAdditionalSpecFns;

verus! {

/// Minimum netlink message header size in bytes.
pub const NETLINK_HEADER_SIZE: usize = 16;
/// Netlink message type of generic-netlink control messages.
pub const NETLINK_GENERIC_TYPE: u16 = 16;
/// Generic-netlink control command: a family was registered.
pub const CTRL_CMD_NEWFAMILY: u8 = 1;
/// Generic-netlink control command: a family was removed.
pub const CTRL_CMD_DELFAMILY: u8 = 2;
/// Netlink attribute type carrying the family name.
pub const CTRL_ATTR_FAMILY_NAME: u16 = 2;
/// Netlink and generic-netlink headers together.
pub const GENL_HEADER_SIZE: usize = 20;

/// `name` is a NUL-terminated family name whose text (the bytes before the
/// first NUL) is exactly `target`.
pub open spec fn spec_name_is(name: Seq<u8>, target: Seq<u8>) -> bool {
    &&& target.len() < name.len()
    &&& name[target.len() as int] == 0
    &&& name.take(target.len() as int) == target
    &&& forall|i: int| 0 <= i < target.len() ==> #[trigger] target[i] != 0
}

/// Attribute length rounded up to the 4-byte netlink alignment.
pub open spec fn spec_attr_aligned_len(len: int) -> int {
    (len + 3) - (len + 3) % 4
}

/// Walk of the netlink attributes of `attrs` from `off`: true when some
/// `CTRL_ATTR_FAMILY_NAME` attribute, longer than its 4-byte header and lying
/// inside the buffer, names `target`. The walk stops at a truncated header or
/// at an attribute whose aligned length is zero.
pub open spec fn spec_attrs_name_target(attrs: Seq<u8>, off: int, target: Seq<u8>) -> bool
    decreases attrs.len() - off,
{
    if off < 0 || off + 4 > attrs.len() {
        false
    } else {
        let attr_len = le_u16_at(attrs, off);
        let attr_type = le_u16_at(attrs, off + 2);
        if attr_type == CTRL_ATTR_FAMILY_NAME && attr_len > 4 && off + attr_len <= attrs.len()
            && spec_name_is(attrs.subrange(off + 4, off + attr_len), target) {
            true
        } else if spec_attr_aligned_len(attr_len) <= 0 || off + spec_attr_aligned_len(attr_len) > attrs.len() {
            false
        } else {
            spec_attrs_name_target(attrs, off + spec_attr_aligned_len(attr_len), target)
        }
    }
}

/// Whether a control message announces that `target` was registered or
/// removed: a generic-netlink message (type 16) of at least 20 bytes whose
/// command is NEWFAMILY or DELFAMILY and whose attributes name `target`.
pub open spec fn spec_control_message_about(buf: Seq<u8>, target: Seq<u8>) -> bool {
    &&& buf.len() >= GENL_HEADER_SIZE
    &&& le_u16_at(buf, 4) == NETLINK_GENERIC_TYPE
    &&& (buf[16] == CTRL_CMD_NEWFAMILY || buf[16] == CTRL_CMD_DELFAMILY)
    &&& spec_attrs_name_target(buf.subrange(GENL_HEADER_SIZE as int, buf.len() as int), 0, target)
}

/// Law: a message announcing the removal of a family is about that family
/// exactly when the same message announcing its registration is.
pub proof fn lemma_removal_like_registration(buf: Seq<u8>, target: Seq<u8>)
    requires
        buf.len() >= GENL_HEADER_SIZE,
        buf[16] == CTRL_CMD_DELFAMILY,
    ensures
        spec_control_message_about(buf, target) == spec_control_message_about(buf.update(16, CTRL_CMD_NEWFAMILY), target),
{
    let other = buf.update(16, CTRL_CMD_NEWFAMILY);
    assert(other.subrange(GENL_HEADER_SIZE as int, other.len() as int) =~= buf.subrange(
        GENL_HEADER_SIZE as int,
        buf.len() as int,
    ));
    assert(le_u16_at(other, 4) == le_u16_at(buf, 4));
}

/// Law: a generic-netlink message (type 16) announcing the registration or
/// the removal of a family, whose first attribute is a family-name
/// attribute holding `target` and its terminating NUL, is about `target`.
pub proof fn lemma_family_name_announced(buf: Seq<u8>, target: Seq<u8>)
    requires
        buf.len() >= GENL_HEADER_SIZE + 4 + target.len() + 1,
        le_u16_at(buf, 4) == NETLINK_GENERIC_TYPE,
        buf[16] == CTRL_CMD_NEWFAMILY || buf[16] == CTRL_CMD_DELFAMILY,
        le_u16_at(buf, 20) == 4 + target.len() + 1,
        le_u16_at(buf, 22) == CTRL_ATTR_FAMILY_NAME,
        forall|i: int| 0 <= i < target.len() ==> buf[24 + i] == #[trigger] target[i] && target[i] != 0,
        buf[24 + target.len() as int] == 0,
    ensures
        spec_control_message_about(buf, target),
{
    let attrs = buf.subrange(GENL_HEADER_SIZE as int, buf.len() as int);
    assert(le_u16_at(attrs, 0) == le_u16_at(buf, 20));
    assert(le_u16_at(attrs, 2) == le_u16_at(buf, 22));
    let n = attrs.subrange(4, 0 + le_u16_at(attrs, 0));
    assert(n.take(target.len() as int) =~= target);
    assert(n[target.len() as int] == 0);
    assert(spec_name_is(n, target));
}

/// Law: only generic-netlink messages (type 16) that announce the
/// registration or the removal of a family are about a family.
pub proof fn lemma_only_family_announcements(buf: Seq<u8>, target: Seq<u8>)
    ensures
        spec_control_message_about(buf, target) ==> buf.len() >= GENL_HEADER_SIZE
            && le_u16_at(buf, 4) == NETLINK_GENERIC_TYPE
            && (buf[16] == CTRL_CMD_NEWFAMILY || buf[16] == CTRL_CMD_DELFAMILY),
{
}

/// Whether the NUL-terminated text of `name` is exactly `target`.
fn name_is(name: &[u8], target: &[u8]) -> (r: bool)
    ensures
        r == spec_name_is(name@, target@),
{
    let mut null_pos: usize = 0;
    while null_pos < name.len() && name[null_pos] != 0
        invariant
            null_pos <= name@.len(),
            forall|i: int| 0 <= i < null_pos ==> name@[i] != 0,
        decreases name@.len() - null_pos,
    {
        null_pos = null_pos + 1;
    }
    if null_pos == name.len() {
        assert(!spec_name_is(name@, target@)) by {
            if spec_name_is(name@, target@) {
                assert(name@[target@.len() as int] == 0);
            }
        }
        return false;
    }
    if null_pos != target.len() {
        assert(!spec_name_is(name@, target@)) by {
            if spec_name_is(name@, target@) {
                if target@.len() < null_pos {
                    assert(name@[target@.len() as int] != 0);
                } else {
                    assert(name@.take(target@.len() as int)[null_pos as int] == name@[null_pos as int]);
                    assert(target@[null_pos as int] != 0);
                }
            }
        }
        return false;
    }
    let mut i: usize = 0;
    while i < null_pos
        invariant
            i <= null_pos,
            null_pos == target@.len(),
            null_pos < name@.len(),
            forall|k: int| 0 <= k < null_pos ==> name@[k] != 0,
            forall|k: int| 0 <= k < i ==> name@[k] == target@[k],
        decreases null_pos - i,
    {
        if name[i] != target[i] {
            assert(name@.take(target@.len() as int)[i as int] != target@[i as int]);
            return false;
        }
        i = i + 1;
    }
    assert(name@.take(target@.len() as int) =~= target@);
    assert forall|k: int| 0 <= k < target@.len() implies #[trigger] target@[k] != 0 by {
        assert(name@[k] == target@[k]);
    }
    true
}

/// Searches the netlink attributes in `attrs_buffer` for a family-name
/// attribute naming `target_family`. Never fails.
pub fn parse_family_name_from_attrs(attrs_buffer: &[u8], target_family: &str) -> (r: Result<bool, NetlinkParseError>)
    ensures
        r == Ok::<bool, NetlinkParseError>(spec_attrs_name_target(attrs_buffer@, 0, target_family.spec_bytes())),
{
    let target = target_family.as_bytes();
    let len = attrs_buffer.len();
    let mut offset: usize = 0;
    while offset < len && len - offset >= 4
        invariant
            len == attrs_buffer@.len(),
            offset <= len,
            target@ == target_family.spec_bytes(),
            spec_attrs_name_target(attrs_buffer@, 0, target@)
                == spec_attrs_name_target(attrs_buffer@, offset as int, target@),
        decreases len - offset,
    {
        let attr_len = read_le_u16(attrs_buffer, offset) as usize;
        let attr_type = read_le_u16(attrs_buffer, offset + 2);
        if attr_type == CTRL_ATTR_FAMILY_NAME && attr_len > 4 {
            if attr_len <= len - offset {
                let name_bytes = slice_subrange_bytes(attrs_buffer, offset + 4, offset + attr_len);
                if name_is(name_bytes, target) {
                    return Ok(true);
                }
            }
        }
        let aligned_len = (attr_len + 3) - (attr_len + 3) % 4;
        if aligned_len == 0 {
            return Ok(false);
        }
        if aligned_len > len - offset {
            assert(spec_attrs_name_target(attrs_buffer@, offset + aligned_len, target@) == false);
            return Ok(false);
        }
        offset = offset + aligned_len;
    }
    Ok(false)
}

/// Sub-slice `s[i..j]`.
fn slice_subrange_bytes(s: &[u8], i: usize, j: usize) -> (r: &[u8])
    requires
        i <= j <= s@.len(),
    ensures
        r@ == s@.subrange(i as int, j as int),
{
    vstd::slice::slice_subrange(s, i, j)
}

/// Parses a netlink control message and tells whether it announces that
/// `target_family` was registered or removed. Short, non-generic or
/// unrelated messages give `Ok(false)`; the function never fails.
pub fn parse_control_message(buffer: &[u8], target_family: &str) -> (r: Result<bool, NetlinkParseError>)
    ensures
        r == Ok::<bool, NetlinkParseError>(spec_control_message_about(buffer@, target_family.spec_bytes())),
{
    let len = buffer.len();
    if len < NETLINK_HEADER_SIZE {
        return Ok(false);
    }
    let nl_type = read_le_u16(buffer, 4);
    if nl_type != NETLINK_GENERIC_TYPE {
        return Ok(false);
    }
    if len < GENL_HEADER_SIZE {
        return Ok(false);
    }
    let genl_cmd = buffer[16];
    if genl_cmd == CTRL_CMD_NEWFAMILY || genl_cmd == CTRL_CMD_DELFAMILY {
        if len > GENL_HEADER_SIZE {
            return parse_family_name_from_attrs(slice_subrange_bytes(buffer, GENL_HEADER_SIZE, len), target_family);
        }
        assert(buffer@.subrange(GENL_HEADER_SIZE as int, len as int).len() == 0);
        return Ok(false);
    }
    Ok(false)
}


/// Main-loop iterations between heartbeat log lines (a minute at 10 ms).
pub const HEARTBEAT_LOG_INTERVAL: u32 = 6000;
/// Main-loop iterations between periodic reconnect commands.
pub const PERIODIC_RECONNECT_INTERVAL: u32 = 6000;
/// Main-loop iterations between attempts to recreate a failing control socket.
pub const CONTROL_SOCKET_RECREATE_INTERVAL: u32 = 18000;
/// Milliseconds between two checks that the family exists.
pub const FAMILY_CHECK_INTERVAL_MS: u64 = 1000;

/// What the control loop does after reading its control socket.
#[derive(Debug, Clone, Copy, PartialEq, Eq, Structural)]
pub enum ControlStep {
    /// The message was about the family: send a reconnect command and start
    /// the next iteration.
    SendReconnect,
    /// Go on to the periodic family check.
    CheckFamily,
    /// The socket failed and it is time to recreate it; then go on to the
    /// periodic family check.
    RecreateSocket,
}

/// Decision state of the control loop.
#[derive(Debug, Clone, Copy, PartialEq, Eq, Structural)]
pub struct ControlMonitor {
    /// Main-loop iterations so far (wrapping).
    pub heartbeat_counter: u32,
    /// Iteration of the last periodic reconnect command.
    pub last_periodic_reconnect_counter: u32,
    /// Whether the family existed at the last check.
    pub family_was_available: bool,
}

impl ControlMonitor {
    /// No iteration yet; the family is assumed to exist.
    pub fn new() -> (r: Self)
        ensures
            r == (ControlMonitor { heartbeat_counter: 0, last_periodic_reconnect_counter: 0, family_was_available: true }),
    {
        ControlMonitor { heartbeat_counter: 0, last_periodic_reconnect_counter: 0, family_was_available: true }
    }

    /// Starts an iteration of the loop; returns whether a heartbeat line is
    /// due.
    pub fn tick(&mut self) -> (r: bool)
        ensures
            final(self).heartbeat_counter == vstd::wrapping::u32_specs::wrapping_add(old(self).heartbeat_counter, 1),
            final(self).last_periodic_reconnect_counter == old(self).last_periodic_reconnect_counter,
            final(self).family_was_available == old(self).family_was_available,
            r == (final(self).heartbeat_counter % HEARTBEAT_LOG_INTERVAL == 0),
    {
        self.heartbeat_counter = self.heartbeat_counter.wrapping_add(1);
        self.heartbeat_counter % HEARTBEAT_LOG_INTERVAL == 0
    }

    /// What to do after reading the control socket: `Some(about)` when a
    /// read succeeded (whether a message was about the family), `None` when
    /// it failed.
    pub fn on_control_result(&self, result: Option<bool>) -> (r: ControlStep)
        ensures
            r == (match result {
                Some(true) => ControlStep::SendReconnect,
                Some(false) => ControlStep::CheckFamily,
                None => if self.heartbeat_counter % CONTROL_SOCKET_RECREATE_INTERVAL == 0 {
                    ControlStep::RecreateSocket
                } else {
                    ControlStep::CheckFamily
                },
            }),
    {
        match result {
            Some(true) => ControlStep::SendReconnect,
            Some(false) => ControlStep::CheckFamily,
            None => if self.heartbeat_counter % CONTROL_SOCKET_RECREATE_INTERVAL == 0 {
                ControlStep::RecreateSocket
            } else {
                ControlStep::CheckFamily
            },
        }
    }

    /// Takes the result of a family check; returns whether to send a
    /// reconnect command. A family that appears is announced at once; one
    /// that stays is announced again once `PERIODIC_RECONNECT_INTERVAL`
    /// iterations have passed since the last periodic announcement.
    pub fn on_family_check(&mut self, available: bool) -> (r: bool)
        ensures
            final(self).heartbeat_counter == old(self).heartbeat_counter,
            final(self).family_was_available == available,
            available != old(self).family_was_available ==> r == available
                && final(self).last_periodic_reconnect_counter == old(self).last_periodic_reconnect_counter,
            available == old(self).family_was_available ==> r == (available && vstd::wrapping::u32_specs::wrapping_sub(
                old(self).heartbeat_counter,
                old(self).last_periodic_reconnect_counter,
            ) >= PERIODIC_RECONNECT_INTERVAL),
            available == old(self).family_was_available ==> final(self).last_periodic_reconnect_counter == (if r {
                old(self).heartbeat_counter
            } else {
                old(self).last_periodic_reconnect_counter
            }),
    {
        if available != self.family_was_available {
            self.family_was_available = available;
            available
        } else if available && self.heartbeat_counter.wrapping_sub(self.last_periodic_reconnect_counter)
            >= PERIODIC_RECONNECT_INTERVAL {
            self.last_periodic_reconnect_counter = self.heartbeat_counter;
            true
        } else {
            false
        }
    }
}

} // verus!
