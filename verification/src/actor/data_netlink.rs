//! Framing of the netlink data stream.
//!
//! The kernel hands the daemon a byte stream in which netlink messages may be
//! packed several to a read, or split across reads. `NetlinkMessageParser`
//! keeps the bytes of a message that is not complete yet and yields the
//! generic-netlink payload of every complete message, in stream order.
use std::sync::Arc;
use vstd::prelude::*;
use vstd::slice::{slice_subrange, slice_to_vec};
use crate::message::buffer::SocketBufferMessage;
use crate::text::{chars_of, concat2, concat3};
use crate::wire::{le_u32_at, read_le_u32};
use yaml_rust::YamlLoader;

verus! {

/// Size of `struct nlmsghdr`.
pub const NLMSG_HDRLEN: usize = 16;
/// Size of `struct genlmsghdr`.
pub const GENL_HDRLEN: usize = 4;
/// Both headers, which precede every payload.
pub const TOTAL_HEADER_SIZE: usize = 20;
/// Largest netlink message length the parser accepts (1 MiB).
pub const MAX_INCOMPLETE_MESSAGE_SIZE: usize = 1048576;

/// Why a netlink message or buffer was refused.
#[derive(Debug, Clone, Copy, PartialEq, Eq, Structural)]
pub enum NetlinkParseError {
    /// A header announced a length below the netlink header size.
    LengthTooSmall(u32),
    /// A header announced a length above `MAX_INCOMPLETE_MESSAGE_SIZE`.
    LengthTooLarge(u32),
    /// A message is shorter than the netlink and generic-netlink headers.
    MessageTooSmall(usize),
    /// A message's header length differs from its actual size.
    LengthMismatch(u32, usize),
}

/// The payload of one complete message: the bytes after both headers.
pub open spec fn spec_extract_payload(m: Seq<u8>) -> Result<Seq<u8>, NetlinkParseError> {
    if m.len() < TOTAL_HEADER_SIZE {
        Err(NetlinkParseError::MessageTooSmall(m.len() as usize))
    } else if le_u32_at(m, 0) != m.len() {
        Err(NetlinkParseError::LengthMismatch(le_u32_at(m, 0) as u32, m.len() as usize))
    } else {
        Ok(m.subrange(TOTAL_HEADER_SIZE as int, m.len() as int))
    }
}

/// Walk of the complete messages of `buf` from offset `off`: the payloads
/// found, in order, and the offset at which the walk stopped (the start of
/// the first incomplete message, or the end). A message whose payload cannot
/// be extracted is skipped; a header with an out-of-range length fails the
/// whole walk.
pub open spec fn spec_parse_frames(buf: Seq<u8>, off: int) -> Result<(Seq<Seq<u8>>, int), NetlinkParseError>
    decreases buf.len() - off,
{
    if off < 0 || off + NLMSG_HDRLEN > buf.len() {
        Ok((Seq::empty(), off))
    } else {
        let n = le_u32_at(buf, off);
        if n < NLMSG_HDRLEN {
            Err(NetlinkParseError::LengthTooSmall(n as u32))
        } else if n > MAX_INCOMPLETE_MESSAGE_SIZE {
            Err(NetlinkParseError::LengthTooLarge(n as u32))
        } else if off + n > buf.len() {
            Ok((Seq::empty(), off))
        } else {
            match spec_parse_frames(buf, off + n) {
                Err(e) => Err(e),
                Ok((rest, end)) => match spec_extract_payload(buf.subrange(off, off + n)) {
                    Ok(p) => Ok((seq![p] + rest, end)),
                    Err(_) => Ok((rest, end)),
                },
            }
        }
    }
}

/// One step of the parser: the bytes kept from earlier reads, followed by
/// `data`, are walked from their start. On success the payloads are
/// returned and the unconsumed tail is kept; on failure everything is kept.
pub open spec fn spec_parse_step(kept: Seq<u8>, data: Seq<u8>) -> (Result<Seq<Seq<u8>>, NetlinkParseError>, Seq<u8>) {
    let buf = kept + data;
    match spec_parse_frames(buf, 0) {
        Ok((msgs, end)) => (Ok(msgs), buf.subrange(end, buf.len() as int)),
        Err(e) => (Err(e), buf),
    }
}

/// The byte contents of a list of shared payloads.
pub open spec fn payload_views(v: Seq<SocketBufferMessage>) -> Seq<Seq<u8>> {
    v.map_values(|m: SocketBufferMessage| m@)
}

/// Prefixes the payloads of a (partial) walk with `msgs`.
pub open spec fn prepend_frames(
    msgs: Seq<Seq<u8>>,
    r: Result<(Seq<Seq<u8>>, int), NetlinkParseError>,
) -> Result<(Seq<Seq<u8>>, int), NetlinkParseError> {
    match r {
        Ok((m, e)) => Ok((msgs + m, e)),
        Err(e) => Err(e),
    }
}

/// Moves the stop offset of a walk by `d`.
pub open spec fn shift_frames(
    r: Result<(Seq<Seq<u8>>, int), NetlinkParseError>,
    d: int,
) -> Result<(Seq<Seq<u8>>, int), NetlinkParseError> {
    match r {
        Ok((m, e)) => Ok((m, e + d)),
        Err(e) => Err(e),
    }
}

proof fn lemma_prepend_assoc(a: Seq<Seq<u8>>, b: Seq<Seq<u8>>, r: Result<(Seq<Seq<u8>>, int), NetlinkParseError>)
    ensures
        prepend_frames(a, prepend_frames(b, r)) == prepend_frames(a + b, r),
{
    match r {
        Ok((m, e)) => {
            assert(a + (b + m) =~= (a + b) + m);
        },
        Err(_) => {},
    }
}

/// A walk over a buffer that stops at `e` continues unchanged when bytes are
/// appended: the frames it completed stay complete, the walk resumes at `e`.
proof fn lemma_frames_extend(x: Seq<u8>, y: Seq<u8>, off: int)
    requires
        0 <= off,
        spec_parse_frames(x, off) is Ok,
    ensures
        ({
            let (m, e) = spec_parse_frames(x, off).unwrap();
            spec_parse_frames(x + y, off) == prepend_frames(m, spec_parse_frames(x + y, e))
        }),
    decreases x.len() - off,
{
    let z = x + y;
    if off + NLMSG_HDRLEN > x.len() {
        assert(prepend_frames(Seq::empty(), spec_parse_frames(z, off)) == spec_parse_frames(z, off)) by {
            match spec_parse_frames(z, off) {
                Ok((m, e)) => {
                    assert(Seq::<Seq<u8>>::empty() + m =~= m);
                },
                Err(_) => {},
            }
        }
    } else {
        assert(le_u32_at(z, off) == le_u32_at(x, off));
        let n = le_u32_at(x, off);
        if off + n > x.len() {
            assert(prepend_frames(Seq::empty(), spec_parse_frames(z, off)) == spec_parse_frames(z, off)) by {
                match spec_parse_frames(z, off) {
                    Ok((m, e)) => {
                        assert(Seq::<Seq<u8>>::empty() + m =~= m);
                    },
                    Err(_) => {},
                }
            }
        } else {
            lemma_frames_extend(x, y, off + n);
            assert(z.subrange(off, off + n) =~= x.subrange(off, off + n));
            let (rest, e) = spec_parse_frames(x, off + n).unwrap();
            match spec_extract_payload(x.subrange(off, off + n)) {
                Ok(p) => {
                    lemma_prepend_assoc(seq![p], rest, spec_parse_frames(z, e));
                },
                Err(_) => {},
            }
        }
    }
}

/// A walk from offset `d + j` of `z` is the walk from `j` of the bytes of
/// `z` that follow `d`, with its stop offset moved by `d`.
proof fn lemma_frames_shift(z: Seq<u8>, d: int, j: int)
    requires
        0 <= d <= z.len(),
        0 <= j,
    ensures
        spec_parse_frames(z, d + j) == shift_frames(spec_parse_frames(z.subrange(d, z.len() as int), j), d),
    decreases z.len() - d - j,
{
    let w = z.subrange(d, z.len() as int);
    if d + j + NLMSG_HDRLEN > z.len() {
    } else {
        assert(le_u32_at(z, d + j) == le_u32_at(w, j));
        let n = le_u32_at(z, d + j);
        if n < NLMSG_HDRLEN || n > MAX_INCOMPLETE_MESSAGE_SIZE || d + j + n > z.len() {
        } else {
            lemma_frames_shift(z, d, j + n);
            assert(z.subrange(d + j, d + j + n) =~= w.subrange(j, j + n));
            assert(d + (j + n) == (d + j) + n);
        }
    }
}

/// Law: the framing does not depend on how the stream was cut into reads.
/// Feeding the parser `a` and then `b` yields the payloads, and keeps the
/// bytes, that feeding it `a + b` in one read does, whenever neither of the
/// two steps fails.
pub proof fn lemma_parse_step_split(kept: Seq<u8>, a: Seq<u8>, b: Seq<u8>)
    requires
        spec_parse_step(kept, a).0 is Ok,
        spec_parse_step(spec_parse_step(kept, a).1, b).0 is Ok,
    ensures
        ({
            let (r1, k1) = spec_parse_step(kept, a);
            let (r2, k2) = spec_parse_step(k1, b);
            spec_parse_step(kept, a + b) == (
                Ok::<Seq<Seq<u8>>, NetlinkParseError>(r1.unwrap() + r2.unwrap()),
                k2,
            )
        }),
{
    let x = kept + a;
    let y = kept + (a + b);
    assert(y =~= x + b);
    let (m1, e1) = spec_parse_frames(x, 0).unwrap();
    lemma_frames_nonneg_end(x, 0);
    assert(0 <= e1 <= x.len());
    let k1 = x.subrange(e1, x.len() as int);
    let (m2, e2) = spec_parse_frames(k1 + b, 0).unwrap();
    lemma_frames_nonneg_end(k1 + b, 0);
    assert(0 <= e2 <= (k1 + b).len());
    lemma_frames_extend(x, b, 0);
    assert(y.subrange(e1, y.len() as int) =~= k1 + b);
    lemma_frames_shift(y, e1, 0);
    assert(spec_parse_frames(y, e1) == Ok::<(Seq<Seq<u8>>, int), NetlinkParseError>((m2, e2 + e1)));
    assert(y.subrange(e1 + e2, y.len() as int) =~= (k1 + b).subrange(e2, (k1 + b).len() as int));
}

/// Feeding the parser the reads `chunks` one after the other, starting with
/// the bytes `kept`: the payloads of all of them, in order (or the first
/// error), and the bytes kept at the end.
pub open spec fn spec_parse_steps(kept: Seq<u8>, chunks: Seq<Seq<u8>>) -> (Result<Seq<Seq<u8>>, NetlinkParseError>, Seq<u8>)
    decreases chunks.len(),
{
    if chunks.len() == 0 {
        (Ok(Seq::empty()), kept)
    } else {
        let (r, k) = spec_parse_steps(kept, chunks.drop_last());
        match r {
            Err(e) => (Err(e), k),
            Ok(m) => {
                let (r2, k2) = spec_parse_step(k, chunks.last());
                match r2 {
                    Ok(m2) => (Ok(m + m2), k2),
                    Err(e) => (Err(e), k2),
                }
            },
        }
    }
}

/// The bytes of the reads `chunks`, one after the other.
pub open spec fn spec_chunks_bytes(chunks: Seq<Seq<u8>>) -> Seq<u8>
    decreases chunks.len(),
{
    if chunks.len() == 0 {
        Seq::empty()
    } else {
        spec_chunks_bytes(chunks.drop_last()) + chunks.last()
    }
}

/// Law: however a stream is cut into one or more reads, feeding the parser
/// the reads one after the other yields the payloads, and keeps the bytes,
/// that feeding it the whole stream in one read does, whenever no read
/// fails.
pub proof fn lemma_parse_steps_split(kept: Seq<u8>, chunks: Seq<Seq<u8>>)
    requires
        chunks.len() > 0,
        spec_parse_steps(kept, chunks).0 is Ok,
    ensures
        spec_parse_step(kept, spec_chunks_bytes(chunks)) == spec_parse_steps(kept, chunks),
    decreases chunks.len(),
{
    let front = chunks.drop_last();
    if front.len() == 0 {
        assert(spec_chunks_bytes(front) =~= Seq::<u8>::empty());
        assert(spec_chunks_bytes(chunks) =~= chunks.last());
        let (r2, k2) = spec_parse_step(kept, chunks.last());
        assert(Seq::<Seq<u8>>::empty() + r2.unwrap() =~= r2.unwrap());
    } else {
        lemma_parse_steps_split(kept, front);
        lemma_parse_step_split(kept, spec_chunks_bytes(front), chunks.last());
    }
}

/// A successful walk from `off` stops between `off` and the end.
proof fn lemma_frames_nonneg_end(buf: Seq<u8>, off: int)
    requires
        0 <= off,
        spec_parse_frames(buf, off) is Ok,
    ensures
        off <= spec_parse_frames(buf, off).unwrap().1,
        spec_parse_frames(buf, off).unwrap().1 <= buf.len() || spec_parse_frames(buf, off).unwrap().1 == off,
    decreases buf.len() - off,
{
    if off + NLMSG_HDRLEN > buf.len() {
    } else {
        let n = le_u32_at(buf, off);
        if off + n > buf.len() {
        } else {
            lemma_frames_nonneg_end(buf, off + n);
        }
    }
}

/// Netlink message parser for handling multiple and fragmented messages.
#[derive(Debug)]
pub struct NetlinkMessageParser {
    /// Bytes of messages that span multiple receive operations.
    incomplete_buffer: Vec<u8>,
}

impl View for NetlinkMessageParser {
    type V = Seq<u8>;

    /// The bytes kept for the next read.
    closed spec fn view(&self) -> Seq<u8> {
        self.incomplete_buffer@
    }
}

impl NetlinkMessageParser {
    /// A parser that keeps no bytes.
    pub fn new() -> (r: Self)
        ensures
            r@ == Seq::<u8>::empty(),
    {
        Self { incomplete_buffer: Vec::new() }
    }

    /// How many bytes are kept for the next read.
    pub fn kept_len(&self) -> (r: usize)
        ensures
            r == self@.len(),
    {
        self.incomplete_buffer.len()
    }

    /// Appends `new_data` to the kept bytes and returns the payload of every
    /// complete message, in order; the bytes of a trailing incomplete
    /// message are kept for the next call. A header announcing a length
    /// below 16 or above 1 MiB fails the call, and then every byte is kept.
    pub fn parse_buffer(&mut self, new_data: &[u8]) -> (r: Result<Vec<SocketBufferMessage>, NetlinkParseError>)
        requires
            old(self)@.len() + new_data@.len() <= usize::MAX,
        ensures
            ({
                let (expected, kept) = spec_parse_step(old(self)@, new_data@);
                &&& final(self)@ == kept
                &&& match r {
                    Ok(v) => expected == Ok::<Seq<Seq<u8>>, NetlinkParseError>(payload_views(v@)),
                    Err(e) => expected == Err::<Seq<Seq<u8>>, NetlinkParseError>(e),
                }
            }),
    {
        self.incomplete_buffer.extend_from_slice(new_data);
        let ghost buf = self.incomplete_buffer@;
        assert(buf == old(self)@ + new_data@);
        let len = self.incomplete_buffer.len();
        let mut complete_messages: Vec<SocketBufferMessage> = Vec::new();
        let mut offset: usize = 0;
        while offset < len
            invariant_except_break
                self.incomplete_buffer@ == buf,
                buf == old(self)@ + new_data@,
                len == buf.len(),
                offset <= len,
                spec_parse_frames(buf, 0) == prepend_frames(
                    payload_views(complete_messages@),
                    spec_parse_frames(buf, offset as int),
                ),
            ensures
                self.incomplete_buffer@ == buf,
                buf == old(self)@ + new_data@,
                len == buf.len(),
                offset <= len,
                spec_parse_frames(buf, 0) == prepend_frames(
                    payload_views(complete_messages@),
                    spec_parse_frames(buf, offset as int),
                ),
                spec_parse_frames(buf, offset as int) == Ok::<(Seq<Seq<u8>>, int), NetlinkParseError>(
                    (Seq::empty(), offset as int),
                ),
            decreases len - offset,
        {
            if len - offset < NLMSG_HDRLEN {
                break;
            }
            let nl_len_raw = read_le_u32(self.incomplete_buffer.as_slice(), offset);
            if (nl_len_raw as u64) < (NLMSG_HDRLEN as u64) {
                assert(spec_parse_frames(buf, offset as int) == Err::<(Seq<Seq<u8>>, int), NetlinkParseError>(
                    NetlinkParseError::LengthTooSmall(nl_len_raw),
                ));
                return Err(NetlinkParseError::LengthTooSmall(nl_len_raw));
            }
            if (nl_len_raw as u64) > (MAX_INCOMPLETE_MESSAGE_SIZE as u64) {
                assert(spec_parse_frames(buf, offset as int) == Err::<(Seq<Seq<u8>>, int), NetlinkParseError>(
                    NetlinkParseError::LengthTooLarge(nl_len_raw),
                ));
                return Err(NetlinkParseError::LengthTooLarge(nl_len_raw));
            }
            let nl_len = nl_len_raw as usize;
            if nl_len > len - offset {
                break;
            }
            let message_data = slice_to_vec(
                slice_subrange(self.incomplete_buffer.as_slice(), offset, offset + nl_len),
            );
            let ghost before = complete_messages@;
            let ghost next = spec_parse_frames(buf, offset + nl_len);
            assert(message_data@ == buf.subrange(offset as int, offset + nl_len));
            match Self::extract_payload_from_slice(message_data.as_slice()) {
                Ok(payload) => {
                    complete_messages.push(payload);
                    assert(payload_views(complete_messages@) =~= payload_views(before) + seq![payload@]);
                    assert(spec_parse_frames(buf, offset as int) == prepend_frames(seq![payload@], next));
                    proof {
                        match next {
                            Ok((m, e)) => {
                                assert(payload_views(before) + (seq![payload@] + m) =~= payload_views(complete_messages@) + m);
                            },
                            Err(_) => {},
                        }
                    }
                },
                Err(_) => {
                    assert(spec_parse_frames(buf, offset as int) == next);
                },
            }
            offset = offset + nl_len;
        }
        if offset < len {
            let remaining = slice_to_vec(slice_subrange(self.incomplete_buffer.as_slice(), offset, len));
            self.incomplete_buffer = remaining;
        } else {
            self.incomplete_buffer.clear();
            assert(buf.subrange(offset as int, buf.len() as int) =~= Seq::<u8>::empty());
        }
        assert(payload_views(complete_messages@) + Seq::<Seq<u8>>::empty() =~= payload_views(complete_messages@));
        Ok(complete_messages)
    }

    /// Payload of a single complete netlink message: the bytes after the
    /// netlink and generic-netlink headers (empty when there are none). The
    /// message must be at least 20 bytes long and its header length must be
    /// its actual size.
    pub fn extract_payload_from_slice(message_data: &[u8]) -> (r: Result<SocketBufferMessage, NetlinkParseError>)
        ensures
            match r {
                Ok(p) => spec_extract_payload(message_data@) == Ok::<Seq<u8>, NetlinkParseError>(p@),
                Err(e) => spec_extract_payload(message_data@) == Err::<Seq<u8>, NetlinkParseError>(e),
            },
    {
        let size = message_data.len();
        if size < TOTAL_HEADER_SIZE {
            return Err(NetlinkParseError::MessageTooSmall(size));
        }
        let nl_len = read_le_u32(message_data, 0);
        if nl_len as u64 != size as u64 {
            return Err(NetlinkParseError::LengthMismatch(nl_len, size));
        }
        let payload = slice_to_vec(slice_subrange(message_data, TOTAL_HEADER_SIZE, size));
        Ok(Arc::new(payload))
    }
}


/// Most consecutive receive failures the data loop repairs by itself; after
/// that it waits for a reconnect command.
pub const MAX_LOCAL_RECONNECT_ATTEMPTS: u32 = 3;
/// Seconds without data after which a socket is considered unhealthy.
pub const SOCKET_HEALTH_TIMEOUT_SECS: u64 = 10;
/// Main-loop iterations between heartbeat log lines (five minutes at 10 ms).
pub const HEARTBEAT_LOG_INTERVAL: u32 = 30000;
/// Main-loop iterations between status checks (thirty seconds).
pub const DEBUG_LOG_INTERVAL: u32 = 3000;

/// What a connection request does with the current socket.
#[derive(Debug, Clone, Copy, PartialEq, Eq, Structural)]
pub enum ConnectDecision {
    /// The socket is healthy (or has not had time to receive): keep it.
    KeepSocket,
    /// The socket has been silent too long: close it and open a new one.
    ReplaceSocket,
    /// There is no socket: open one.
    OpenSocket,
}

/// Decides a connection request from whether there is a socket and how many
/// whole seconds passed since it last received data (`None` when it never
/// did).
pub fn connect_decision(has_socket: bool, secs_since_data: Option<u64>) -> (r: ConnectDecision)
    ensures
        r == (if !has_socket {
            ConnectDecision::OpenSocket
        } else {
            match secs_since_data {
                Some(s) => if s > SOCKET_HEALTH_TIMEOUT_SECS {
                    ConnectDecision::ReplaceSocket
                } else {
                    ConnectDecision::KeepSocket
                },
                None => ConnectDecision::KeepSocket,
            }
        }),
{
    if !has_socket {
        return ConnectDecision::OpenSocket;
    }
    match secs_since_data {
        Some(s) => if s > SOCKET_HEALTH_TIMEOUT_SECS {
            ConnectDecision::ReplaceSocket
        } else {
            ConnectDecision::KeepSocket
        },
        None => ConnectDecision::KeepSocket,
    }
}

/// How a receive on the data socket failed.
#[derive(Debug, Clone, Copy, PartialEq, Eq, Structural)]
pub enum RecvFailure {
    /// The kernel's receive buffer overflowed (`ENOBUFS`).
    NoBufferSpace,
    /// No data was waiting.
    WouldBlock,
    /// Any other error.
    Other,
}

/// What the data loop does after a failed receive.
#[derive(Debug, Clone, Copy, PartialEq, Eq, Structural)]
pub enum RecvFailureAction {
    /// Carry on with the same socket.
    Continue,
    /// Drop the socket; open a new one at once when `reconnect` holds.
    Disconnect { reconnect: bool },
}

/// Decision state of the data loop.
#[derive(Debug, Clone, Copy, PartialEq, Eq, Structural)]
pub struct DataLinkMonitor {
    /// Main-loop iterations so far (wrapping).
    pub heartbeat_counter: u32,
    /// Receive failures since the last success, command or status check.
    pub consecutive_failures: u32,
}

impl DataLinkMonitor {
    /// No iteration and no failure yet.
    pub fn new() -> (r: Self)
        ensures
            r == (DataLinkMonitor { heartbeat_counter: 0, consecutive_failures: 0 }),
    {
        DataLinkMonitor { heartbeat_counter: 0, consecutive_failures: 0 }
    }

    /// Starts an iteration; returns whether a heartbeat line and whether a
    /// status check are due. A status check with a socket in place clears
    /// the failure count.
    pub fn tick(&mut self, has_socket: bool) -> (r: (bool, bool))
        ensures
            final(self).heartbeat_counter == vstd::wrapping::u32_specs::wrapping_add(old(self).heartbeat_counter, 1),
            r.0 == (final(self).heartbeat_counter % HEARTBEAT_LOG_INTERVAL == 0),
            r.1 == (final(self).heartbeat_counter % DEBUG_LOG_INTERVAL == 0),
            final(self).consecutive_failures == (if r.1 && has_socket {
                0
            } else {
                old(self).consecutive_failures
            }),
    {
        self.heartbeat_counter = self.heartbeat_counter.wrapping_add(1);
        let heartbeat = self.heartbeat_counter % HEARTBEAT_LOG_INTERVAL == 0;
        let status = self.heartbeat_counter % DEBUG_LOG_INTERVAL == 0;
        if status && has_socket {
            self.consecutive_failures = 0;
        }
        (heartbeat, status)
    }

    /// A connect or reconnect command arrived, or a receive succeeded: the
    /// failure count starts again.
    pub fn clear_failures(&mut self)
        ensures
            final(self).heartbeat_counter == old(self).heartbeat_counter,
            final(self).consecutive_failures == 0,
    {
        self.consecutive_failures = 0;
    }

    /// A receive failed. Overflowing buffers and empty reads keep the
    /// socket; any other error drops it and counts one more failure, and the
    /// loop reconnects by itself for the first `MAX_LOCAL_RECONNECT_ATTEMPTS`
    /// failures in a row.
    pub fn on_receive_failure(&mut self, failure: RecvFailure) -> (r: RecvFailureAction)
        ensures
            final(self).heartbeat_counter == old(self).heartbeat_counter,
            failure != RecvFailure::Other ==> r == RecvFailureAction::Continue
                && final(self).consecutive_failures == old(self).consecutive_failures,
            failure == RecvFailure::Other ==> final(self).consecutive_failures == spec_failure_count_after(
                old(self).consecutive_failures,
            ) && r == (RecvFailureAction::Disconnect {
                reconnect: final(self).consecutive_failures <= MAX_LOCAL_RECONNECT_ATTEMPTS,
            }),
    {
        match failure {
            RecvFailure::NoBufferSpace => RecvFailureAction::Continue,
            RecvFailure::WouldBlock => RecvFailureAction::Continue,
            RecvFailure::Other => {
                self.consecutive_failures = self.consecutive_failures.saturating_add(1);
                RecvFailureAction::Disconnect { reconnect: self.consecutive_failures <= MAX_LOCAL_RECONNECT_ATTEMPTS }
            },
        }
    }
}

/// Failure count after one more failure (saturating).
pub open spec fn spec_failure_count_after(c: u32) -> u32 {
    if c == u32::MAX {
        u32::MAX
    } else {
        (c + 1) as u32
    }
}

/// How many of `n` receive errors in a row, starting from failure count
/// `c`, make the loop reconnect by itself.
pub open spec fn spec_local_reconnects(c: u32, n: nat) -> nat
    decreases n,
{
    if n == 0 {
        0
    } else {
        let c2 = spec_failure_count_after(c);
        (if c2 <= MAX_LOCAL_RECONNECT_ATTEMPTS { 1nat } else { 0nat }) + spec_local_reconnects(c2, (n - 1) as nat)
    }
}

/// Law: however many receive errors follow one another, the data loop
/// reconnects by itself at most `MAX_LOCAL_RECONNECT_ATTEMPTS` times before
/// its failure count is cleared (fewer when failures were already counted).
pub proof fn lemma_local_reconnects_bounded(c: u32, n: nat)
    ensures
        spec_local_reconnects(c, n) <= (if c < MAX_LOCAL_RECONNECT_ATTEMPTS { (MAX_LOCAL_RECONNECT_ATTEMPTS - c) as nat } else { 0nat }),
    decreases n,
{
    if n > 0 {
        lemma_local_reconnects_bounded(spec_failure_count_after(c), (n - 1) as nat);
    }
}

/// Characters that may stand before the content of a line in block style:
/// indentation, and the indicators of block sequence entries, explicit keys
/// and explicit values.
pub open spec fn spec_is_yaml_lead(c: char) -> bool {
    c == ' ' || c == '\t' || c == '-' || c == '?' || c == ':'
}

/// Characters that end a line in YAML.
pub open spec fn spec_is_line_break(c: char) -> bool {
    c == '\n' || c == '\r'
}

/// Scanning `s` line by line: whether the current line is still in its
/// lead, how long that lead is so far, and the longest lead of any line.
pub open spec fn spec_lead_scan(s: Seq<char>) -> (bool, nat, nat)
    decreases s.len(),
{
    if s.len() == 0 {
        (true, 0, 0)
    } else {
        let (in_lead, cur, widest) = spec_lead_scan(s.drop_last());
        let c = s.last();
        if spec_is_line_break(c) {
            (true, 0, widest)
        } else if in_lead && spec_is_yaml_lead(c) {
            (true, cur + 1, if cur + 1 > widest { (cur + 1) as nat } else { widest })
        } else {
            (false, cur, widest)
        }
    }
}

/// The widest lead of a line of `s`: its indentation together with the
/// block indicators that follow it.
pub open spec fn spec_yaml_lead_width(s: Seq<char>) -> nat {
    spec_lead_scan(s).2
}

/// Widest line lead a constants file may have. `yaml_rust` loads a nested
/// collection by a recursive call per level. Every block collection starts
/// within the lead of its first line, and the block collections around a
/// node start at growing columns (a sequence may share the column of the
/// mapping it is a value of), so block nesting is at most twice the widest
/// lead; flow nesting the scanner itself stops at 255 levels. Only a text
/// with a line whose indentation and block indicators run past this width
/// is refused: a shallow file of any length is read.
pub const MAX_YAML_LEAD: usize = 128;

/// The widest line lead of `text`.
pub fn yaml_lead_width(text: &str) -> (r: usize)
    ensures
        r == spec_yaml_lead_width(text@),
{
    let chars = chars_of(text);
    let mut in_lead = true;
    let mut cur: usize = 0;
    let mut widest: usize = 0;
    let mut i: usize = 0;
    while i < chars.len()
        invariant
            i <= chars@.len(),
            cur <= i,
            widest <= i,
            (in_lead, cur as nat, widest as nat) == spec_lead_scan(chars@.take(i as int)),
        decreases chars@.len() - i,
    {
        assert(chars@.take(i + 1).drop_last() =~= chars@.take(i as int));
        let c = chars[i];
        if c == '\n' || c == '\r' {
            in_lead = true;
            cur = 0;
        } else if in_lead && (c == ' ' || c == '\t' || c == '-' || c == '?' || c == ':') {
            cur = cur + 1;
            if cur > widest {
                widest = cur;
            }
        } else {
            in_lead = false;
        }
        i = i + 1;
    }
    assert(chars@.take(chars@.len() as int) =~= chars@);
    widest
}

/// What `yaml_rust::YamlLoader::load_from_str` makes of a text: the number
/// of documents, or the text of the scanner error.
pub uninterp spec fn yaml_load_outcome(text: Seq<char>) -> Result<nat, Seq<char>>;

/// The string scalar of the first document of a text under the keys `k0`,
/// `k1`, `k2` (`doc[k0][k1][k2].as_str()`), if there is one.
pub uninterp spec fn yaml_first_doc_str(text: Seq<char>, k0: Seq<char>, k1: Seq<char>, k2: Seq<char>) -> Option<Seq<char>>;

/// Parses `text` with `yaml_rust` and reads the string under `k0`, `k1`,
/// `k2` in its first document: `Err` with the scanner's message when the
/// text is not YAML, `Ok(None)` when it holds no document, else
/// `Ok(Some(value))` with the string if the entry is one. The results are
/// named by `yaml_load_outcome` and `yaml_first_doc_str`. The loader
/// recurses once per level of nesting, so the lines of the text must have
/// narrow enough leads to bound the depth of its block collections.
#[verifier::external_body]
fn yaml_lookup(text: &str, k0: &str, k1: &str, k2: &str) -> (r: Result<Option<Option<String>>, String>)
    requires
        spec_yaml_lead_width(text@) <= MAX_YAML_LEAD,
    ensures
        match r {
            Err(e) => yaml_load_outcome(text@) == Err::<nat, Seq<char>>(e@),
            Ok(None) => yaml_load_outcome(text@) == Ok::<nat, Seq<char>>(0),
            Ok(Some(v)) => (yaml_load_outcome(text@) matches Ok(n) && n > 0) && match v {
                Some(s) => yaml_first_doc_str(text@, k0@, k1@, k2@) == Some(s@),
                None => yaml_first_doc_str(text@, k0@, k1@, k2@) is None,
            },
        },
{
    match YamlLoader::load_from_str(text) {
        Err(e) => Err(e.to_string()),
        Ok(docs) => Ok(docs.first().map(|d| d[k0][k1][k2].as_str().map(|s| s.to_owned()))),
    }
}

/// A setting of the telemetry section, or its default.
pub open spec fn spec_setting_or(v: Option<Seq<char>>, default: Seq<char>) -> Seq<char> {
    match v {
        Some(s) => s,
        None => default,
    }
}

/// The generic-netlink family and multicast group named by the constants
/// file `path` with contents `contents`:
/// `constants.high_frequency_telemetry.genl_family` and
/// `.genl_multicast_group` of its first document, `sonic_stel` and `ipfix`
/// where they are not strings; an error when a line's lead is wider than
/// `MAX_YAML_LEAD` (the text is then not parsed), when the text is not YAML,
/// or when it holds no document.
pub fn genl_family_group_from_yaml(contents: &str, path: &str) -> (r: Result<(String, String), String>)
    ensures
        spec_yaml_lead_width(contents@) > MAX_YAML_LEAD ==> (r matches Err(m)
            && m@ == "YAML nested too deeply in constants file '"@ + path@ + "'"@),
        spec_yaml_lead_width(contents@) <= MAX_YAML_LEAD ==> match yaml_load_outcome(contents@) {
            Err(e) => r matches Err(m) && m@ == "Failed to parse YAML in '"@ + path@ + "': "@ + e,
            Ok(n) => if n == 0 {
                r matches Err(m) && m@ == "Empty YAML document in constants file '"@ + path@ + "'"@
            } else {
                r matches Ok((family, group)) && family@ == spec_setting_or(
                    yaml_first_doc_str(contents@, "constants"@, "high_frequency_telemetry"@, "genl_family"@),
                    "sonic_stel"@,
                ) && group@ == spec_setting_or(
                    yaml_first_doc_str(contents@, "constants"@, "high_frequency_telemetry"@, "genl_multicast_group"@),
                    "ipfix"@,
                )
            },
        },
{
    if yaml_lead_width(contents) > MAX_YAML_LEAD {
        return Err(concat3("YAML nested too deeply in constants file '", path, "'"));
    }
    let family = yaml_lookup(contents, "constants", "high_frequency_telemetry", "genl_family");
    let group = yaml_lookup(contents, "constants", "high_frequency_telemetry", "genl_multicast_group");
    match (family, group) {
        (Err(e), _) => {
            let head = concat3("Failed to parse YAML in '", path, "': ");
            Err(concat2(head.as_str(), e.as_str()))
        },
        (Ok(None), _) => Err(concat3("Empty YAML document in constants file '", path, "'")),
        (Ok(Some(f)), Ok(Some(g))) => {
            let family = match f {
                Some(s) => s,
                None => "sonic_stel".to_owned(),
            };
            let group = match g {
                Some(s) => s,
                None => "ipfix".to_owned(),
            };
            Ok((family, group))
        },
        (Ok(Some(_)), _) => {
            assert(false);
            Err(String::new())
        },
    }
}

/// The family and group to use: those read from the constants file, or
/// `sonic_stel` and `ipfix` when it could not be used.
pub fn get_genl_family_group(loaded: Result<(String, String), String>) -> (r: (String, String))
    ensures
        match loaded {
            Ok((family, group)) => r.0@ == family@ && r.1@ == group@,
            Err(_) => r.0@ == "sonic_stel"@ && r.1@ == "ipfix"@,
        },
{
    match loaded {
        Ok((family, group)) => (family, group),
        Err(_) => ("sonic_stel".to_owned(), "ipfix".to_owned()),
    }
}

} // verus!
