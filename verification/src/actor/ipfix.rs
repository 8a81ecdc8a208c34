//! The IPFIX processor: templates per telemetry session, and the conversion
//! of IPFIX data records into SAI statistics.
//!
//! Template messages are stored as "temporary" templates of their session
//! until a data set uses one of them; then all templates of that session
//! become "applied". The object names of a session turn the labels of data
//! record fields into object names.
use vstd::prelude::*;
use crate::actor::ipfix_decoder::{decoder_templates, ipfix_parse, spec_message_is, IpfixDecoder};
use crate::actor::ipfix_templates::{message_templates_read_data, spec_message_templates_read_data, spec_store_reads_data, FieldSpecView};
use crate::assoc::AssocList;
use crate::clock::current_time_nanos;
use crate::text::str_eq;
use crate::message::buffer::SocketBufferMessage;
use crate::message::ipfix::{IpfixDataRecord, IpfixField, IpfixFieldKey, IpfixParsedMessage, IpfixValue, IPFixTemplatesMessage};
use crate::message::saistats::{spec_counter, spec_object_name, spec_stat_id, spec_type_id, SAIStat, SAIStats};
use crate::wire::{be_u16_at, be_u32_at, be_u64_at, read_be_u16, read_be_u32, read_be_u64};

verus! {

/// IPFIX information element observationTimeNanoseconds.
pub const OBSERVATION_TIME_NANOSECONDS: u16 = 325;

/// IPFIX information element observationTimeSeconds.
pub const OBSERVATION_TIME_SECONDS: u16 = 322;

/// Length of the IPFIX message at the start of `data`: the 16-bit network
/// order field at bytes 2..4 of the message header.
pub fn get_ipfix_message_length(data: &[u8]) -> (r: Result<u16, &'static str>)
    ensures
        r is Err <==> data@.len() < 4,
        r matches Ok(len) ==> len == be_u16_at(data@, 2),
        r matches Err(e) ==> e@ == "Data too short for IPFIX header"@,
{
    if data.len() < 4 {
        proof {
            reveal_strlit("Data too short for IPFIX header");
        }
        return Err("Data too short for IPFIX header");
    }
    let header = vstd::slice::slice_subrange(data, 2, 4);
    Ok(read_be_u16(header))
}

/// The IPFIX messages a buffer is cut into: one after the other, each of the
/// length its header gives, until fewer than four bytes remain or a length
/// runs past the end.
pub open spec fn spec_ipfix_frames(data: Seq<u8>) -> Seq<Seq<u8>>
    decreases data.len(),
{
    if data.len() < 4 {
        Seq::empty()
    } else {
        let len = be_u16_at(data, 2);
        if len == 0 || len > data.len() {
            Seq::empty()
        } else {
            seq![data.take(len)] + spec_ipfix_frames(data.skip(len))
        }
    }
}

/// Cutting `data` into messages runs into a header of length 0, which never
/// moves past it.
pub open spec fn spec_ipfix_framing_stalls(data: Seq<u8>) -> bool
    decreases data.len(),
{
    if data.len() < 4 {
        false
    } else {
        let len = be_u16_at(data, 2);
        if len == 0 {
            true
        } else if len > data.len() {
            false
        } else {
            spec_ipfix_framing_stalls(data.skip(len))
        }
    }
}

/// Length of the IPFIX message that starts at `offset`, when the buffer
/// holds it whole.
pub fn next_ipfix_frame(data: &[u8], offset: usize) -> (r: Option<usize>)
    requires
        offset <= data@.len(),
    ensures
        ({
            let rest = data@.skip(offset as int);
            match r {
                Some(len) => rest.len() >= 4 && len == be_u16_at(rest, 2) && len <= rest.len(),
                None => rest.len() < 4 || be_u16_at(rest, 2) > rest.len(),
            }
        }),
{
    let rest = vstd::slice::slice_subrange(data, offset, data.len());
    assert(rest@ =~= data@.skip(offset as int));
    match get_ipfix_message_length(rest) {
        Ok(len) => {
            if (len as usize) > rest.len() {
                None
            } else {
                Some(len as usize)
            }
        },
        Err(_) => None,
    }
}

/// Whether cutting `data` into IPFIX messages would run into a header of
/// length 0 (on which the message loops would never move on).
pub fn ipfix_framing_stalls(data: &[u8]) -> (r: bool)
    ensures
        r == spec_ipfix_framing_stalls(data@),
{
    let mut offset: usize = 0;
    assert(data@.skip(0) =~= data@);
    while offset < data.len()
        invariant
            offset <= data@.len(),
            spec_ipfix_framing_stalls(data@) == spec_ipfix_framing_stalls(data@.skip(offset as int)),
        decreases data@.len() - offset,
    {
        let rest = vstd::slice::slice_subrange(data, offset, data.len());
        assert(rest@ =~= data@.skip(offset as int));
        match get_ipfix_message_length(rest) {
            Err(_) => {
                return false;
            },
            Ok(len) => {
                if len == 0 {
                    return true;
                }
                if (len as usize) > rest.len() {
                    return false;
                }
                assert(rest@.skip(len as int) =~= data@.skip(offset + len));
                offset = offset + len as usize;
            },
        }
    }
    assert(data@.skip(offset as int).len() == 0);
    false
}

/// The header of an IPFIX message.
#[derive(Debug, Clone, Copy, PartialEq, Eq, Structural)]
pub struct IpfixMessageHeader {
    pub version: u16,
    pub length: u16,
    pub export_time: u32,
    pub sequence_number: u32,
    pub observation_domain_id: u32,
}

/// The header at the start of `data`, when it holds the sixteen bytes of
/// one.
pub fn ipfix_message_header(data: &[u8]) -> (r: Option<IpfixMessageHeader>)
    ensures
        r is Some <==> data@.len() >= 16,
        r matches Some(h) ==> {
            &&& h.version == be_u16_at(data@, 0)
            &&& h.length == be_u16_at(data@, 2)
            &&& h.export_time == be_u32_at(data@, 4)
            &&& h.sequence_number == be_u32_at(data@, 8)
            &&& h.observation_domain_id == be_u32_at(data@, 12)
        },
{
    if data.len() < 16 {
        return None;
    }
    let version = read_be_u16(vstd::slice::slice_subrange(data, 0, 2));
    let length = read_be_u16(vstd::slice::slice_subrange(data, 2, 4));
    let export_time = read_be_u32(vstd::slice::slice_subrange(data, 4, 8));
    let sequence_number = read_be_u32(vstd::slice::slice_subrange(data, 8, 12));
    let observation_domain_id = read_be_u32(vstd::slice::slice_subrange(data, 12, 16));
    Some(IpfixMessageHeader { version, length, export_time, sequence_number, observation_domain_id })
}

/// A set header met while walking the sets of a message.
#[derive(Debug, Clone, Copy, PartialEq, Eq, Structural)]
pub enum IpfixSetHeader {
    /// A whole set at `offset`.
    Complete { offset: usize, set_id: u16, length: u16 },
    /// A set whose length is below the four bytes of its header; the walk
    /// stops there.
    Invalid { set_id: u16, length: u16 },
    /// A set that runs past the end of the message; the walk stops there.
    Truncated { set_id: u16, length: u16 },
}

/// The set headers of a message from `offset` on: one after the other while
/// a four-byte set header fits, up to the first invalid or truncated set.
pub open spec fn spec_set_walk(msg: Seq<u8>, offset: int) -> Seq<IpfixSetHeader>
    decreases msg.len() - offset,
{
    if offset < 0 || offset + 4 > msg.len() {
        Seq::empty()
    } else {
        let set_id = be_u16_at(msg, offset) as u16;
        let length = be_u16_at(msg, offset + 2) as u16;
        if length < 4 {
            seq![IpfixSetHeader::Invalid { set_id, length }]
        } else if offset + length > msg.len() {
            seq![IpfixSetHeader::Truncated { set_id, length }]
        } else {
            seq![IpfixSetHeader::Complete { offset: offset as usize, set_id, length }] + spec_set_walk(msg, offset + length)
        }
    }
}

/// The set headers of an IPFIX message, after its sixteen-byte header;
/// `None` when the message is shorter than that header.
pub fn ipfix_set_headers(message: &[u8]) -> (r: Option<Vec<IpfixSetHeader>>)
    ensures
        r is Some <==> message@.len() >= 16,
        r matches Some(sets) ==> sets@ == spec_set_walk(message@, 16),
{
    let n = message.len();
    if n < 16 {
        return None;
    }
    let mut sets: Vec<IpfixSetHeader> = Vec::new();
    let mut offset: usize = 16;
    while offset <= n && n - offset >= 4
        invariant
            n == message@.len(),
            16 <= offset,
            sets@ + spec_set_walk(message@, offset as int) == spec_set_walk(message@, 16),
        decreases n - offset,
    {
        let set_id = read_be_u16(vstd::slice::slice_subrange(message, offset, offset + 2));
        let length = read_be_u16(vstd::slice::slice_subrange(message, offset + 2, offset + 4));
        let ghost before = sets@;
        if length < 4 {
            sets.push(IpfixSetHeader::Invalid { set_id, length });
            assert(sets@ =~= before + spec_set_walk(message@, offset as int));
            return Some(sets);
        }
        if (length as usize) > n - offset {
            sets.push(IpfixSetHeader::Truncated { set_id, length });
            assert(sets@ =~= before + spec_set_walk(message@, offset as int));
            return Some(sets);
        }
        sets.push(IpfixSetHeader::Complete { offset, set_id, length });
        assert(before + spec_set_walk(message@, offset as int) =~= sets@ + spec_set_walk(message@, offset + length));
        offset = offset + length as usize;
    }
    assert(spec_set_walk(message@, offset as int) =~= Seq::<IpfixSetHeader>::empty());
    assert(sets@ + Seq::<IpfixSetHeader>::empty() =~= sets@);
    Some(sets)
}

/// What a data record says of its observation time, field by field: the
/// 32-bit seconds, the 32-bit nanoseconds and the 64-bit nanoseconds; a later
/// field overrides an earlier one.
pub open spec fn spec_time_fields(fields: Seq<IpfixField>) -> (Option<u32>, Option<u32>, Option<u64>)
    decreases fields.len(),
{
    if fields.len() == 0 {
        (None, None, None)
    } else {
        let (secs, nanos, full) = spec_time_fields(fields.drop_last());
        let f = fields.last();
        match f.key {
            IpfixFieldKey::Unrecognized(spec) => if spec.enterprise_number is Some {
                (secs, nanos, full)
            } else if spec.information_element_identifier == OBSERVATION_TIME_NANOSECONDS {
                match f.value {
                    IpfixValue::Bytes(b) => if b@.len() == 8 {
                        (secs, nanos, Some(be_u64_at(b@, 0) as u64))
                    } else if b@.len() == 4 {
                        (secs, Some(be_u32_at(b@, 0) as u32), full)
                    } else {
                        (secs, nanos, full)
                    },
                    IpfixValue::U64(v) => (secs, nanos, Some(v)),
                    IpfixValue::U32(v) => (secs, Some(v), full),
                    _ => (secs, nanos, full),
                }
            } else if spec.information_element_identifier == OBSERVATION_TIME_SECONDS {
                match f.value {
                    IpfixValue::Bytes(b) => if b@.len() == 4 {
                        (Some(be_u32_at(b@, 0) as u32), nanos, full)
                    } else {
                        (secs, nanos, full)
                    },
                    IpfixValue::U32(v) => (Some(v), nanos, full),
                    _ => (secs, nanos, full),
                }
            } else {
                (secs, nanos, full)
            },
            IpfixFieldKey::Other => (secs, nanos, full),
        }
    }
}

/// Observation time a data record carries, in nanoseconds: its 64-bit
/// nanosecond field, else its seconds and nanoseconds fields combined, if it
/// has them.
pub open spec fn spec_record_time(fields: Seq<IpfixField>) -> Option<u64> {
    let (secs, nanos, full) = spec_time_fields(fields);
    match full {
        Some(t) => Some(t),
        None => match (secs, nanos) {
            (Some(s), Some(n)) => Some((s * 1_000_000_000 + n) as u64),
            _ => None,
        },
    }
}

/// Whether field `f` is the standard information element `id` (no
/// enterprise number).
pub open spec fn spec_is_standard_element(f: IpfixField, id: u16) -> bool {
    f.key matches IpfixFieldKey::Unrecognized(s) && s.enterprise_number is None && s.information_element_identifier == id
}

/// Whether field `f` carries the 32-bit value `x`: four big-endian bytes, or
/// an unsigned 32-bit value.
pub open spec fn spec_carries_u32(f: IpfixField, x: u32) -> bool {
    ||| (f.value matches IpfixValue::Bytes(b) && b@.len() == 4 && be_u32_at(b@, 0) == x)
    ||| (f.value matches IpfixValue::U32(y) && y == x)
}

/// Whether field `f` carries the 64-bit value `x`: eight big-endian bytes,
/// or an unsigned 64-bit value.
pub open spec fn spec_carries_u64(f: IpfixField, x: u64) -> bool {
    ||| (f.value matches IpfixValue::Bytes(b) && b@.len() == 8 && be_u64_at(b@, 0) == x)
    ||| (f.value matches IpfixValue::U64(y) && y == x)
}

/// What the time fields of a prefix of a record say, when the record has
/// one seconds field at `i` carrying `s` (or none, `i < 0`) and one
/// nanoseconds field at `j` carrying 32 bits `n` or 64 bits `t`.
proof fn lemma_time_fields_prefix(
    fields: Seq<IpfixField>,
    i: int,
    s: u32,
    j: int,
    n: Option<u32>,
    t: Option<u64>,
    k: int,
)
    requires
        0 <= k <= fields.len(),
        i < fields.len(),
        0 <= i ==> spec_is_standard_element(fields[i], OBSERVATION_TIME_SECONDS) && spec_carries_u32(fields[i], s),
        0 <= j < fields.len(),
        spec_is_standard_element(fields[j], OBSERVATION_TIME_NANOSECONDS),
        n matches Some(x) ==> t is None && spec_carries_u32(fields[j], x),
        t matches Some(x) ==> n is None && spec_carries_u64(fields[j], x),
        n is Some || t is Some,
        forall|m: int| 0 <= m < fields.len() && m != i ==> !spec_is_standard_element(#[trigger] fields[m], OBSERVATION_TIME_SECONDS),
        forall|m: int| 0 <= m < fields.len() && m != j ==> !spec_is_standard_element(#[trigger] fields[m], OBSERVATION_TIME_NANOSECONDS),
    ensures
        spec_time_fields(fields.take(k)) == (
            if 0 <= i < k { Some(s) } else { None::<u32> },
            if j < k { n } else { None::<u32> },
            if j < k { t } else { None::<u64> },
        ),
    decreases k,
{
    if k > 0 {
        lemma_time_fields_prefix(fields, i, s, j, n, t, k - 1);
        assert(fields.take(k).drop_last() =~= fields.take(k - 1));
        assert(fields.take(k).last() == fields[k - 1]);
    }
}

/// Law: a record with one standard observationTimeSeconds field carrying
/// `s` and one standard observationTimeNanoseconds field carrying the 32
/// bits `n` is observed at `s` seconds and `n` nanoseconds, in whichever
/// order the fields come and whether they hold raw bytes or integers.
pub proof fn lemma_seconds_and_nanoseconds_combine(fields: Seq<IpfixField>, i: int, s: u32, j: int, n: u32)
    requires
        0 <= i < fields.len(),
        0 <= j < fields.len(),
        spec_is_standard_element(fields[i], OBSERVATION_TIME_SECONDS) && spec_carries_u32(fields[i], s),
        spec_is_standard_element(fields[j], OBSERVATION_TIME_NANOSECONDS) && spec_carries_u32(fields[j], n),
        forall|m: int| 0 <= m < fields.len() && m != i ==> !spec_is_standard_element(#[trigger] fields[m], OBSERVATION_TIME_SECONDS),
        forall|m: int| 0 <= m < fields.len() && m != j ==> !spec_is_standard_element(#[trigger] fields[m], OBSERVATION_TIME_NANOSECONDS),
    ensures
        spec_record_time(fields) matches Some(time) && time == s * 1_000_000_000 + n,
{
    lemma_time_fields_prefix(fields, i, s, j, Some(n), None, fields.len() as int);
    assert(fields.take(fields.len() as int) =~= fields);
    assert(s * 1_000_000_000 + n <= u64::MAX) by (nonlinear_arith)
        requires
            s <= u32::MAX,
            n <= u32::MAX,
    ;
}

/// Law: a record with one standard observationTimeNanoseconds field carrying
/// the 64 bits `t` is observed at `t`, whatever seconds field it has.
pub proof fn lemma_full_nanoseconds_win(fields: Seq<IpfixField>, i: int, s: u32, j: int, t: u64)
    requires
        i < fields.len(),
        0 <= j < fields.len(),
        0 <= i ==> spec_is_standard_element(fields[i], OBSERVATION_TIME_SECONDS) && spec_carries_u32(fields[i], s),
        spec_is_standard_element(fields[j], OBSERVATION_TIME_NANOSECONDS) && spec_carries_u64(fields[j], t),
        forall|m: int| 0 <= m < fields.len() && m != i ==> !spec_is_standard_element(#[trigger] fields[m], OBSERVATION_TIME_SECONDS),
        forall|m: int| 0 <= m < fields.len() && m != j ==> !spec_is_standard_element(#[trigger] fields[m], OBSERVATION_TIME_NANOSECONDS),
    ensures
        spec_record_time(fields) == Some(t),
{
    lemma_time_fields_prefix(fields, i, s, j, None, Some(t), fields.len() as int);
    assert(fields.take(fields.len() as int) =~= fields);
}

/// The observation time fields of `record`, combined as `spec_record_time`
/// says; `None` when they do not give a time.
pub fn record_observation_time(record: &IpfixDataRecord) -> (r: Option<u64>)
    ensures
        r == spec_record_time(record.values@),
{
    let mut secs: Option<u32> = None;
    let mut nanos: Option<u32> = None;
    let mut full: Option<u64> = None;
    let mut i: usize = 0;
    while i < record.values.len()
        invariant
            i <= record.values@.len(),
            (secs, nanos, full) == spec_time_fields(record.values@.take(i as int)),
        decreases record.values@.len() - i,
    {
        let f = &record.values[i];
        assert(record.values@.take(i + 1).drop_last() =~= record.values@.take(i as int));
        match &f.key {
            IpfixFieldKey::Unrecognized(spec) => {
                if spec.enterprise_number.is_none() {
                    if spec.information_element_identifier == OBSERVATION_TIME_NANOSECONDS {
                        match &f.value {
                            IpfixValue::Bytes(b) => {
                                if b.len() == 8 {
                                    full = Some(read_be_u64(b.as_slice()));
                                } else if b.len() == 4 {
                                    nanos = Some(read_be_u32(b.as_slice()));
                                }
                            },
                            IpfixValue::U64(v) => {
                                full = Some(*v);
                            },
                            IpfixValue::U32(v) => {
                                nanos = Some(*v);
                            },
                            _ => {},
                        }
                    } else if spec.information_element_identifier == OBSERVATION_TIME_SECONDS {
                        match &f.value {
                            IpfixValue::Bytes(b) => {
                                if b.len() == 4 {
                                    secs = Some(read_be_u32(b.as_slice()));
                                }
                            },
                            IpfixValue::U32(v) => {
                                secs = Some(*v);
                            },
                            _ => {},
                        }
                    }
                }
            },
            IpfixFieldKey::Other => {},
        }
        i = i + 1;
    }
    assert(record.values@.take(record.values@.len() as int) =~= record.values@);
    match full {
        Some(t) => Some(t),
        None => match (secs, nanos) {
            (Some(s), Some(n)) => {
                assert(s * 1_000_000_000 + n <= u64::MAX) by (nonlinear_arith)
                    requires
                        s <= u32::MAX,
                        n <= u32::MAX,
                ;
                Some((s as u64) * 1_000_000_000 + (n as u64))
            },
            _ => None,
        },
    }
}

/// Observation time of `record`: the time its fields carry, else the
/// current time of the system clock. Always `Some`; when the fields give no
/// time, nothing is claimed of the clock's reading.
pub fn get_observation_time(record: &IpfixDataRecord) -> (r: Option<u64>)
    ensures
        r is Some,
        spec_record_time(record.values@) matches Some(t) ==> r == Some(t),
{
    match record_observation_time(record) {
        Some(t) => Some(t),
        None => Some(current_time_nanos()),
    }
}


/// The template bookkeeping as values: the temporary templates (template id
/// to session key) with their ids in insertion order, and the applied
/// templates (session key to template ids) with their keys in insertion
/// order.
pub struct TemplatesModel {
    pub temp_ids: Seq<u16>,
    pub temp: Map<u16, Seq<char>>,
    pub applied_keys: Seq<Seq<char>>,
    pub applied: Map<Seq<char>, Seq<u16>>,
}

/// Template `id` of session `key` stored as temporary.
pub open spec fn spec_store_template(t: TemplatesModel, id: u16, key: Seq<char>) -> TemplatesModel {
    TemplatesModel {
        temp_ids: if t.temp.dom().contains(id) { t.temp_ids } else { t.temp_ids.push(id) },
        temp: t.temp.insert(id, key),
        ..t
    }
}

/// Templates `ids` of session `key` stored as temporary, one after the other.
pub open spec fn spec_store_templates(t: TemplatesModel, ids: Seq<u16>, key: Seq<char>) -> TemplatesModel
    decreases ids.len(),
{
    if ids.len() == 0 {
        t
    } else {
        spec_store_template(spec_store_templates(t, ids.drop_last(), key), ids.last(), key)
    }
}

/// Which temporary templates stay: those not in `removed` and not of
/// session `key`.
pub open spec fn spec_keeps(t: TemplatesModel, key: Seq<char>, removed: Seq<u16>) -> spec_fn(u16) -> bool {
    |x: u16| !removed.contains(x) && t.temp[x] != key
}

/// The temporary templates reduced to those that stay.
pub open spec fn spec_retain(t: TemplatesModel, key: Seq<char>, removed: Seq<u16>) -> TemplatesModel {
    TemplatesModel {
        temp_ids: t.temp_ids.filter(spec_keeps(t, key, removed)),
        temp: t.temp.restrict(t.temp.dom().filter(spec_keeps(t, key, removed))),
        ..t
    }
}

/// Ids of the temporary templates of session `key`, in insertion order.
pub open spec fn spec_session_ids(t: TemplatesModel, key: Seq<char>) -> Seq<u16> {
    t.temp_ids.filter(|x: u16| t.temp[x] == key)
}

/// A data set used template `id`: when it is temporary, every temporary
/// template of its session becomes applied under the session's key.
pub open spec fn spec_apply_template(t: TemplatesModel, id: u16) -> TemplatesModel {
    if !t.temp.dom().contains(id) {
        t
    } else {
        let key = t.temp[id];
        let r = spec_retain(t, key, Seq::empty());
        TemplatesModel {
            applied_keys: if t.applied.dom().contains(key) { t.applied_keys } else { t.applied_keys.push(key) },
            applied: t.applied.insert(key, spec_session_ids(t, key)),
            ..r
        }
    }
}

/// The data sets of a message, in order, each applying its template.
pub open spec fn spec_apply_sets(t: TemplatesModel, set_ids: Seq<Option<u16>>) -> TemplatesModel
    decreases set_ids.len(),
{
    if set_ids.len() == 0 {
        t
    } else {
        let before = spec_apply_sets(t, set_ids.drop_last());
        match set_ids.last() {
            Some(id) => spec_apply_template(before, id),
            None => before,
        }
    }
}

/// Session `key` withdrawn: its applied templates, and every temporary
/// template that was applied under it or belongs to it, are forgotten.
pub open spec fn spec_delete_session(t: TemplatesModel, key: Seq<char>) -> TemplatesModel {
    let removed = if t.applied.dom().contains(key) { t.applied[key] } else { Seq::<u16>::empty() };
    let r = spec_retain(t, key, removed);
    TemplatesModel {
        applied_keys: t.applied_keys.filter(|k: Seq<char>| k != key),
        applied: t.applied.remove(key),
        ..r
    }
}

/// Law: withdrawing a session leaves no applied templates under its key and
/// no temporary template of it.
pub proof fn lemma_delete_forgets_session(t: TemplatesModel, key: Seq<char>)
    ensures
        !spec_delete_session(t, key).applied.dom().contains(key),
        forall|id: u16| #[trigger] spec_delete_session(t, key).temp.dom().contains(id) ==> spec_delete_session(t, key).temp[id] != key,
{
}

/// Law: when a data set uses a temporary template, every template of its
/// session is applied under the session's key, that template among them,
/// and no temporary template of the session is left.
pub proof fn lemma_apply_moves_session(t: TemplatesModel, id: u16)
    requires
        t.temp.dom().contains(id),
        t.temp_ids.to_set() == t.temp.dom(),
    ensures
        ({
            let key = t.temp[id];
            let a = spec_apply_template(t, id);
            &&& a.applied.dom().contains(key)
            &&& a.applied[key].contains(id)
            &&& forall|x: u16| #[trigger] a.temp.dom().contains(x) ==> a.temp[x] != key
        }),
{
    let key = t.temp[id];
    assert(t.temp_ids.to_set().contains(id));
    let i = choose|i: int| 0 <= i < t.temp_ids.len() && t.temp_ids[i] == id;
    t.temp_ids.lemma_filter_contains(|x: u16| t.temp[x] == key, i);
}

/// Law: a template stored for a session is temporary and belongs to that
/// session, whatever was stored after it for the same session.
pub proof fn lemma_stored_templates_belong_to_session(t: TemplatesModel, ids: Seq<u16>, key: Seq<char>, i: int)
    requires
        0 <= i < ids.len(),
    ensures
        spec_store_templates(t, ids, key).temp.dom().contains(ids[i]),
        spec_store_templates(t, ids, key).temp[ids[i]] == key,
    decreases ids.len(),
{
    if i < ids.len() - 1 {
        lemma_stored_templates_belong_to_session(t, ids.drop_last(), key, i);
    }
}

/// One step of a filter over a growing prefix.
proof fn lemma_filter_take_step<A>(s: Seq<A>, i: int, p: spec_fn(A) -> bool)
    requires
        0 <= i < s.len(),
    ensures
        s.take(i + 1).filter(p) == (if p(s[i]) { s.take(i).filter(p).push(s[i]) } else { s.take(i).filter(p) }),
{
    reveal(Seq::filter);
    assert(s.take(i + 1).drop_last() =~= s.take(i));
}

/// Whether `x` is among `v`.
fn u16_listed(v: &[u16], x: u16) -> (r: bool)
    ensures
        r == v@.contains(x),
{
    let mut i: usize = 0;
    while i < v.len()
        invariant
            i <= v@.len(),
            forall|j: int| 0 <= j < i ==> v@[j] != x,
        decreases v@.len() - i,
    {
        if v[i] == x {
            return true;
        }
        i = i + 1;
    }
    false
}

/// Whether a field carries an observation time (a standard
/// observationTimeNanoseconds or observationTimeSeconds element).
pub open spec fn spec_is_time_field(f: IpfixField) -> bool {
    match f.key {
        IpfixFieldKey::Unrecognized(spec) => spec.enterprise_number is None && (spec.information_element_identifier
            == OBSERVATION_TIME_NANOSECONDS || spec.information_element_identifier == OBSERVATION_TIME_SECONDS),
        IpfixFieldKey::Other => false,
    }
}

/// Whether a field is a counter reading: an unnamed element that is not an
/// observation time.
pub open spec fn spec_is_reading_field(f: IpfixField) -> bool {
    f.key is Unrecognized && !spec_is_time_field(f)
}

/// A SAI statistic as values: object name, type, statistic, counter.
pub open spec fn spec_reading(s: SAIStat) -> (Seq<char>, u32, u32, u64) {
    (s.object_name@, s.type_id, s.stat_id, s.counter)
}

/// The reading a field gives (see `SAIStat::from_ipfix`).
pub open spec fn spec_field_reading(f: IpfixField, names: Seq<String>) -> (Seq<char>, u32, u32, u64) {
    let spec = f.key->Unrecognized_0;
    let en = match spec.enterprise_number {
        Some(e) => e,
        None => 0u32,
    };
    (spec_object_name(spec.information_element_identifier, names), spec_type_id(en), spec_stat_id(en), spec_counter(f.value))
}

/// The readings of a data record: one per reading field, in order.
pub open spec fn spec_record_readings(fields: Seq<IpfixField>, names: Seq<String>) -> Seq<(Seq<char>, u32, u32, u64)> {
    fields.filter(|f: IpfixField| spec_is_reading_field(f)).map_values(|f: IpfixField| spec_field_reading(f, names))
}

/// The session whose object names the labels of data records refer to: the
/// session of the first temporary template, else the first applied session.
pub open spec fn spec_template_key(t: TemplatesModel) -> Option<Seq<char>> {
    if t.temp_ids.len() > 0 {
        Some(t.temp[t.temp_ids[0]])
    } else if t.applied_keys.len() > 0 {
        Some(t.applied_keys[0])
    } else {
        None
    }
}

/// Latest observation time after records observed at `times`: a later time
/// replaces the latest one, and the first one replaces none.
pub open spec fn spec_latest_time(last: Option<u64>, times: Seq<u64>) -> Option<u64>
    decreases times.len(),
{
    if times.len() == 0 {
        last
    } else {
        let before = spec_latest_time(last, times.drop_last());
        let t = times.last();
        match before {
            Some(l) => if t > l { Some(t) } else { Some(l) },
            None => Some(t),
        }
    }
}

/// Once there is a latest observation time, there always is one.
proof fn lemma_latest_time_keeps_some(last: Option<u64>, times: Seq<u64>)
    requires
        last is Some,
    ensures
        spec_latest_time(last, times) is Some,
    decreases times.len(),
{
    if times.len() > 0 {
        lemma_latest_time_keeps_some(last, times.drop_last());
    }
}

/// Observing two batches of times is observing them all at once.
proof fn lemma_latest_time_append(last: Option<u64>, a: Seq<u64>, b: Seq<u64>)
    ensures
        spec_latest_time(spec_latest_time(last, a), b) == spec_latest_time(last, a + b),
    decreases b.len(),
{
    if b.len() == 0 {
        assert(a + b =~= a);
    } else {
        lemma_latest_time_append(last, a, b.drop_last());
        assert((a + b).drop_last() =~= a + b.drop_last());
    }
}

/// Storing templates in two batches is storing them all at once.
proof fn lemma_store_templates_append(t: TemplatesModel, a: Seq<u16>, b: Seq<u16>, key: Seq<char>)
    ensures
        spec_store_templates(spec_store_templates(t, a, key), b, key) == spec_store_templates(t, a + b, key),
    decreases b.len(),
{
    if b.len() == 0 {
        assert(a + b =~= a);
    } else {
        lemma_store_templates_append(t, a, b.drop_last(), key);
        assert((a + b).drop_last() =~= a + b.drop_last());
    }
}

/// Applying the data sets of two messages is applying them all at once.
proof fn lemma_apply_sets_append(t: TemplatesModel, a: Seq<Option<u16>>, b: Seq<Option<u16>>)
    ensures
        spec_apply_sets(spec_apply_sets(t, a), b) == spec_apply_sets(t, a + b),
    decreases b.len(),
{
    if b.len() == 0 {
        assert(a + b =~= a);
    } else {
        lemma_apply_sets_append(t, a, b.drop_last());
        assert((a + b).drop_last() =~= a + b.drop_last());
    }
}

/// The readings of the reading fields of `record`, in order, with labels
/// taken from `names`.
pub fn record_stats(record: &IpfixDataRecord, names: &[String]) -> (r: Vec<SAIStat>)
    ensures
        r@.map_values(|s: SAIStat| spec_reading(s)) == spec_record_readings(record.values@, names@),
{
    let ghost fields = record.values@;
    let ghost p = |f: IpfixField| spec_is_reading_field(f);
    let ghost g = |f: IpfixField| spec_field_reading(f, names@);
    let mut stats: Vec<SAIStat> = Vec::new();
    let mut i: usize = 0;
    proof {
        reveal(Seq::filter);
        assert(fields.take(0) =~= Seq::<IpfixField>::empty());
        assert(stats@.map_values(|s: SAIStat| spec_reading(s)) =~= fields.take(0).filter(p).map_values(g));
    }
    while i < record.values.len()
        invariant
            fields == record.values@,
            p == (|f: IpfixField| spec_is_reading_field(f)),
            g == (|f: IpfixField| spec_field_reading(f, names@)),
            i <= fields.len(),
            stats@.map_values(|s: SAIStat| spec_reading(s)) == fields.take(i as int).filter(p).map_values(g),
        decreases fields.len() - i,
    {
        let f = &record.values[i];
        proof {
            lemma_filter_take_step(fields, i as int, p);
        }
        let ghost before = stats@;
        match &f.key {
            IpfixFieldKey::Unrecognized(spec) => {
                let is_time = spec.enterprise_number.is_none() && (spec.information_element_identifier
                    == OBSERVATION_TIME_NANOSECONDS || spec.information_element_identifier == OBSERVATION_TIME_SECONDS);
                if !is_time {
                    let stat = SAIStat::from_ipfix(spec, &f.value, names);
                    stats.push(stat);
                    proof {
                        let en = match spec.enterprise_number {
                            Some(e) => e,
                            None => 0u32,
                        };
                        assert(spec.enterprise_number.unwrap_or(0) == en);
                        assert(stats@.map_values(|s: SAIStat| spec_reading(s)) =~= before.map_values(|s: SAIStat| spec_reading(s)).push(g(*f)));
                        assert(fields.take(i as int).filter(p).push(*f).map_values(g) =~= fields.take(i as int).filter(p).map_values(g).push(g(*f)));
                    }
                }
            },
            IpfixFieldKey::Other => {},
        }
        i = i + 1;
    }
    assert(fields.take(fields.len() as int) =~= fields);
    stats
}

/// The object names the labels of data records refer to, with templates
/// `t` and the object names `names` of the sessions: those of the session
/// `spec_template_key` picks, or none.
pub open spec fn spec_names_for(t: TemplatesModel, names: Map<Seq<char>, Seq<String>>) -> Seq<String> {
    match spec_template_key(t) {
        Some(k) => if names.dom().contains(k) { names[k] } else { Seq::<String>::empty() },
        None => Seq::<String>::empty(),
    }
}

/// A decoded IPFIX message as `ipfix_parse` names it: template ids, data
/// set ids, and the fields of each data record.
pub type IpfixDecodedView = (Seq<u16>, Seq<Option<u16>>, Seq<Map<FieldSpecView, Seq<u8>>>, Seq<u8>, Seq<usize>, Seq<Seq<FieldSpecView>>);

/// Decoding the IPFIX messages `frames` one after the other, starting from
/// a decoder store holding `store`: per message what was decoded (`None`
/// where a template record of it reads no data, so that it is not handed to
/// the decoder, or where the decoder refuses it), and the store afterwards.
pub open spec fn spec_decode_frames(store: Map<u16, Seq<FieldSpecView>>, frames: Seq<Seq<u8>>) -> (
    Seq<Option<IpfixDecodedView>>,
    Map<u16, Seq<FieldSpecView>>,
)
    decreases frames.len(),
{
    if frames.len() == 0 {
        (Seq::empty(), store)
    } else {
        let (ds, st) = spec_decode_frames(store, frames.drop_last());
        let f = frames.last();
        if spec_message_templates_read_data(f) {
            let (d, st2) = ipfix_parse(st, f);
            (ds.push(d), st2)
        } else {
            (ds.push(None), st)
        }
    }
}

/// The template ids of decoded messages, in order.
pub open spec fn spec_decoded_template_ids(ds: Seq<Option<IpfixDecodedView>>) -> Seq<u16>
    decreases ds.len(),
{
    if ds.len() == 0 {
        Seq::empty()
    } else {
        spec_decoded_template_ids(ds.drop_last()) + match ds.last() {
            Some(d) => d.0,
            None => Seq::<u16>::empty(),
        }
    }
}

/// The statistics of groups of records, one group after the other.
pub open spec fn spec_concat(groups: Seq<Seq<SAIStats>>) -> Seq<SAIStats>
    decreases groups.len(),
{
    if groups.len() == 0 {
        Seq::empty()
    } else {
        spec_concat(groups.drop_last()) + groups.last()
    }
}

/// Whether `out` are the statistics of the records of `m`, in order, with
/// labels taken from `names`: the readings of each record's reading fields,
/// at the observation time the record carries, if it carries one.
pub open spec fn spec_message_processed(m: IpfixParsedMessage, out: Seq<SAIStats>, names: Seq<String>) -> bool {
    &&& out.len() == m.records@.len()
    &&& forall|i: int| 0 <= i < out.len() ==> (#[trigger] out[i]).stats@.map_values(|s: SAIStat| spec_reading(s))
        == spec_record_readings(m.records@[i].values@, names)
    &&& forall|i: int| 0 <= i < out.len() ==> (spec_record_time(m.records@[i].values@) matches Some(t) ==> (#[trigger] out[i]).observation_time == t)
}

/// Whether one IPFIX message of a buffer was handled: not decoded, with no
/// statistics and the templates unchanged; or decoded as `d` into `m`,
/// whose data sets took the templates from `before` to `after` and whose
/// records gave `out`.
pub open spec fn spec_frame_handled(
    before: TemplatesModel,
    names: Map<Seq<char>, Seq<String>>,
    d: Option<IpfixDecodedView>,
    m: Option<IpfixParsedMessage>,
    out: Seq<SAIStats>,
    after: TemplatesModel,
) -> bool {
    match (d, m) {
        (None, None) => out.len() == 0 && after == before,
        (Some(d), Some(m)) => {
            &&& spec_message_is(m, d)
            &&& after == spec_apply_sets(before, m.set_data_ids@)
            &&& spec_message_processed(m, out, spec_names_for(after, names))
        },
        _ => false,
    }
}

/// The templates before message `k`, when `ts` are those after each message
/// and `t0` those before the first.
pub open spec fn spec_templates_before(t0: TemplatesModel, ts: Seq<TemplatesModel>, k: int) -> TemplatesModel {
    if k <= 0 { t0 } else { ts[k - 1] }
}

/// Whether the messages decoded as `ds` were handled one after the other
/// from templates `t0`: as `msgs`, giving the statistics `groups` and
/// leaving the templates `ts` after each.
pub open spec fn spec_frames_handled(
    t0: TemplatesModel,
    names: Map<Seq<char>, Seq<String>>,
    ds: Seq<Option<IpfixDecodedView>>,
    msgs: Seq<Option<IpfixParsedMessage>>,
    groups: Seq<Seq<SAIStats>>,
    ts: Seq<TemplatesModel>,
) -> bool {
    &&& msgs.len() == ds.len()
    &&& groups.len() == ds.len()
    &&& ts.len() == ds.len()
    &&& forall|k: int| 0 <= k < ds.len() ==> #[trigger] spec_frame_handled(
        spec_templates_before(t0, ts, k),
        names,
        ds[k],
        msgs[k],
        groups[k],
        ts[k],
    )
}

/// State of the IPFIX processor.
pub struct IpfixState {
    /// Template id to session key, for templates no data set used yet.
    pub temporary_templates_map: AssocList<u16, String>,
    /// Session key to template ids, for sessions whose templates are in use.
    pub applied_templates_map: AssocList<String, Vec<u16>>,
    /// Session key to the object names its labels refer to.
    pub object_names_map: AssocList<String, Vec<String>>,
    /// The IPFIX decoder and the templates it has read.
    pub decoder: IpfixDecoder,
    /// Latest observation time seen.
    pub last_observer_time: Option<u64>,
}

impl IpfixState {
    /// Well-formed tables.
    pub open spec fn wf(&self) -> bool {
        &&& self.temporary_templates_map.wf()
        &&& self.applied_templates_map.wf()
        &&& self.object_names_map.wf()
        &&& spec_store_reads_data(decoder_templates(self.decoder))
    }

    /// The template bookkeeping as values.
    pub open spec fn templates(&self) -> TemplatesModel {
        TemplatesModel {
            temp_ids: self.temporary_templates_map.keys(),
            temp: self.temporary_templates_map.map().map_values(|s: String| s@),
            applied_keys: self.applied_templates_map.keys(),
            applied: self.applied_templates_map.map().map_values(|v: Vec<u16>| v@),
        }
    }

    /// Session key to object names.
    pub open spec fn names(&self) -> Map<Seq<char>, Seq<String>> {
        self.object_names_map.map().map_values(|v: Vec<String>| v@)
    }

    /// No templates, no object names, a fresh decoder, and the current time
    /// as the latest observation time.
    pub fn new() -> (r: Self)
        ensures
            r.wf(),
            r.templates().temp_ids == Seq::<u16>::empty(),
            r.templates().temp == Map::<u16, Seq<char>>::empty(),
            r.templates().applied_keys == Seq::<Seq<char>>::empty(),
            r.templates().applied == Map::<Seq<char>, Seq<u16>>::empty(),
            r.names() == Map::<Seq<char>, Seq<String>>::empty(),
            r.last_observer_time is Some,
    {
        let r = IpfixState {
            temporary_templates_map: AssocList::new(),
            applied_templates_map: AssocList::new(),
            object_names_map: AssocList::new(),
            decoder: IpfixDecoder::new(),
            last_observer_time: Some(current_time_nanos()),
        };
        assert(r.temporary_templates_map.map() =~= Map::<u16, String>::empty());
        assert(r.applied_templates_map.map() =~= Map::<Seq<char>, Vec<u16>>::empty());
        assert(r.object_names_map.map() =~= Map::<Seq<char>, Vec<String>>::empty());
        assert(r.templates().temp =~= Map::<u16, Seq<char>>::empty());
        assert(r.templates().applied =~= Map::<Seq<char>, Seq<u16>>::empty());
        assert(r.names() =~= Map::<Seq<char>, Seq<String>>::empty());
        r
    }

    /// Keeps the temporary templates that are not in `removed` and do not
    /// belong to session `key`, in their order; returns the ids of those of
    /// session `key`, in order.
    fn retain_temporary(&mut self, key: &str, removed: &[u16]) -> (r: Vec<u16>)
        requires
            old(self).wf(),
        ensures
            final(self).wf(),
            final(self).templates() == spec_retain(old(self).templates(), key@, removed@),
            r@ == spec_session_ids(old(self).templates(), key@),
            final(self).applied_templates_map == old(self).applied_templates_map,
            final(self).object_names_map == old(self).object_names_map,
            final(self).decoder == old(self).decoder,
            final(self).last_observer_time == old(self).last_observer_time,
    {
        let ghost t = self.templates();
        let ghost m = self.temporary_templates_map.map();
        let ghost ks = self.temporary_templates_map.keys();
        let ghost keep = spec_keeps(t, key@, removed@);
        let ghost mine = |x: u16| t.temp[x] == key@;
        let mut kept: AssocList<u16, String> = AssocList::new();
        let mut ids: Vec<u16> = Vec::new();
        let n = self.temporary_templates_map.len();
        let mut i: usize = 0;
        proof {
            self.temporary_templates_map.lemma_keys_distinct();
            assert(ks.take(0) =~= Seq::<u16>::empty());
            reveal(Seq::filter);
            assert(kept.map() =~= m.restrict(Set::new(|x: u16| ks.take(0).contains(x) && keep(x))));
        }
        while i < n
            invariant
                self.wf(),
                kept.wf(),
                t == self.templates(),
                m == self.temporary_templates_map.map(),
                ks == self.temporary_templates_map.keys(),
                ks.no_duplicates(),
                n == ks.len(),
                keep == spec_keeps(t, key@, removed@),
                mine == (|x: u16| t.temp[x] == key@),
                i <= n,
                kept.keys() == ks.take(i as int).filter(keep),
                kept.map() == m.restrict(Set::new(|x: u16| ks.take(i as int).contains(x) && keep(x))),
                ids@ == ks.take(i as int).filter(mine),
            decreases n - i,
        {
            let id = *self.temporary_templates_map.key_at(i);
            let v = self.temporary_templates_map.value_at(i);
            proof {
                self.temporary_templates_map.lemma_index_of(i as int);
                assert(ks[i as int] == id);
                assert(m.dom().contains(id) && m[id] == *v);
                assert(t.temp[id] == v@);
                lemma_filter_take_step(ks, i as int, keep);
                lemma_filter_take_step(ks, i as int, mine);
                assert(!ks.take(i as int).contains(id));
            }
            let is_mine = str_eq(v.as_str(), key);
            if is_mine {
                ids.push(id);
            }
            let listed = u16_listed(removed, id);
            let ghost kept0 = kept.map();
            if !is_mine && !listed {
                proof {
                    assert(!kept.contains(id)) by {
                        if kept.contains(id) {
                            assert(kept.map().dom().contains(id));
                        }
                    }
                }
                kept.insert(id, v.clone());
            }
            proof {
                assert(kept.map() =~= m.restrict(Set::new(|x: u16| ks.take(i + 1).contains(x) && keep(x)))) by {
                    let t1 = ks.take(i + 1);
                    let t0 = ks.take(i as int);
                    assert forall|x: u16| t1.contains(x) == (t0.contains(x) || x == id) by {
                        if t1.contains(x) {
                            let j = choose|j: int| 0 <= j < t1.len() && t1[j] == x;
                            if j < i {
                                assert(t0[j] == x);
                            }
                        }
                        if t0.contains(x) {
                            let j = choose|j: int| 0 <= j < t0.len() && t0[j] == x;
                            assert(t1[j] == x);
                        }
                        if x == id {
                            assert(t1[i as int] == x);
                        }
                    }
                }
            }
            i = i + 1;
        }
        proof {
            assert(ks.take(n as int) =~= ks);
            self.temporary_templates_map.lemma_keys_domain();
            assert(Set::new(|x: u16| ks.contains(x) && keep(x)) =~= t.temp.dom().filter(keep));
            assert(kept.map().map_values(|s: String| s@) =~= t.temp.restrict(t.temp.dom().filter(keep)));
        }
        self.temporary_templates_map = kept;
        ids
    }

    /// Stores templates `template_ids` as temporary templates of session
    /// `msg_key`, in order.
    pub fn insert_temporary_template(&mut self, msg_key: &String, template_ids: &[u16])
        requires
            old(self).wf(),
        ensures
            final(self).wf(),
            final(self).templates() == spec_store_templates(old(self).templates(), template_ids@, msg_key@),
            final(self).object_names_map == old(self).object_names_map,
            final(self).decoder == old(self).decoder,
            final(self).last_observer_time == old(self).last_observer_time,
    {
        let ghost t0 = self.templates();
        let mut i: usize = 0;
        assert(template_ids@.take(0) =~= Seq::<u16>::empty());
        while i < template_ids.len()
            invariant
                self.wf(),
                i <= template_ids@.len(),
                self.templates() == spec_store_templates(t0, template_ids@.take(i as int), msg_key@),
                self.object_names_map == old(self).object_names_map,
                self.decoder == old(self).decoder,
                self.last_observer_time == old(self).last_observer_time,
            decreases template_ids@.len() - i,
        {
            let id = template_ids[i];
            let ghost m0 = self.temporary_templates_map.map();
            assert(template_ids@.take(i + 1).drop_last() =~= template_ids@.take(i as int));
            self.temporary_templates_map.insert(id, msg_key.clone());
            assert(self.temporary_templates_map.map().map_values(|s: String| s@) =~= m0.map_values(|s: String| s@).insert(id, msg_key@));
            i = i + 1;
        }
        assert(template_ids@.take(template_ids@.len() as int) =~= template_ids@);
    }

    /// A data set used template `template_id`: when it is temporary, every
    /// temporary template of its session becomes applied under the
    /// session's key.
    pub fn update_applied_template(&mut self, template_id: u16)
        requires
            old(self).wf(),
        ensures
            final(self).wf(),
            final(self).templates() == spec_apply_template(old(self).templates(), template_id),
            final(self).object_names_map == old(self).object_names_map,
            final(self).decoder == old(self).decoder,
            final(self).last_observer_time == old(self).last_observer_time,
    {
        let ghost t = self.templates();
        let key = match self.temporary_templates_map.get(&template_id) {
            Some(k) => k.clone(),
            None => {
                assert(!t.temp.dom().contains(template_id));
                return;
            },
        };
        assert(t.temp[template_id] == key@);
        let none: Vec<u16> = Vec::new();
        let ids = self.retain_temporary(key.as_str(), none.as_slice());
        let ghost a0 = self.applied_templates_map.map();
        let ghost kv = key@;
        let ghost idv = ids@;
        self.applied_templates_map.insert(key, ids);
        assert(self.applied_templates_map.map().map_values(|v: Vec<u16>| v@) =~= a0.map_values(|v: Vec<u16>| v@).insert(kv, idv));
    }

    /// Forgets session `key`: its applied templates, every temporary template
    /// that was applied under it or belongs to it, and its object names.
    pub fn handle_template_deletion(&mut self, key: &str)
        requires
            old(self).wf(),
        ensures
            final(self).wf(),
            final(self).templates() == spec_delete_session(old(self).templates(), key@),
            final(self).names() == old(self).names().remove(key@),
            final(self).decoder == old(self).decoder,
            final(self).last_observer_time == old(self).last_observer_time,
    {
        let ghost t = self.templates();
        let ghost n0 = self.object_names_map.map();
        let k = key.to_owned();
        let removed: Vec<u16> = match self.applied_templates_map.remove(&k) {
            Some(ids) => ids,
            None => Vec::new(),
        };
        assert(removed@ == (if t.applied.dom().contains(key@) { t.applied[key@] } else { Seq::<u16>::empty() }));
        let ghost a1 = self.applied_templates_map;
        self.retain_temporary(key, removed.as_slice());
        self.object_names_map.remove(&k);
        proof {
            assert(a1.map().map_values(|v: Vec<u16>| v@) =~= t.applied.remove(key@));
            assert(self.names() =~= n0.map_values(|v: Vec<String>| v@).remove(key@));
        }
    }

    /// The object names the labels of data records refer to: those of the
    /// session `spec_template_key` picks, or none.
    pub open spec fn record_names(&self) -> Seq<String> {
        spec_names_for(self.templates(), self.names())
    }

    /// The object names the labels of data records refer to.
    pub fn record_object_names(&self) -> (r: &[String])
        requires
            self.wf(),
        ensures
            r@ == self.record_names(),
    {
        let ghost t = self.templates();
        let key: &String = if self.temporary_templates_map.len() > 0 {
            proof {
                self.temporary_templates_map.lemma_index_of(0);
            }
            self.temporary_templates_map.value_at(0)
        } else if self.applied_templates_map.len() > 0 {
            self.applied_templates_map.key_at(0)
        } else {
            return &[];
        };
        assert(spec_template_key(t) == Some(key@));
        match self.object_names_map.get(key) {
            Some(names) => names.as_slice(),
            None => &[],
        }
    }

    /// Processes one decoded IPFIX message: each data set applies its
    /// template, then each data record becomes the readings of its reading
    /// fields, at its observation time (the time its fields carry, else the
    /// clock's), and the latest observation time follows.
    pub fn process_data_message(&mut self, m: &IpfixParsedMessage) -> (r: Vec<SAIStats>)
        requires
            old(self).wf(),
        ensures
            final(self).wf(),
            final(self).templates() == spec_apply_sets(old(self).templates(), m.set_data_ids@),
            final(self).object_names_map == old(self).object_names_map,
            final(self).decoder == old(self).decoder,
            r@.len() == m.records@.len(),
            forall|i: int| 0 <= i < r@.len() ==> (#[trigger] r@[i]).stats@.map_values(|s: SAIStat| spec_reading(s))
                == spec_record_readings(m.records@[i].values@, final(self).record_names()),
            forall|i: int| 0 <= i < r@.len() ==> (spec_record_time(m.records@[i].values@) matches Some(t) ==> (#[trigger] r@[i]).observation_time == t),
            final(self).last_observer_time == spec_latest_time(
                old(self).last_observer_time,
                r@.map_values(|s: SAIStats| s.observation_time),
            ),
    {
        let ghost t0 = self.templates();
        let mut j: usize = 0;
        assert(m.set_data_ids@.take(0) =~= Seq::<Option<u16>>::empty());
        while j < m.set_data_ids.len()
            invariant
                self.wf(),
                j <= m.set_data_ids@.len(),
                self.templates() == spec_apply_sets(t0, m.set_data_ids@.take(j as int)),
                self.object_names_map == old(self).object_names_map,
                self.decoder == old(self).decoder,
                self.last_observer_time == old(self).last_observer_time,
            decreases m.set_data_ids@.len() - j,
        {
            assert(m.set_data_ids@.take(j + 1).drop_last() =~= m.set_data_ids@.take(j as int));
            match m.set_data_ids[j] {
                Some(id) => self.update_applied_template(id),
                None => {},
            }
            j = j + 1;
        }
        assert(m.set_data_ids@.take(m.set_data_ids@.len() as int) =~= m.set_data_ids@);
        let mut out: Vec<SAIStats> = Vec::new();
        let mut i: usize = 0;
        while i < m.records.len()
            invariant
                self.wf(),
                self.templates() == spec_apply_sets(t0, m.set_data_ids@),
                self.object_names_map == old(self).object_names_map,
                self.decoder == old(self).decoder,
                i <= m.records@.len(),
                out@.len() == i,
                forall|k: int| 0 <= k < i ==> (#[trigger] out@[k]).stats@.map_values(|s: SAIStat| spec_reading(s))
                    == spec_record_readings(m.records@[k].values@, self.record_names()),
                forall|k: int| 0 <= k < i ==> (spec_record_time(m.records@[k].values@) matches Some(t) ==> (#[trigger] out@[k]).observation_time == t),
                self.last_observer_time == spec_latest_time(
                    old(self).last_observer_time,
                    out@.map_values(|s: SAIStats| s.observation_time),
                ),
            decreases m.records@.len() - i,
        {
            let record = &m.records[i];
            let observation_time = get_observation_time(record).unwrap();
            match self.last_observer_time {
                Some(last) => {
                    if observation_time > last {
                        self.last_observer_time = Some(observation_time);
                    }
                },
                None => {
                    self.last_observer_time = Some(observation_time);
                },
            }
            let names = self.record_object_names();
            let stats = record_stats(record, names);
            let ghost before = out@;
            out.push(SAIStats { observation_time, stats });
            proof {
                assert(out@.map_values(|s: SAIStats| s.observation_time).drop_last() =~= before.map_values(|s: SAIStats| s.observation_time));
            }
            i = i + 1;
        }
        out
    }

    /// Handles a template message. A withdrawal forgets the session. New
    /// templates record the session's object names (when given), then the
    /// buffer is cut into IPFIX messages; each one the decoder accepts has
    /// its template records stored as temporary templates of the session.
    pub fn handle_template(&mut self, templates: &IPFixTemplatesMessage)
        requires
            old(self).wf(),
            templates.templates matches Some(d) ==> !spec_ipfix_framing_stalls(d@),
        ensures
            final(self).wf(),
            templates.is_delete ==> final(self).templates() == spec_delete_session(old(self).templates(), templates.key@)
                && final(self).names() == old(self).names().remove(templates.key@),
            !templates.is_delete && templates.templates is None ==> final(self).templates() == old(self).templates()
                && final(self).names() == old(self).names(),
            !templates.is_delete && templates.templates is Some ==> ({
                let decoded = spec_decode_frames(
                    decoder_templates(old(self).decoder),
                    spec_ipfix_frames(templates.templates->0@),
                );
                &&& final(self).templates() == spec_store_templates(
                    old(self).templates(),
                    spec_decoded_template_ids(decoded.0),
                    templates.key@,
                )
                &&& decoder_templates(final(self).decoder) == decoded.1
            }),
            templates.is_delete || templates.templates is None ==> final(self).decoder == old(self).decoder,
            !templates.is_delete && templates.templates is Some ==> final(self).names() == (match templates.object_names {
                Some(names) => old(self).names().insert(templates.key@, names@),
                None => old(self).names(),
            }),
            final(self).last_observer_time == old(self).last_observer_time,
    {
        if templates.is_delete {
            self.handle_template_deletion(templates.key.as_str());
            return;
        }
        let data: &Vec<u8> = match &templates.templates {
            Some(d) => &**d,
            None => {
                return;
            },
        };
        let ghost n0 = self.object_names_map.map();
        match &templates.object_names {
            Some(names) => {
                let copy = names.clone();
                assert(copy@ =~= names@);
                self.object_names_map.insert(templates.key.clone(), copy);
                assert(self.names() =~= n0.map_values(|v: Vec<String>| v@).insert(templates.key@, names@));
            },
            None => {},
        }
        let ghost t0 = self.templates();
        let ghost st0 = decoder_templates(self.decoder);
        let ghost names_map = self.object_names_map;
        let ghost mut done: Seq<Seq<u8>> = Seq::empty();
        let ghost mut at_end = false;
        let mut read_size: usize = 0;
        assert(data@.skip(0) =~= data@);
        assert(spec_ipfix_frames(data@) =~= done + spec_ipfix_frames(data@.skip(0)));
        while read_size < data.len()
            invariant
                self.wf(),
                read_size <= data@.len(),
                !spec_ipfix_framing_stalls(data@.skip(read_size as int)),
                spec_ipfix_frames(data@) == done + spec_ipfix_frames(data@.skip(read_size as int)),
                at_end ==> spec_ipfix_frames(data@.skip(read_size as int)) == Seq::<Seq<u8>>::empty(),
                self.templates() == spec_store_templates(
                    t0,
                    spec_decoded_template_ids(spec_decode_frames(st0, done).0),
                    templates.key@,
                ),
                decoder_templates(self.decoder) == spec_decode_frames(st0, done).1,
                self.object_names_map == names_map,
                self.last_observer_time == old(self).last_observer_time,
            ensures
                at_end || read_size >= data@.len(),
            decreases data@.len() - read_size,
        {
            let len = match next_ipfix_frame(data.as_slice(), read_size) {
                Some(len) => len,
                None => {
                    proof {
                        assert(spec_ipfix_frames(data@.skip(read_size as int)) =~= Seq::<Seq<u8>>::empty());
                        at_end = true;
                    }
                    break;
                },
            };
            let frame = vstd::slice::slice_subrange(data.as_slice(), read_size, read_size + len);
            let ghost ids0 = spec_decoded_template_ids(spec_decode_frames(st0, done).0);
            proof {
                let rest = data@.skip(read_size as int);
                assert(rest.skip(len as int) =~= data@.skip(read_size + len));
                assert(frame@ =~= rest.take(len as int));
                assert(spec_ipfix_frames(rest) == seq![frame@] + spec_ipfix_frames(data@.skip(read_size + len)));
                assert(done + spec_ipfix_frames(rest) =~= done.push(frame@) + spec_ipfix_frames(data@.skip(read_size + len)));
                assert(done.push(frame@).drop_last() =~= done);
            }
            let ghost st_before = decoder_templates(self.decoder);
            let ghost ds0 = spec_decode_frames(st0, done).0;
            let decoded = if message_templates_read_data(frame) {
                self.decoder.decode(frame)
            } else {
                None
            };
            let ghost d_view: Option<IpfixDecodedView> = if spec_message_templates_read_data(frame@) {
                ipfix_parse(st_before, frame@).0
            } else {
                None
            };
            proof {
                assert(spec_decode_frames(st0, done.push(frame@)).0 == ds0.push(d_view));
                assert(ds0.push(d_view).drop_last() =~= ds0);
                assert(decoded is Some <==> d_view is Some);
            }
            match decoded {
                Some(m) => {
                    self.insert_temporary_template(&templates.key, m.template_ids.as_slice());
                    proof {
                        let dv = d_view->0;
                        assert(m.template_ids@ == dv.0);
                        assert(spec_decoded_template_ids(ds0.push(d_view)) == ids0 + m.template_ids@);
                        lemma_store_templates_append(t0, ids0, m.template_ids@, templates.key@);
                    }
                },
                None => {
                    proof {
                        assert(spec_decoded_template_ids(ds0.push(d_view)) == ids0 + Seq::<u16>::empty());
                        assert(ids0 + Seq::<u16>::empty() =~= ids0);
                    }
                },
            }
            proof {
                done = done.push(frame@);
            }
            read_size = read_size + len;
        }
        proof {
            if read_size >= data.len() {
                assert(data@.skip(read_size as int) =~= Seq::<u8>::empty());
            }
            assert(done + Seq::<Seq<u8>>::empty() =~= done);
            assert(spec_ipfix_frames(data@) == done);
            assert(t0 == old(self).templates());
            assert(st0 == decoder_templates(old(self).decoder));
        }
    }

    /// Handles a buffer of IPFIX data messages: the buffer is cut into IPFIX
    /// messages, each message whose template records all read data is
    /// decoded, and each decoded message is processed as
    /// `process_data_message` says; the statistics of all of them are
    /// returned in order. The decoder's store changes as decoding says, the
    /// object names are left as they are, and the latest observation time
    /// follows the returned statistics.
    pub fn handle_record(&mut self, records: SocketBufferMessage) -> (r: Vec<SAIStats>)
        requires
            old(self).wf(),
            !spec_ipfix_framing_stalls(records@),
        ensures
            final(self).wf(),
            final(self).object_names_map == old(self).object_names_map,
            decoder_templates(final(self).decoder) == spec_decode_frames(
                decoder_templates(old(self).decoder),
                spec_ipfix_frames(records@),
            ).1,
            exists|msgs: Seq<Option<IpfixParsedMessage>>, groups: Seq<Seq<SAIStats>>, ts: Seq<TemplatesModel>|
                #[trigger] spec_frames_handled(
                    old(self).templates(),
                    old(self).names(),
                    spec_decode_frames(decoder_templates(old(self).decoder), spec_ipfix_frames(records@)).0,
                    msgs,
                    groups,
                    ts,
                ) && r@ == spec_concat(groups) && final(self).templates() == spec_templates_before(
                    old(self).templates(),
                    ts,
                    ts.len() as int,
                ),
            final(self).last_observer_time == spec_latest_time(
                old(self).last_observer_time,
                r@.map_values(|s: SAIStats| s.observation_time),
            ),
            old(self).last_observer_time is Some ==> final(self).last_observer_time is Some,
    {
        let data: &Vec<u8> = &*records;
        let ghost t0 = self.templates();
        let ghost names0 = self.names();
        let ghost st0 = decoder_templates(self.decoder);
        let ghost mut done: Seq<Seq<u8>> = Seq::empty();
        let ghost mut at_end = false;
        let ghost mut msgs: Seq<Option<IpfixParsedMessage>> = Seq::empty();
        let ghost mut groups: Seq<Seq<SAIStats>> = Seq::empty();
        let ghost mut ts: Seq<TemplatesModel> = Seq::empty();
        let mut messages: Vec<SAIStats> = Vec::new();
        let mut read_size: usize = 0;
        assert(data@.skip(0) =~= data@);
        assert(spec_ipfix_frames(data@) =~= done + spec_ipfix_frames(data@.skip(0)));
        while read_size < data.len()
            invariant
                self.wf(),
                read_size <= data@.len(),
                !spec_ipfix_framing_stalls(data@.skip(read_size as int)),
                spec_ipfix_frames(data@) == done + spec_ipfix_frames(data@.skip(read_size as int)),
                at_end ==> spec_ipfix_frames(data@.skip(read_size as int)) == Seq::<Seq<u8>>::empty(),
                decoder_templates(self.decoder) == spec_decode_frames(st0, done).1,
                spec_frames_handled(t0, names0, spec_decode_frames(st0, done).0, msgs, groups, ts),
                messages@ == spec_concat(groups),
                self.templates() == spec_templates_before(t0, ts, ts.len() as int),
                self.object_names_map == old(self).object_names_map,
                self.names() == names0,
                self.last_observer_time == spec_latest_time(
                    old(self).last_observer_time,
                    messages@.map_values(|s: SAIStats| s.observation_time),
                ),
            ensures
                at_end || read_size >= data@.len(),
            decreases data@.len() - read_size,
        {
            let len = match next_ipfix_frame(data.as_slice(), read_size) {
                Some(len) => len,
                None => {
                    proof {
                        assert(spec_ipfix_frames(data@.skip(read_size as int)) =~= Seq::<Seq<u8>>::empty());
                        at_end = true;
                    }
                    break;
                },
            };
            let frame = vstd::slice::slice_subrange(data.as_slice(), read_size, read_size + len);
            proof {
                let rest = data@.skip(read_size as int);
                assert(rest.skip(len as int) =~= data@.skip(read_size + len));
                assert(frame@ =~= rest.take(len as int));
                assert(spec_ipfix_frames(rest) == seq![frame@] + spec_ipfix_frames(data@.skip(read_size + len)));
                assert(done + spec_ipfix_frames(rest) =~= done.push(frame@) + spec_ipfix_frames(data@.skip(read_size + len)));
                assert(done.push(frame@).drop_last() =~= done);
            }
            let ghost st_before = decoder_templates(self.decoder);
            let ghost ds0 = spec_decode_frames(st0, done).0;
            let ghost t_before = self.templates();
            let decoded = if message_templates_read_data(frame) {
                self.decoder.decode(frame)
            } else {
                None
            };
            let ghost d_view: Option<IpfixDecodedView> = if spec_message_templates_read_data(frame@) {
                ipfix_parse(st_before, frame@).0
            } else {
                None
            };
            proof {
                assert(spec_decode_frames(st0, done.push(frame@)).0 == ds0.push(d_view));
                assert(decoded is Some <==> d_view is Some);
                assert(t_before == spec_templates_before(t0, ts, ts.len() as int));
            }
            let ghost before = messages@;
            let ghost mut out: Seq<SAIStats> = Seq::empty();
            match decoded {
                Some(m) => {
                    let mut stats = self.process_data_message(&m);
                    proof {
                        out = stats@;
                        lemma_latest_time_append(
                            old(self).last_observer_time,
                            before.map_values(|s: SAIStats| s.observation_time),
                            out.map_values(|s: SAIStats| s.observation_time),
                        );
                        assert(spec_frame_handled(t_before, names0, d_view, Some(m), out, self.templates()));
                        msgs = msgs.push(Some(m));
                    }
                    messages.append(&mut stats);
                },
                None => {
                    proof {
                        assert(spec_frame_handled(t_before, names0, d_view, None, out, self.templates()));
                        msgs = msgs.push(None);
                    }
                },
            }
            proof {
                let ds1 = ds0.push(d_view);
                let groups1 = groups.push(out);
                let ts1 = ts.push(self.templates());
                assert forall|k: int| 0 <= k < ds1.len() implies #[trigger] spec_frame_handled(
                    spec_templates_before(t0, ts1, k),
                    names0,
                    ds1[k],
                    msgs[k],
                    groups1[k],
                    ts1[k],
                ) by {
                    if k < ds0.len() {
                        assert(spec_templates_before(t0, ts1, k) == spec_templates_before(t0, ts, k));
                        assert(spec_frame_handled(
                            spec_templates_before(t0, ts, k),
                            names0,
                            ds0[k],
                            msgs.drop_last()[k],
                            groups[k],
                            ts[k],
                        ));
                    }
                }
                assert(groups1.drop_last() =~= groups);
                assert(messages@ =~= spec_concat(groups) + out);
                assert(messages@.map_values(|s: SAIStats| s.observation_time) =~= before.map_values(
                    |s: SAIStats| s.observation_time,
                ) + out.map_values(|s: SAIStats| s.observation_time));
                groups = groups1;
                ts = ts1;
                done = done.push(frame@);
            }
            read_size = read_size + len;
        }
        proof {
            if read_size >= data.len() {
                assert(data@.skip(read_size as int) =~= Seq::<u8>::empty());
            }
            assert(done + Seq::<Seq<u8>>::empty() =~= done);
            assert(spec_ipfix_frames(data@) == done);
            assert(spec_frames_handled(t0, names0, spec_decode_frames(st0, done).0, msgs, groups, ts));
            if old(self).last_observer_time is Some {
                lemma_latest_time_keeps_some(old(self).last_observer_time, messages@.map_values(|s: SAIStats| s.observation_time));
            }
        }
        messages
    }
}

} // verus!
