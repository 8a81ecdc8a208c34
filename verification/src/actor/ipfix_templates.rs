//! Template records of IPFIX messages, as far as the daemon must check them
//! before decoding.
//!
//! A template whose fields all have length 0 describes data records of no
//! bytes at all. Reading a data set with such a template would never reach
//! the end of the set, so no such template may ever reach the decoder's
//! store. These functions find the template records of a message (RFC 7011,
//! sections 3.3 and 3.4) and tell whether each one describes some data.
use vstd::prelude::*;
use crate::wire::{be_u16_at, read_be_u16};

verus! {

/// A field specifier as the decoder stores it: enterprise number, element
/// identifier and field length.
pub type FieldSpecView = (Option<u32>, u16, u16);

/// Whether a template with these fields reads at least one byte per record:
/// some field has a length other than 0.
pub open spec fn spec_fields_read_data(fields: Seq<FieldSpecView>) -> bool {
    exists|i: int| 0 <= i < fields.len() && (#[trigger] fields[i]).2 != 0
}

/// Whether every template of a store reads at least one byte per record.
pub open spec fn spec_store_reads_data(store: Map<u16, Seq<FieldSpecView>>) -> bool {
    forall|id: u16| #[trigger] store.dom().contains(id) ==> spec_fields_read_data(store[id])
}

/// Walks `count` field specifiers of a template record from `pos` in `s`
/// (four bytes each, eight when the enterprise bit is set): where they end
/// and whether all their lengths are 0; `None` when `s` ends first.
pub open spec fn spec_specs_walk(s: Seq<u8>, pos: int, count: nat) -> Option<(int, bool)>
    decreases count,
{
    if count == 0 {
        Some((pos, true))
    } else if pos < 0 || pos + 4 > s.len() {
        None
    } else {
        let width = if be_u16_at(s, pos) >= 0x8000 { 8int } else { 4int };
        if pos + width > s.len() {
            None
        } else {
            match spec_specs_walk(s, pos + width, (count - 1) as nat) {
                None => None,
                Some((end, zero)) => Some((end, zero && be_u16_at(s, pos + 2) == 0)),
            }
        }
    }
}

/// A walk of field specifiers ends after where it starts, inside `s`.
pub proof fn lemma_specs_walk_bounds(s: Seq<u8>, pos: int, count: nat)
    requires
        0 <= pos <= s.len(),
    ensures
        spec_specs_walk(s, pos, count) matches Some((end, _)) ==> pos <= end <= s.len(),
    decreases count,
{
    if count > 0 && pos + 4 <= s.len() {
        let width = if be_u16_at(s, pos) >= 0x8000 { 8int } else { 4int };
        if pos + width <= s.len() {
            lemma_specs_walk_bounds(s, pos + width, (count - 1) as nat);
        }
    }
}

/// Whether every whole template record of the set body `s` from `off` on
/// reads data. A record is a template id, a field count, for options
/// templates (`header == 6`) a scope field count, and the field
/// specifiers; a record cut short by the end of the body is not one.
pub open spec fn spec_records_read_data(s: Seq<u8>, off: int, header: int) -> bool
    decreases s.len() - off,
{
    if off < 0 || header < 4 || off + header > s.len() {
        true
    } else {
        match spec_specs_walk(s, off + header, be_u16_at(s, off + 2) as nat) {
            None => true,
            Some((end, zero)) => {
                proof {
                    lemma_specs_walk_bounds(s, off + header, be_u16_at(s, off + 2) as nat);
                }
                !zero && spec_records_read_data(s, end, header)
            },
        }
    }
}

/// Whether the template sets (id 2) and options template sets (id 3) of a
/// message, from the set at `off` on, hold only template records that read
/// data. A set whose length runs past the message is read up to its end;
/// the walk stops at a set shorter than its header.
pub open spec fn spec_sets_read_data(msg: Seq<u8>, off: int) -> bool
    decreases msg.len() - off,
{
    if off < 0 || off + 4 > msg.len() {
        true
    } else {
        let set_id = be_u16_at(msg, off);
        let length = be_u16_at(msg, off + 2);
        let end = if off + length > msg.len() { msg.len() as int } else { off + length };
        let here = length < 4 || (set_id != 2 && set_id != 3)
            || spec_records_read_data(msg.subrange(off + 4, end), 0, if set_id == 3 { 6 } else { 4 });
        here && (length < 4 || off + length >= msg.len() || spec_sets_read_data(msg, off + length))
    }
}

/// Whether every template record of an IPFIX message (sets from byte 16 on)
/// reads data.
pub open spec fn spec_message_templates_read_data(msg: Seq<u8>) -> bool {
    spec_sets_read_data(msg, 16)
}

/// Walks `count` field specifiers from `pos`, as `spec_specs_walk` says.
fn specs_walk(s: &[u8], pos: usize, count: u16) -> (r: Option<(usize, bool)>)
    requires
        pos <= s@.len(),
    ensures
        match r {
            None => spec_specs_walk(s@, pos as int, count as nat) is None,
            Some((end, zero)) => spec_specs_walk(s@, pos as int, count as nat) == Some((end as int, zero)),
        },
{
    let mut p: usize = pos;
    let mut c: u16 = count;
    let mut zero: bool = true;
    while c > 0
        invariant
            p <= s@.len(),
            spec_specs_walk(s@, pos as int, count as nat) == match spec_specs_walk(s@, p as int, c as nat) {
                None => None,
                Some((end, z)) => Some((end, z && zero)),
            },
        decreases c,
    {
        if s.len() - p < 4 {
            return None;
        }
        let raw = read_be_u16(vstd::slice::slice_subrange(s, p, p + 2));
        let len = read_be_u16(vstd::slice::slice_subrange(s, p + 2, p + 4));
        let width: usize = if raw >= 0x8000 { 8 } else { 4 };
        proof {
            assert(be_u16_at(s@.subrange(p as int, p + 2), 0) == be_u16_at(s@, p as int));
            assert(be_u16_at(s@.subrange(p + 2, p + 4), 0) == be_u16_at(s@, p + 2));
        }
        if s.len() - p < width {
            return None;
        }
        zero = zero && len == 0;
        p = p + width;
        c = c - 1;
    }
    Some((p, zero))
}

/// Whether every whole template record of `s` from `off` on reads data, as
/// `spec_records_read_data` says.
fn records_read_data(s: &[u8], header: usize) -> (r: bool)
    requires
        header == 4 || header == 6,
    ensures
        r == spec_records_read_data(s@, 0, header as int),
{
    let mut off: usize = 0;
    while off <= s.len() && s.len() - off >= header
        invariant
            header == 4 || header == 6,
            spec_records_read_data(s@, 0, header as int) == spec_records_read_data(s@, off as int, header as int),
        decreases s@.len() - off,
    {
        let count = read_be_u16(vstd::slice::slice_subrange(s, off + 2, off + 4));
        proof {
            assert(be_u16_at(s@.subrange(off + 2, off + 4), 0) == be_u16_at(s@, off + 2));
        }
        match specs_walk(s, off + header, count) {
            None => {
                return true;
            },
            Some((end, zero)) => {
                proof {
                    lemma_specs_walk_bounds(s@, off + header, count as nat);
                }
                if zero {
                    return false;
                }
                off = end;
            },
        }
    }
    true
}

/// Whether every template record of an IPFIX message reads data, as
/// `spec_message_templates_read_data` says.
pub fn message_templates_read_data(msg: &[u8]) -> (r: bool)
    ensures
        r == spec_message_templates_read_data(msg@),
{
    let n = msg.len();
    let mut off: usize = 16;
    while off <= n && n - off >= 4
        invariant
            n == msg@.len(),
            spec_message_templates_read_data(msg@) == spec_sets_read_data(msg@, off as int),
        decreases n - off,
    {
        let set_id = read_be_u16(vstd::slice::slice_subrange(msg, off, off + 2));
        let length = read_be_u16(vstd::slice::slice_subrange(msg, off + 2, off + 4));
        proof {
            assert(be_u16_at(msg@.subrange(off as int, off + 2), 0) == be_u16_at(msg@, off as int));
            assert(be_u16_at(msg@.subrange(off + 2, off + 4), 0) == be_u16_at(msg@, off + 2));
        }
        if length < 4 {
            return true;
        }
        let end: usize = if (length as usize) > n - off { n } else { off + length as usize };
        if set_id == 2 || set_id == 3 {
            let body = vstd::slice::slice_subrange(msg, off + 4, end);
            let header: usize = if set_id == 3 { 6 } else { 4 };
            if !records_read_data(body, header) {
                return false;
            }
        }
        if (length as usize) >= n - off {
            return true;
        }
        off = off + length as usize;
    }
    true
}

} // verus!
