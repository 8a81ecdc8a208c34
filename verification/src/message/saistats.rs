//! SAI statistics extracted from IPFIX data records.
use std::sync::Arc;
use vstd::prelude::*;
use crate::message::ipfix::{IpfixFieldSpec, IpfixValue};
use crate::text::{concat2, decimal_string, spec_decimal};
use crate::wire::{be_u64_at, read_be_u64};

verus! {

/// One SAI counter reading.
#[derive(Debug, Clone, PartialEq, Eq, Hash)]
pub struct SAIStat {
    /// Object name corresponding to the label ID (1-based index into the object names)
    pub object_name: String,
    /// SAI object type identifier (with possible extensions)
    pub type_id: u32,
    /// SAI statistic identifier (with possible extensions)
    pub stat_id: u32,
    /// Current counter value
    pub counter: u64,
}

/// Base value of the extended SAI identifier ranges.
pub const EXTENSIONS_RANGE_BASE: u32 = 0x2000_0000;

/// Big-endian value of a whole byte sequence.
pub open spec fn spec_be_value(s: Seq<u8>) -> nat
    decreases s.len(),
{
    if s.len() == 0 {
        0
    } else {
        spec_be_value(s.drop_last()) * 256 + s.last() as nat
    }
}

/// SAI object type carried in an enterprise number: bits 16..30, moved into
/// the extension range when bit 31 is set.
pub open spec fn spec_type_id(enterprise_number: u32) -> u32 {
    let base = (enterprise_number & 0x7FFF_0000u32) >> 16u32;
    if enterprise_number & 0x8000_0000u32 != 0 {
        (base + EXTENSIONS_RANGE_BASE) as u32
    } else {
        base
    }
}

/// SAI statistic carried in an enterprise number: bits 0..14, moved into the
/// extension range when bit 15 is set.
pub open spec fn spec_stat_id(enterprise_number: u32) -> u32 {
    let base = enterprise_number & 0x0000_7FFFu32;
    if enterprise_number & 0x0000_8000u32 != 0 {
        (base + EXTENSIONS_RANGE_BASE) as u32
    } else {
        base
    }
}

/// Law: the SAI object type and statistic read out of an enterprise number
/// are the ones it was built from: a type below 2^15 in the high half and a
/// statistic below 2^15 in the low half, each with its top bit set when it
/// lies in the extension range.
pub proof fn lemma_enterprise_number_decodes(t: u32, st: u32, type_ext: bool, stat_ext: bool)
    requires
        t < 0x8000,
        st < 0x8000,
    ensures
        ({
            let e = ((if type_ext { 0x8000u32 } else { 0u32 }) + t) * 0x10000 + (if stat_ext { 0x8000u32 } else { 0u32 }) + st;
            &&& spec_type_id(e as u32) == t + (if type_ext { EXTENSIONS_RANGE_BASE } else { 0 })
            &&& spec_stat_id(e as u32) == st + (if stat_ext { EXTENSIONS_RANGE_BASE } else { 0 })
        }),
{
    let hi: u32 = if type_ext { 0x8000u32 } else { 0u32 };
    let lo: u32 = if stat_ext { 0x8000u32 } else { 0u32 };
    let e: u32 = ((hi + t) * 0x10000 + lo + st) as u32;
    assert(((hi + t) * 0x10000 + lo + st) as u32 == ((hi + t) * 0x10000 + lo + st)) by (nonlinear_arith)
        requires
            hi <= 0x8000,
            lo <= 0x8000,
            t < 0x8000,
            st < 0x8000,
    ;
    assert((e & 0x7FFF_0000u32) >> 16u32 == t && e & 0x0000_7FFFu32 == st
        && (e & 0x8000_0000u32 != 0) == (hi != 0) && (e & 0x0000_8000u32 != 0) == (lo != 0)) by (bit_vector)
        requires
            e == (hi + t) * 0x10000 + lo + st,
            hi == 0 || hi == 0x8000,
            lo == 0 || lo == 0x8000,
            t < 0x8000,
            st < 0x8000,
    ;
}

/// Counter carried by a record value: the first eight bytes read big-endian,
/// a shorter byte string read as a big-endian number, and 0 for any value
/// that is not a byte string.
pub open spec fn spec_counter(value: IpfixValue) -> u64 {
    match value {
        IpfixValue::Bytes(b) => if b@.len() >= 8 {
            be_u64_at(b@, 0) as u64
        } else {
            spec_be_value(b@) as u64
        },
        _ => 0,
    }
}

/// Object name for a 1-based label: the label-th name when there is one,
/// else `unknown_` followed by the label in decimal.
pub open spec fn spec_object_name(label: u16, object_names: Seq<String>) -> Seq<char> {
    if label > 0 && label <= object_names.len() {
        object_names[label - 1]@
    } else {
        "unknown_"@ + spec_decimal(label as nat)
    }
}

/// The fallback name of an unresolved label: `unknown_` and the label.
fn unknown_label_name(label: u16) -> (r: String)
    ensures
        r@ == "unknown_"@ + spec_decimal(label as nat),
{
    let digits = decimal_string(label as u64);
    concat2("unknown_", digits.as_str())
}

/// Leading zero bytes do not change a big-endian value.
proof fn lemma_be_value_zero_prefix(z: nat, s: Seq<u8>)
    ensures
        spec_be_value(Seq::new(z, |_i: int| 0u8) + s) == spec_be_value(s),
    decreases s.len() + z,
{
    let p = Seq::new(z, |_i: int| 0u8);
    if s.len() == 0 {
        assert(p + s =~= p);
        if z > 0 {
            let q = Seq::new((z - 1) as nat, |_i: int| 0u8);
            assert(p.drop_last() =~= q + Seq::<u8>::empty());
            lemma_be_value_zero_prefix((z - 1) as nat, Seq::<u8>::empty());
            assert(q + Seq::<u8>::empty() =~= q);
        }
    } else {
        assert((p + s).drop_last() =~= p + s.drop_last());
        lemma_be_value_zero_prefix(z, s.drop_last());
    }
}

/// The big-endian value of eight bytes, read as a whole number.
proof fn lemma_be_u64_is_be_value(s: Seq<u8>)
    requires
        s.len() == 8,
    ensures
        be_u64_at(s, 0) == spec_be_value(s),
{
    reveal_with_fuel(spec_be_value, 9);
    assert(s.drop_last().drop_last().drop_last().drop_last().drop_last().drop_last().drop_last().drop_last().len() == 0);
    assert(s.drop_last().last() == s[6]);
    assert(s.drop_last().drop_last().last() == s[5]);
    assert(s.drop_last().drop_last().drop_last().last() == s[4]);
    assert(s.drop_last().drop_last().drop_last().drop_last().last() == s[3]);
    assert(s.drop_last().drop_last().drop_last().drop_last().drop_last().last() == s[2]);
    assert(s.drop_last().drop_last().drop_last().drop_last().drop_last().drop_last().last() == s[1]);
    assert(s.drop_last().drop_last().drop_last().drop_last().drop_last().drop_last().drop_last().last() == s[0]);
}

impl SAIStat {
    /// The counter reading described by one IPFIX record field.
    ///
    /// The enterprise number (0 when absent) encodes the SAI object type in
    /// bits 16..30 and the statistic in bits 0..14; bit 31 and bit 15 move
    /// them into the extension range. The element identifier is a 1-based
    /// label into `object_names`.
    pub fn from_ipfix(field_spec: &IpfixFieldSpec, value: &IpfixValue, object_names: &[String]) -> (r: Self)
        ensures
            r.type_id == spec_type_id(field_spec.enterprise_number.unwrap_or(0)),
            r.stat_id == spec_stat_id(field_spec.enterprise_number.unwrap_or(0)),
            r.counter == spec_counter(*value),
            r.object_name@ == spec_object_name(field_spec.information_element_identifier, object_names@),
    {
        let enterprise_number = match field_spec.enterprise_number {
            Some(e) => e,
            None => 0,
        };
        let label = field_spec.information_element_identifier;

        let type_id_extension = (enterprise_number & 0x8000_0000u32) != 0;
        let stat_id_extension = (enterprise_number & 0x0000_8000u32) != 0;

        let mut type_id = (enterprise_number & 0x7FFF_0000u32) >> 16u32;
        let mut stat_id = enterprise_number & 0x0000_7FFFu32;
        assert((enterprise_number & 0x7FFF_0000u32) >> 16u32 <= 0x7FFF) by (bit_vector);
        assert(enterprise_number & 0x0000_7FFFu32 <= 0x7FFF) by (bit_vector);

        if type_id_extension {
            type_id = type_id.saturating_add(EXTENSIONS_RANGE_BASE);
        }
        if stat_id_extension {
            stat_id = stat_id.saturating_add(EXTENSIONS_RANGE_BASE);
        }

        let counter = match value {
            IpfixValue::Bytes(bytes) => {
                if bytes.len() >= 8 {
                    read_be_u64(bytes.as_slice())
                } else {
                    let copy_len = bytes.len();
                    let mut padded: Vec<u8> = vec![0u8; 8];
                    let mut i: usize = 0;
                    while i < copy_len
                        invariant
                            copy_len == bytes@.len(),
                            copy_len < 8,
                            i <= copy_len,
                            padded@.len() == 8,
                            forall|k: int| 0 <= k < 8 - copy_len ==> padded@[k] == 0,
                            forall|k: int| 0 <= k < i ==> padded@[8 - copy_len + k] == bytes@[k],
                        decreases copy_len - i,
                    {
                        padded.set(8 - copy_len + i, bytes[i]);
                        i = i + 1;
                    }
                    proof {
                        let z = Seq::new((8 - copy_len) as nat, |_i: int| 0u8);
                        assert(padded@ =~= z + bytes@);
                        lemma_be_value_zero_prefix((8 - copy_len) as nat, bytes@);
                        lemma_be_u64_is_be_value(padded@);
                    }
                    read_be_u64(padded.as_slice())
                }
            },
            _ => 0,
        };

        let object_name = if label > 0 && (label as usize) <= object_names.len() {
            object_names[(label - 1) as usize].clone()
        } else {
            unknown_label_name(label)
        };

        SAIStat { object_name, type_id, stat_id, counter }
    }
}

/// Field-wise equality of two readings (names compared by their text).
pub open spec fn spec_stat_eq(a: SAIStat, b: SAIStat) -> bool {
    &&& a.object_name@ == b.object_name@
    &&& a.type_id == b.type_id
    &&& a.stat_id == b.stat_id
    &&& a.counter == b.counter
}

/// `b` holds a reading equal to `s`.
pub open spec fn spec_stat_in(s: SAIStat, b: Seq<SAIStat>) -> bool {
    exists|j: int| 0 <= j < b.len() && #[trigger] spec_stat_eq(s, b[j])
}

/// Every reading of `a` has an equal reading in `b`.
pub open spec fn spec_stats_included(a: Seq<SAIStat>, b: Seq<SAIStat>) -> bool {
    forall|i: int| 0 <= i < a.len() ==> spec_stat_in(#[trigger] a[i], b)
}

/// Field-wise equality of two readings.
pub fn sai_stat_eq(a: &SAIStat, b: &SAIStat) -> (r: bool)
    ensures
        r == spec_stat_eq(*a, *b),
{
    a.type_id == b.type_id && a.stat_id == b.stat_id && a.counter == b.counter && a.object_name == b.object_name
}

/// Whether `stats` holds a reading equal to `stat`.
fn stats_contain(stats: &Vec<SAIStat>, stat: &SAIStat) -> (r: bool)
    ensures
        r == spec_stat_in(*stat, stats@),
{
    let mut j: usize = 0;
    while j < stats.len()
        invariant
            j <= stats@.len(),
            forall|k: int| 0 <= k < j ==> !spec_stat_eq(*stat, #[trigger] stats@[k]),
        decreases stats@.len() - j,
    {
        if sai_stat_eq(stat, &stats[j]) {
            return true;
        }
        j = j + 1;
    }
    false
}

/// Whether every reading of `a` has an equal reading in `b`.
fn stats_included(a: &Vec<SAIStat>, b: &Vec<SAIStat>) -> (r: bool)
    ensures
        r == spec_stats_included(a@, b@),
{
    let mut i: usize = 0;
    while i < a.len()
        invariant
            i <= a@.len(),
            forall|k: int| 0 <= k < i ==> spec_stat_in(#[trigger] a@[k], b@),
        decreases a@.len() - i,
    {
        if !stats_contain(b, &a[i]) {
            return false;
        }
        i = i + 1;
    }
    true
}

/// Readings collected at one observation time.
#[derive(Debug, Clone)]
pub struct SAIStats {
    /// Timestamp when these statistics were observed (nanoseconds)
    pub observation_time: u64,
    /// The individual readings
    pub stats: Vec<SAIStat>,
}

/// Equality of two collections: same observation time, same number of
/// readings, and the same set of readings, in any order.
pub open spec fn spec_sai_stats_eq(a: SAIStats, b: SAIStats) -> bool {
    &&& a.observation_time == b.observation_time
    &&& a.stats@.len() == b.stats@.len()
    &&& spec_stats_included(a.stats@, b.stats@)
    &&& spec_stats_included(b.stats@, a.stats@)
}

/// Law: equality of collections is symmetric.
pub proof fn lemma_stats_eq_symmetric(a: SAIStats, b: SAIStats)
    ensures
        spec_sai_stats_eq(a, b) == spec_sai_stats_eq(b, a),
{
}

/// Law: two collections with the same observation time whose readings are
/// the same up to their order compare equal (`perm` maps each position of
/// `b` to the position of the same reading in `a`, one to one).
pub proof fn lemma_reordered_stats_equal(a: SAIStats, b: SAIStats, perm: Seq<int>)
    requires
        a.observation_time == b.observation_time,
        b.stats@.len() == a.stats@.len(),
        perm.len() == a.stats@.len(),
        forall|i: int| 0 <= i < perm.len() ==> 0 <= #[trigger] perm[i] < a.stats@.len() && b.stats@[i] == a.stats@[perm[i]],
        forall|k: int| #![trigger a.stats@[k]] 0 <= k < a.stats@.len() ==> exists|i: int| 0 <= i < perm.len() && #[trigger] perm[i] == k,
    ensures
        spec_sai_stats_eq(a, b),
{
    assert forall|k: int| 0 <= k < a.stats@.len() implies spec_stat_in(#[trigger] a.stats@[k], b.stats@) by {
        let i = choose|i: int| 0 <= i < perm.len() && #[trigger] perm[i] == k;
        assert(spec_stat_eq(a.stats@[k], b.stats@[i]));
    }
    assert forall|i: int| 0 <= i < b.stats@.len() implies spec_stat_in(#[trigger] b.stats@[i], a.stats@) by {
        assert(spec_stat_eq(b.stats@[i], a.stats@[perm[i]]));
    }
}

impl SAIStats {
    /// A collection of `stats` observed at `observation_time`.
    pub fn new(observation_time: u64, stats: Vec<SAIStat>) -> (r: Self)
        ensures
            r.observation_time == observation_time,
            r.stats == stats,
    {
        Self { observation_time, stats }
    }

    /// Number of readings.
    pub fn len(&self) -> (r: usize)
        ensures
            r == self.stats@.len(),
    {
        self.stats.len()
    }

    /// Whether there are no readings.
    pub fn is_empty(&self) -> (r: bool)
        ensures
            r == (self.stats@.len() == 0),
    {
        self.stats.is_empty()
    }

    /// Iterator over the readings, in order.
    pub fn iter(&self) -> (r: std::slice::Iter<'_, SAIStat>)
        ensures
            vstd::std_specs::iter::IteratorSpec::remaining(&r) == self.stats@.as_ref(),
    {
        let sl = self.stats.as_slice();
        let r = sl.iter();
        proof {
            vstd::std_specs::slice::axiom_spec_slice_iter(sl);
        }
        r
    }

    /// Compares two collections as `==` does.
    pub fn stats_equal(&self, other: &Self) -> (r: bool)
        ensures
            r == spec_sai_stats_eq(*self, *other),
    {
        if self.observation_time != other.observation_time {
            return false;
        }
        if self.stats.len() != other.stats.len() {
            return false;
        }
        stats_included(&self.stats, &other.stats) && stats_included(&other.stats, &self.stats)
    }
}

impl PartialEq for SAIStats {
    fn eq(&self, other: &Self) -> (r: bool) {
        self.stats_equal(other)
    }
}

impl vstd::std_specs::cmp::PartialEqSpecImpl for SAIStats {
    open spec fn obeys_eq_spec() -> bool {
        true
    }

    open spec fn eq_spec(&self, other: &Self) -> bool {
        spec_sai_stats_eq(*self, *other)
    }
}

/// Shared SAI statistics, passed between actors.
pub type SAIStatsMessage = Arc<SAIStats>;

/// Building shared SAI statistics messages.
pub trait SAIStatsMessageExt: Sized {
    /// Shares these statistics.
    fn into_message(self) -> (r: SAIStatsMessage);

    /// Shares `stats` observed at `observation_time`.
    fn from_parts(observation_time: u64, stats: Vec<SAIStat>) -> (r: SAIStatsMessage);
}

impl SAIStatsMessageExt for SAIStats {
    fn into_message(self) -> (r: SAIStatsMessage)
        ensures
            *r == self,
    {
        Arc::new(self)
    }

    fn from_parts(observation_time: u64, stats: Vec<SAIStat>) -> (r: SAIStatsMessage)
        ensures
            r.observation_time == observation_time,
            r.stats == stats,
    {
        Arc::new(SAIStats::new(observation_time, stats))
    }
}

} // verus!
