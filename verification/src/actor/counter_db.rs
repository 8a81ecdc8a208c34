//! Counter cache of the CounterDB writer.
//!
//! Readings are cached per counter (object name, SAI type, SAI statistic).
//! A counter is written to the `COUNTERS` table of Redis when its value has
//! changed since it was last written; the write addresses the object by the
//! OID that the type's `COUNTERS_<TYPE>_NAME_MAP` table gives for its name.
use std::time::Duration;
use vstd::prelude::*;
use crate::assoc::{AssocList, KeyEq};
use crate::clock::{duration_from_secs, duration_of_secs};
use crate::message::saistats::{SAIStat, SAIStats};
use crate::sai::{SaiBufferPoolStat, SaiIngressPriorityGroupStat, SaiObjectType, SaiPortStat, SaiQueueStat};
use crate::text::{chars_of, concat2, concat3, decimal_string, spec_decimal, string_from_chars};

verus! {

/// Unique key of a cached counter.
#[derive(Debug, Clone, PartialEq, Eq, Hash)]
pub struct CounterKey {
    pub object_name: String,
    pub type_id: u32,
    pub stat_id: u32,
}

impl View for CounterKey {
    type V = (Seq<char>, u32, u32);

    open spec fn view(&self) -> (Seq<char>, u32, u32) {
        (self.object_name@, self.type_id, self.stat_id)
    }
}

impl KeyEq for CounterKey {
    fn key_eq(&self, other: &Self) -> (r: bool) {
        self.type_id == other.type_id && self.stat_id == other.stat_id && self.object_name == other.object_name
    }

    fn key_clone(&self) -> (r: Self) {
        CounterKey { object_name: self.object_name.clone(), type_id: self.type_id, stat_id: self.stat_id }
    }
}

impl CounterKey {
    /// The key of counter `stat_id` of type `type_id` on `object_name`.
    pub fn new(object_name: String, type_id: u32, stat_id: u32) -> (r: Self)
        ensures
            r.object_name == object_name,
            r.type_id == type_id,
            r.stat_id == stat_id,
    {
        Self { object_name, type_id, stat_id }
    }
}

/// Cached value of a counter, with what was last written of it.
#[derive(Debug, Clone)]
pub struct CounterValue {
    pub counter: u64,
    pub updated: bool,
    pub last_written_value: Option<u64>,
}

/// A counter seen for the first time: updated, never written.
pub open spec fn spec_counter_value_new(counter: u64) -> CounterValue {
    CounterValue { counter, updated: true, last_written_value: None }
}

/// A new reading: a different value replaces the old one and marks the
/// counter updated; the same value leaves everything as it was.
pub open spec fn spec_counter_value_update(v: CounterValue, counter: u64) -> CounterValue {
    if v.counter != counter {
        CounterValue { counter, updated: true, last_written_value: v.last_written_value }
    } else {
        v
    }
}

/// The counter after its value was written.
pub open spec fn spec_counter_value_mark_written(v: CounterValue) -> CounterValue {
    CounterValue { counter: v.counter, updated: false, last_written_value: Some(v.counter) }
}

/// Whether the counter needs writing: it was updated, and either was never
/// written or holds another value than the one written.
pub open spec fn spec_counter_value_has_changed(v: CounterValue) -> bool {
    match v.last_written_value {
        None => v.updated,
        Some(last) => v.updated && v.counter != last,
    }
}

impl CounterValue {
    /// A counter seen for the first time.
    pub fn new(counter: u64) -> (r: Self)
        ensures
            r == spec_counter_value_new(counter),
    {
        Self { counter, updated: true, last_written_value: None }
    }

    /// Records a new reading.
    pub fn update(&mut self, counter: u64)
        ensures
            *final(self) == spec_counter_value_update(*old(self), counter),
    {
        if self.counter != counter {
            self.counter = counter;
            self.updated = true;
        }
    }

    /// Records that the current value was written.
    pub fn mark_written(&mut self)
        ensures
            *final(self) == spec_counter_value_mark_written(*old(self)),
    {
        self.last_written_value = Some(self.counter);
        self.updated = false;
    }

    /// Whether the counter needs writing.
    pub fn has_changed(&self) -> (r: bool)
        ensures
            r == spec_counter_value_has_changed(*self),
    {
        match self.last_written_value {
            None => self.updated,
            Some(last_value) => self.updated && (self.counter != last_value),
        }
    }
}

/// Law: a counter seen for the first time needs writing.
pub proof fn lemma_new_counter_needs_write(counter: u64)
    ensures
        spec_counter_value_has_changed(spec_counter_value_new(counter)),
{
}

/// Law: a counter just written does not need writing, and remembers the
/// value written.
pub proof fn lemma_written_counter_is_clean(v: CounterValue)
    ensures
        !spec_counter_value_has_changed(spec_counter_value_mark_written(v)),
        spec_counter_value_mark_written(v).last_written_value == Some(v.counter),
{
}

/// Law: a reading equal to the cached value changes nothing.
pub proof fn lemma_same_reading_changes_nothing(v: CounterValue)
    ensures
        spec_counter_value_update(v, v.counter) == v,
{
}

/// Law: after a write, a new reading makes the counter need writing exactly
/// when it differs from the value written.
pub proof fn lemma_reading_after_write(v: CounterValue, counter: u64)
    ensures
        spec_counter_value_has_changed(
            spec_counter_value_update(spec_counter_value_mark_written(v), counter),
        ) == (counter != v.counter),
{
}

/// The counter after the readings `xs`, in order.
pub open spec fn spec_counter_value_updates(v: CounterValue, xs: Seq<u64>) -> CounterValue
    decreases xs.len(),
{
    if xs.len() == 0 {
        v
    } else {
        spec_counter_value_update(spec_counter_value_updates(v, xs.drop_last()), xs.last())
    }
}

/// Law: after a write, however many readings follow, the counter needs
/// writing exactly when its value differs from the value written, and the
/// value written is remembered.
pub proof fn lemma_changed_after_write(v: CounterValue, xs: Seq<u64>)
    ensures
        spec_counter_value_updates(spec_counter_value_mark_written(v), xs).last_written_value == Some(v.counter),
        spec_counter_value_has_changed(spec_counter_value_updates(spec_counter_value_mark_written(v), xs))
            == (spec_counter_value_updates(spec_counter_value_mark_written(v), xs).counter != v.counter),
    decreases xs.len(),
{
    let w = spec_counter_value_mark_written(v);
    let u = spec_counter_value_updates(w, xs);
    if xs.len() > 0 {
        lemma_changed_after_write(v, xs.drop_last());
        assert(u.updated || u.counter == v.counter) by {
            lemma_written_updates_flagged(v, xs);
        }
    }
}

/// After a write and any readings, a counter that is not flagged updated
/// still holds the value written.
proof fn lemma_written_updates_flagged(v: CounterValue, xs: Seq<u64>)
    ensures
        spec_counter_value_updates(spec_counter_value_mark_written(v), xs).updated
            || spec_counter_value_updates(spec_counter_value_mark_written(v), xs).counter == v.counter,
    decreases xs.len(),
{
    if xs.len() > 0 {
        lemma_written_updates_flagged(v, xs.drop_last());
    }
}

/// Configuration of the CounterDB writer.
#[derive(Debug)]
pub struct CounterDBConfig {
    /// How often updated counters are written.
    pub interval: Duration,
}

impl CounterDBConfig {
    /// A configuration writing every `interval`.
    pub fn new(interval: Duration) -> (r: Self)
        ensures
            r.interval == interval,
    {
        Self { interval }
    }
}

impl Default for CounterDBConfig {
    /// Writes every 10 seconds.
    fn default() -> (r: Self)
        ensures
            r.interval == duration_of_secs(10),
    {
        Self::new(duration_from_secs(10))
    }
}

/// Key view of the counter a reading belongs to.
pub open spec fn spec_stat_key(stat: SAIStat) -> (Seq<char>, u32, u32) {
    (stat.object_name@, stat.type_id, stat.stat_id)
}

/// The cache after one reading: an update of a known counter, or a new one.
pub open spec fn spec_apply_stat(
    m: Map<(Seq<char>, u32, u32), CounterValue>,
    stat: SAIStat,
) -> Map<(Seq<char>, u32, u32), CounterValue> {
    let k = spec_stat_key(stat);
    if m.dom().contains(k) {
        m.insert(k, spec_counter_value_update(m[k], stat.counter))
    } else {
        m.insert(k, spec_counter_value_new(stat.counter))
    }
}

/// The cache after the readings `stats`, in order.
pub open spec fn spec_apply_stats(
    m: Map<(Seq<char>, u32, u32), CounterValue>,
    stats: Seq<SAIStat>,
) -> Map<(Seq<char>, u32, u32), CounterValue>
    decreases stats.len(),
{
    if stats.len() == 0 {
        m
    } else {
        spec_apply_stat(spec_apply_stats(m, stats.drop_last()), stats.last())
    }
}

/// Keys, in cache order, of the entries that need writing.
pub open spec fn spec_changed_keys(es: Seq<((Seq<char>, u32, u32), CounterValue)>) -> Seq<(Seq<char>, u32, u32)>
    decreases es.len(),
{
    if es.len() == 0 {
        Seq::empty()
    } else {
        spec_changed_keys(es.drop_last()) + if spec_counter_value_has_changed(es.last().1) {
            seq![es.last().0]
        } else {
            Seq::empty()
        }
    }
}

/// Whether a cached counter must be written: it changed since it was read
/// in, and it was never written or was written with another value.
pub open spec fn spec_must_write(v: CounterValue) -> bool {
    v.updated && !(v.last_written_value == Some(v.counter))
}

/// A key is listed among the keys to write exactly when some entry of the
/// cache holds it with a counter that must be written, whatever its value.
proof fn lemma_changed_keys_members(es: Seq<((Seq<char>, u32, u32), CounterValue)>, k: (Seq<char>, u32, u32))
    ensures
        spec_changed_keys(es).contains(k) <==> exists|i: int| 0 <= i < es.len() && es[i].0 == k && spec_must_write(es[i].1),
    decreases es.len(),
{
    if es.len() > 0 {
        let front = es.drop_last();
        lemma_changed_keys_members(front, k);
        let tail = if spec_counter_value_has_changed(es.last().1) {
            seq![es.last().0]
        } else {
            Seq::<(Seq<char>, u32, u32)>::empty()
        };
        assert(spec_changed_keys(es) == spec_changed_keys(front) + tail);
        if spec_changed_keys(es).contains(k) {
            let p = choose|p: int| 0 <= p < spec_changed_keys(es).len() && spec_changed_keys(es)[p] == k;
            if p < spec_changed_keys(front).len() {
                assert(spec_changed_keys(front).contains(k));
                let i = choose|i: int| 0 <= i < front.len() && front[i].0 == k && spec_must_write(front[i].1);
                assert(es[i] == front[i]);
            } else {
                assert(es[es.len() - 1].0 == k);
            }
        }
        if exists|i: int| 0 <= i < es.len() && es[i].0 == k && spec_must_write(es[i].1) {
            let i = choose|i: int| 0 <= i < es.len() && es[i].0 == k && spec_must_write(es[i].1);
            if i < front.len() {
                assert(front[i] == es[i]);
                let p = choose|p: int| 0 <= p < spec_changed_keys(front).len() && spec_changed_keys(front)[p] == k;
                assert(spec_changed_keys(es)[p] == k);
            } else {
                assert(spec_changed_keys(es)[spec_changed_keys(es).len() - 1] == k);
            }
        }
    }
}

/// Law: the keys to write are exactly the cached counters that changed
/// since they were read in and were never written, or were written with
/// another value; the counter's value itself plays no part.
pub proof fn lemma_changed_keys_are_counters_to_write(st: CounterDBState, k: (Seq<char>, u32, u32))
    requires
        st.wf(),
    ensures
        spec_changed_keys(st.counter_cache.entries()).contains(k) <==> (st.counter_cache.map().dom().contains(k)
            && spec_must_write(st.counter_cache.map()[k])),
{
    let es = st.counter_cache.entries();
    lemma_changed_keys_members(es, k);
    if st.counter_cache.map().dom().contains(k) {
        let i = choose|i: int| 0 <= i < es.len() && es[i].0 == k;
        st.counter_cache.lemma_index_of(i);
    }
    if exists|i: int| 0 <= i < es.len() && es[i].0 == k && spec_must_write(es[i].1) {
        let i = choose|i: int| 0 <= i < es.len() && es[i].0 == k && spec_must_write(es[i].1);
        st.counter_cache.lemma_index_of(i);
    }
}

/// The cache after the counters `keys` were written, one after the other.
pub open spec fn spec_mark_written_all(
    m: Map<(Seq<char>, u32, u32), CounterValue>,
    keys: Seq<(Seq<char>, u32, u32)>,
) -> Map<(Seq<char>, u32, u32), CounterValue>
    decreases keys.len(),
{
    if keys.len() == 0 {
        m
    } else {
        let before = spec_mark_written_all(m, keys.drop_last());
        let k = keys.last();
        if before.dom().contains(k) {
            before.insert(k, spec_counter_value_mark_written(before[k]))
        } else {
            before
        }
    }
}

/// Law: once the counters of a write cycle are marked written, none of them
/// needs writing any more, the cache holds the same counters with the same
/// values, and the counters that were not written are as they were.
pub proof fn lemma_write_cycle_cleans(
    m: Map<(Seq<char>, u32, u32), CounterValue>,
    keys: Seq<(Seq<char>, u32, u32)>,
)
    ensures
        spec_mark_written_all(m, keys).dom() == m.dom(),
        forall|k: (Seq<char>, u32, u32)| #[trigger] keys.contains(k) && m.dom().contains(k)
            ==> !spec_counter_value_has_changed(spec_mark_written_all(m, keys)[k]),
        forall|k: (Seq<char>, u32, u32)| #[trigger] m.dom().contains(k)
            ==> spec_mark_written_all(m, keys)[k].counter == m[k].counter,
        forall|k: (Seq<char>, u32, u32)| #[trigger] m.dom().contains(k) && !keys.contains(k)
            ==> spec_mark_written_all(m, keys)[k] == m[k],
    decreases keys.len(),
{
    if keys.len() > 0 {
        let rest = keys.drop_last();
        lemma_write_cycle_cleans(m, rest);
        let before = spec_mark_written_all(m, rest);
        let last = keys.last();
        assert(spec_mark_written_all(m, keys).dom() =~= m.dom());
        assert forall|k: (Seq<char>, u32, u32)| #[trigger] keys.contains(k) && m.dom().contains(k)
            implies !spec_counter_value_has_changed(spec_mark_written_all(m, keys)[k]) by {
            if k == last {
                lemma_written_counter_is_clean(before[k]);
            } else {
                let j = choose|j: int| 0 <= j < keys.len() && keys[j] == k;
                assert(j < keys.len() - 1);
                assert(rest[j] == k);
                assert(rest.contains(k));
            }
        }
        assert forall|k: (Seq<char>, u32, u32)| #[trigger] m.dom().contains(k) && !keys.contains(k)
            implies spec_mark_written_all(m, keys)[k] == m[k] by {
            assert(k != last) by {
                if k == last {
                    assert(keys[keys.len() - 1] == k);
                }
            }
            if rest.contains(k) {
                let j = choose|j: int| 0 <= j < rest.len() && rest[j] == k;
                assert(keys[j] == k);
            }
        }
    }
}

/// State of the CounterDB writer: the counter cache, the cache of object
/// OIDs, and its message and write-cycle counts.
pub struct CounterDBState {
    /// Cached counters, by key.
    pub counter_cache: AssocList<CounterKey, CounterValue>,
    /// OIDs by `<name map table>:<object name>`.
    pub oid_cache: AssocList<String, String>,
    /// Statistics messages received.
    pub total_messages_received: u64,
    /// Write cycles that had counters to write.
    pub writes_performed: u64,
}

impl CounterDBState {
    /// Well-formed caches.
    pub open spec fn wf(&self) -> bool {
        self.counter_cache.wf() && self.oid_cache.wf()
    }

    /// Empty caches, no messages, no writes.
    pub fn new() -> (r: Self)
        ensures
            r.wf(),
            r.counter_cache.map() == Map::<(Seq<char>, u32, u32), CounterValue>::empty(),
            r.oid_cache.map() == Map::<Seq<char>, String>::empty(),
            r.total_messages_received == 0,
            r.writes_performed == 0,
    {
        let r = CounterDBState {
            counter_cache: AssocList::new(),
            oid_cache: AssocList::new(),
            total_messages_received: 0,
            writes_performed: 0,
        };
        assert(r.counter_cache.map() =~= Map::<(Seq<char>, u32, u32), CounterValue>::empty());
        assert(r.oid_cache.map() =~= Map::<Seq<char>, String>::empty());
        r
    }

    /// Counts a statistics message and records each of its readings: the
    /// value of a known counter is updated, a new counter is added.
    pub fn handle_stats_message(&mut self, msg: &SAIStats)
        requires
            old(self).wf(),
            old(self).total_messages_received < u64::MAX,
        ensures
            final(self).wf(),
            final(self).total_messages_received == old(self).total_messages_received + 1,
            final(self).writes_performed == old(self).writes_performed,
            final(self).oid_cache == old(self).oid_cache,
            final(self).counter_cache.map() == spec_apply_stats(old(self).counter_cache.map(), msg.stats@),
    {
        self.total_messages_received = self.total_messages_received + 1;
        let ghost m0 = self.counter_cache.map();
        let mut i: usize = 0;
        while i < msg.stats.len()
            invariant
                i <= msg.stats@.len(),
                self.counter_cache.wf(),
                self.oid_cache == old(self).oid_cache,
                self.oid_cache.wf(),
                self.total_messages_received == old(self).total_messages_received + 1,
                self.writes_performed == old(self).writes_performed,
                self.counter_cache.map() == spec_apply_stats(m0, msg.stats@.take(i as int)),
            decreases msg.stats@.len() - i,
        {
            let stat = &msg.stats[i];
            let key = CounterKey::new(stat.object_name.clone(), stat.type_id, stat.stat_id);
            let ghost before = self.counter_cache.map();
            match self.counter_cache.find(&key) {
                Some(j) => {
                    let cached = self.counter_cache.value_at(j);
                    let mut value = CounterValue {
                        counter: cached.counter,
                        updated: cached.updated,
                        last_written_value: cached.last_written_value,
                    };
                    proof {
                        self.counter_cache.lemma_index_of(j as int);
                    }
                    value.update(stat.counter);
                    self.counter_cache.set_value_at(j, value);
                },
                None => {
                    self.counter_cache.insert(key, CounterValue::new(stat.counter));
                },
            }
            assert(msg.stats@.take(i + 1).drop_last() =~= msg.stats@.take(i as int));
            i = i + 1;
        }
        assert(msg.stats@.take(msg.stats@.len() as int) =~= msg.stats@);
    }

    /// Keys, in cache order, of the counters that need writing.
    pub fn changed_keys(&self) -> (r: Vec<CounterKey>)
        ensures
            r@.map_values(|k: CounterKey| k@) == spec_changed_keys(self.counter_cache.entries()),
    {
        let mut keys: Vec<CounterKey> = Vec::new();
        let mut i: usize = 0;
        let n = self.counter_cache.len();
        while i < n
            invariant
                n == self.counter_cache.entries().len(),
                i <= n,
                keys@.map_values(|k: CounterKey| k@) == spec_changed_keys(self.counter_cache.entries().take(i as int)),
            decreases n - i,
        {
            let ghost es = self.counter_cache.entries();
            assert(es.take(i + 1).drop_last() =~= es.take(i as int));
            let ghost before = keys@;
            if self.counter_cache.value_at(i).has_changed() {
                keys.push(self.counter_cache.key_at(i).key_clone());
                assert(keys@.map_values(|k: CounterKey| k@) =~= before.map_values(|k: CounterKey| k@) + seq![es[i as int].0]);
            } else {
                assert(keys@.map_values(|k: CounterKey| k@) =~= before.map_values(|k: CounterKey| k@) + Seq::empty());
            }
            i = i + 1;
        }
        assert(self.counter_cache.entries().take(n as int) =~= self.counter_cache.entries());
        keys
    }

    /// Records that the counter of `key` was written, if it is cached.
    pub fn mark_counter_written(&mut self, key: &CounterKey)
        requires
            old(self).wf(),
        ensures
            final(self).wf(),
            final(self).oid_cache == old(self).oid_cache,
            final(self).total_messages_received == old(self).total_messages_received,
            final(self).writes_performed == old(self).writes_performed,
            final(self).counter_cache.map() == if old(self).counter_cache.map().dom().contains(key@) {
                old(self).counter_cache.map().insert(
                    key@,
                    spec_counter_value_mark_written(old(self).counter_cache.map()[key@]),
                )
            } else {
                old(self).counter_cache.map()
            },
    {
        match self.counter_cache.find(key) {
            Some(j) => {
                proof {
                    self.counter_cache.lemma_index_of(j as int);
                }
                let cached = self.counter_cache.value_at(j);
                let mut value = CounterValue {
                    counter: cached.counter,
                    updated: cached.updated,
                    last_written_value: cached.last_written_value,
                };
                value.mark_written();
                self.counter_cache.set_value_at(j, value);
            },
            None => {},
        }
    }

    /// Counts a write cycle that had counters to write.
    pub fn record_write_cycle(&mut self)
        requires
            old(self).writes_performed < u64::MAX,
        ensures
            final(self).writes_performed == old(self).writes_performed + 1,
            final(self).counter_cache == old(self).counter_cache,
            final(self).oid_cache == old(self).oid_cache,
            final(self).total_messages_received == old(self).total_messages_received,
    {
        self.writes_performed = self.writes_performed + 1;
    }

    /// The OID cached under `cache_key`, if any.
    pub fn cached_oid(&self, cache_key: &String) -> (r: Option<String>)
        requires
            self.wf(),
        ensures
            match r {
                Some(oid) => self.oid_cache.map().dom().contains(cache_key@) && oid@ == self.oid_cache.map()[cache_key@]@,
                None => !self.oid_cache.map().dom().contains(cache_key@),
            },
    {
        match self.oid_cache.get(cache_key) {
            Some(oid) => Some(oid.clone()),
            None => None,
        }
    }

    /// Caches `oid` under `cache_key`.
    pub fn cache_oid(&mut self, cache_key: String, oid: String)
        requires
            old(self).wf(),
        ensures
            final(self).wf(),
            final(self).oid_cache.map() == old(self).oid_cache.map().insert(cache_key@, oid),
            final(self).counter_cache == old(self).counter_cache,
            final(self).total_messages_received == old(self).total_messages_received,
            final(self).writes_performed == old(self).writes_performed,
    {
        self.oid_cache.insert(cache_key, oid);
    }
}

/// The object type a counter's type id denotes.
pub fn object_type_of(type_id: u32) -> (r: Result<SaiObjectType, String>)
    ensures
        match r {
            Ok(t) => SaiObjectType::spec_from_u32(type_id) == Some(t),
            Err(e) => SaiObjectType::spec_from_u32(type_id) is None
                && e@ == "Unknown SAI object type: "@ + spec_decimal(type_id as nat),
        },
{
    match SaiObjectType::from_u32(type_id) {
        Some(t) => Ok(t),
        None => {
            let digits = decimal_string(type_id as u64);
            Err(concat2("Unknown SAI object type: ", digits.as_str()))
        },
    }
}

/// Name of the name-map table of an object type's C name: the text after
/// `SAI_OBJECT_TYPE_`, between `COUNTERS_` and `_NAME_MAP`.
pub open spec fn spec_name_map_table(c_name: Seq<char>) -> Option<Seq<char>> {
    let prefix = "SAI_OBJECT_TYPE_"@;
    if prefix.len() <= c_name.len() && c_name.take(prefix.len() as int) == prefix {
        Some("COUNTERS_"@ + c_name.skip(prefix.len() as int) + "_NAME_MAP"@)
    } else {
        None
    }
}

/// The text of `s` after `prefix`, when `s` starts with it.
fn strip_prefix_chars(s: &str, prefix: &str) -> (r: Option<String>)
    ensures
        match r {
            Some(t) => prefix@.len() <= s@.len() && s@.take(prefix@.len() as int) == prefix@
                && t@ == s@.skip(prefix@.len() as int),
            None => !(prefix@.len() <= s@.len() && s@.take(prefix@.len() as int) == prefix@),
        },
{
    let sc = chars_of(s);
    let pc = chars_of(prefix);
    if pc.len() > sc.len() {
        return None;
    }
    let mut i: usize = 0;
    while i < pc.len()
        invariant
            sc@ == s@,
            pc@ == prefix@,
            pc@.len() <= sc@.len(),
            i <= pc@.len(),
            forall|k: int| 0 <= k < i ==> sc@[k] == pc@[k],
        decreases pc@.len() - i,
    {
        if sc[i] != pc[i] {
            assert(s@.take(prefix@.len() as int)[i as int] != prefix@[i as int]);
            return None;
        }
        i = i + 1;
    }
    assert(s@.take(prefix@.len() as int) =~= prefix@);
    let rest = vstd::slice::slice_subrange(sc.as_slice(), pc.len(), sc.len());
    assert(rest@ =~= s@.skip(prefix@.len() as int));
    Some(string_from_chars(rest))
}

/// Name of the table that maps object names of `object_type` to OIDs, as
/// `COUNTERS_<TYPE>_NAME_MAP` where `SAI_OBJECT_TYPE_<TYPE>` is its C name.
pub fn get_counter_name_map_table(object_type: &SaiObjectType) -> (r: Result<String, String>)
    ensures
        match r {
            Ok(t) => spec_name_map_table(object_type.spec_c_name()) == Some(t@),
            Err(e) => spec_name_map_table(object_type.spec_c_name()) is None
                && e@ == "Invalid SAI object type C name: "@ + object_type.spec_c_name(),
        },
{
    let c_name = object_type.to_c_name();
    match strip_prefix_chars(c_name, "SAI_OBJECT_TYPE_") {
        Some(type_suffix) => Ok(concat3("COUNTERS_", type_suffix.as_str(), "_NAME_MAP")),
        None => Err(concat2("Invalid SAI object type C name: ", c_name)),
    }
}

/// Position of the last `|` in `s`, if any.
pub open spec fn spec_last_pipe(s: Seq<char>) -> Option<int>
    decreases s.len(),
{
    if s.len() == 0 {
        None
    } else if s.last() == '|' {
        Some(s.len() - 1)
    } else {
        spec_last_pipe(s.drop_last())
    }
}

/// An object name in the form its name map uses: the last `|` becomes `:`.
pub open spec fn spec_lookup_name(s: Seq<char>) -> Seq<char> {
    match spec_last_pipe(s) {
        Some(i) => s.update(i, ':'),
        None => s,
    }
}

/// Converts an object name for lookup in a name map, where composite keys
/// separate their last component with `:` rather than `|`.
pub fn convert_object_name_for_lookup(object_name: &str) -> (r: String)
    ensures
        r@ == spec_lookup_name(object_name@),
{
    let mut chars = chars_of(object_name);
    let mut i: usize = chars.len();
    assert(object_name@.take(i as int) =~= object_name@);
    while i > 0
        invariant
            chars@ == object_name@,
            i <= chars@.len(),
            spec_last_pipe(object_name@) == spec_last_pipe(object_name@.take(i as int)),
        decreases i,
    {
        assert(object_name@.take(i as int).drop_last() =~= object_name@.take(i - 1));
        if chars[i - 1] == '|' {
            chars.set(i - 1, ':');
            return string_from_chars(chars.as_slice());
        }
        i = i - 1;
    }
    assert(object_name@.take(0) =~= Seq::<char>::empty());
    string_from_chars(chars.as_slice())
}

/// Key of the OID cache: the name-map table, `:`, and the lookup name.
pub fn oid_cache_key(table_name: &str, lookup_name: &str) -> (r: String)
    ensures
        r@ == table_name@ + ":"@ + lookup_name@,
{
    concat3(table_name, ":", lookup_name)
}

/// Key of an object's entry in the `COUNTERS` table.
pub fn counters_key(oid: &str) -> (r: String)
    ensures
        r@ == "COUNTERS:"@ + oid@,
{
    concat2("COUNTERS:", oid)
}

/// C name of statistic `stat_id` of objects of `object_type`, if the
/// statistic is known.
pub open spec fn spec_stat_name(stat_id: u32, object_type: SaiObjectType) -> Option<Seq<char>> {
    match object_type {
        SaiObjectType::Port => match SaiPortStat::spec_from_u32(stat_id) {
            Some(s) => Some(s.spec_c_name()),
            None => None,
        },
        SaiObjectType::Queue => match SaiQueueStat::spec_from_u32(stat_id) {
            Some(s) => Some(s.spec_c_name()),
            None => None,
        },
        SaiObjectType::BufferPool => match SaiBufferPoolStat::spec_from_u32(stat_id) {
            Some(s) => Some(s.spec_c_name()),
            None => None,
        },
        SaiObjectType::IngressPriorityGroup => match SaiIngressPriorityGroupStat::spec_from_u32(stat_id) {
            Some(s) => Some(s.spec_c_name()),
            None => None,
        },
    }
}

/// Error text for an unknown statistic of `object_type`.
pub open spec fn spec_unknown_stat_message(stat_id: u32, object_type: SaiObjectType) -> Seq<char> {
    let prefix = match object_type {
        SaiObjectType::Port => "Unknown port stat ID: "@,
        SaiObjectType::Queue => "Unknown queue stat ID: "@,
        SaiObjectType::BufferPool => "Unknown buffer pool stat ID: "@,
        SaiObjectType::IngressPriorityGroup => "Unknown ingress priority group stat ID: "@,
    };
    prefix + spec_decimal(stat_id as nat)
}

/// C name of statistic `stat_id` of objects of `object_type`: the field
/// name under which the counter is written.
pub fn get_stat_name(stat_id: u32, object_type: &SaiObjectType) -> (r: Result<String, String>)
    ensures
        match r {
            Ok(name) => spec_stat_name(stat_id, *object_type) == Some(name@),
            Err(e) => spec_stat_name(stat_id, *object_type) is None
                && e@ == spec_unknown_stat_message(stat_id, *object_type),
        },
{
    let digits = decimal_string(stat_id as u64);
    match object_type {
        SaiObjectType::Port => match SaiPortStat::from_u32(stat_id) {
            Some(s) => Ok(string_of_str(s.to_c_name())),
            None => Err(concat2("Unknown port stat ID: ", digits.as_str())),
        },
        SaiObjectType::Queue => match SaiQueueStat::from_u32(stat_id) {
            Some(s) => Ok(string_of_str(s.to_c_name())),
            None => Err(concat2("Unknown queue stat ID: ", digits.as_str())),
        },
        SaiObjectType::BufferPool => match SaiBufferPoolStat::from_u32(stat_id) {
            Some(s) => Ok(string_of_str(s.to_c_name())),
            None => Err(concat2("Unknown buffer pool stat ID: ", digits.as_str())),
        },
        SaiObjectType::IngressPriorityGroup => match SaiIngressPriorityGroupStat::from_u32(stat_id) {
            Some(s) => Ok(string_of_str(s.to_c_name())),
            None => Err(concat2("Unknown ingress priority group stat ID: ", digits.as_str())),
        },
    }
}

/// An owned copy of `s`.
fn string_of_str(s: &str) -> (r: String)
    ensures
        r@ == s@,
{
    s.to_owned()
}

} // verus!
