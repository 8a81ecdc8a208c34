//! State of the console statistics reporter.
//!
//! The reporter keeps the latest value of every counter (object name, SAI
//! type, SAI statistic) and how many readings of it arrived in the current
//! reporting period. Each report lists the counters grouped by type, or a
//! summary, and starts a new period.
use std::io::Write;
use std::time::Duration;
use vstd::prelude::*;
use crate::assoc::{AssocList, KeyEq};
use crate::actor::counter_db::{get_stat_name, spec_stat_name};
use crate::clock::{duration_from_secs, duration_of_secs, format_timestamp, spec_format_timestamp};
use crate::message::saistats::{SAIStat, SAIStats};
use crate::sai::{SaiBufferPoolStat, SaiIngressPriorityGroupStat, SaiObjectType, SaiPortStat, SaiQueueStat};
use crate::text::{
    chars_less, chars_lt, chars_of, concat2, concat3, decimal_string, lemma_chars_lt_irreflexive, lemma_chars_lt_total,
    lemma_chars_lt_transitive, spec_decimal, str_eq, string_from_chars,
};

verus! {

/// Key of a counter: (object_name, type_id, stat_id).
#[derive(Debug, Clone, PartialEq, Eq, Hash)]
pub struct CounterKey {
    pub object_name: String,
    pub type_id: u32,
    pub stat_id: u32,
}

impl View for CounterKey {
    type V = (Seq<char>, u32, u32);

    open spec fn view(&self) -> (Seq<char>, u32, u32) {
        (self.object_name@, self.type_id, self.stat_id)
    }
}

impl KeyEq for CounterKey {
    fn key_eq(&self, other: &Self) -> (r: bool) {
        self.type_id == other.type_id && self.stat_id == other.stat_id && self.object_name == other.object_name
    }

    fn key_clone(&self) -> (r: Self) {
        CounterKey { object_name: self.object_name.clone(), type_id: self.type_id, stat_id: self.stat_id }
    }
}

impl CounterKey {
    /// The key of counter `stat_id` of type `type_id` on `object_name`.
    pub fn new(object_name: String, type_id: u32, stat_id: u32) -> (r: Self)
        ensures
            r.object_name == object_name,
            r.type_id == type_id,
            r.stat_id == stat_id,
    {
        Self { object_name, type_id, stat_id }
    }
}

/// Latest value of a counter and when it was observed.
#[derive(Debug, Clone)]
pub struct CounterInfo {
    pub counter: u64,
    pub last_observation_time: u64,
}

/// Destination of report lines.
pub trait OutputWriter: Send + Sync {
    fn write_line(&mut self, line: &str);
}

/// Writes report lines to standard output.
pub struct ConsoleWriter;

/// Writes one line to standard output (`writeln!` on `std::io::stdout()`);
/// a failed write is ignored. Nothing is claimed of it.
#[verifier::external_body]
fn print_line(line: &str) {
    let _ = writeln!(std::io::stdout(), "{}", line);
}

impl OutputWriter for ConsoleWriter {
    fn write_line(&mut self, line: &str) {
        print_line(line);
    }
}

/// Keeps report lines in memory.
pub struct TestWriter {
    pub lines: Vec<String>,
}

impl TestWriter {
    /// A writer that has kept no lines.
    pub fn new() -> (r: Self)
        ensures
            r.lines@ == Seq::<String>::empty(),
    {
        Self { lines: Vec::new() }
    }

    /// The lines kept, in order.
    pub fn get_output(&self) -> (r: &[String])
        ensures
            r@ == self.lines@,
    {
        self.lines.as_slice()
    }
}

impl OutputWriter for TestWriter {
    /// Keeps `line` after the lines kept so far.
    fn write_line(&mut self, line: &str)
        ensures
            final(self).lines@.len() == old(self).lines@.len() + 1,
            final(self).lines@.take(old(self).lines@.len() as int) == old(self).lines@,
            final(self).lines@.last()@ == line@,
    {
        self.lines.push(line.to_owned());
    }
}

/// Configuration of the reporter.
#[derive(Debug)]
pub struct StatsReporterConfig {
    /// How often a report is printed.
    pub interval: Duration,
    /// Whether reports list every counter or only a summary.
    pub detailed: bool,
    /// Most counters listed in one report.
    pub max_stats_per_report: Option<usize>,
}

impl Default for StatsReporterConfig {
    /// A detailed report every 10 seconds, without a limit.
    fn default() -> (r: Self)
        ensures
            r.interval == duration_of_secs(10),
            r.detailed,
            r.max_stats_per_report is None,
    {
        Self { interval: duration_from_secs(10), detailed: true, max_stats_per_report: None }
    }
}

/// Counts the readings of a statistics message: one more reading of the
/// counter of `stat`.
pub open spec fn spec_count_stat(m: Map<(Seq<char>, u32, u32), u64>, stat: SAIStat) -> Map<(Seq<char>, u32, u32), u64> {
    let k = (stat.object_name@, stat.type_id, stat.stat_id);
    m.insert(k, if m.dom().contains(k) { (m[k] + 1) as u64 } else { 1 })
}

/// The latest values after the readings `stats` observed at `time`.
pub open spec fn spec_record_latest(
    m: Map<(Seq<char>, u32, u32), CounterInfo>,
    stats: Seq<SAIStat>,
    time: u64,
) -> Map<(Seq<char>, u32, u32), CounterInfo>
    decreases stats.len(),
{
    if stats.len() == 0 {
        m
    } else {
        let s = stats.last();
        spec_record_latest(m, stats.drop_last(), time).insert(
            (s.object_name@, s.type_id, s.stat_id),
            CounterInfo { counter: s.counter, last_observation_time: time },
        )
    }
}

/// The per-period reading counts after the readings `stats`.
pub open spec fn spec_record_counts(m: Map<(Seq<char>, u32, u32), u64>, stats: Seq<SAIStat>) -> Map<(Seq<char>, u32, u32), u64>
    decreases stats.len(),
{
    if stats.len() == 0 {
        m
    } else {
        spec_count_stat(spec_record_counts(m, stats.drop_last()), stats.last())
    }
}

/// Every count can take `n` more readings without overflow.
pub open spec fn spec_counts_fit(m: Map<(Seq<char>, u32, u32), u64>, n: nat) -> bool {
    forall|k: (Seq<char>, u32, u32)| m.dom().contains(k) ==> m[k] + n <= u64::MAX
}

/// How many readings of `stats` belong to counter `k`.
pub open spec fn spec_readings_of(stats: Seq<SAIStat>, k: (Seq<char>, u32, u32)) -> nat
    decreases stats.len(),
{
    if stats.len() == 0 {
        0
    } else {
        spec_readings_of(stats.drop_last(), k) + if (stats.last().object_name@, stats.last().type_id, stats.last().stat_id)
            == k {
            1nat
        } else {
            0nat
        }
    }
}

/// Law: the count of a counter after a message is its count before plus the
/// number of readings of it in the message (while counts fit in 64 bits).
pub proof fn lemma_counts_add_readings(
    m: Map<(Seq<char>, u32, u32), u64>,
    stats: Seq<SAIStat>,
    k: (Seq<char>, u32, u32),
)
    requires
        spec_counts_fit(m, stats.len()),
        stats.len() <= u64::MAX,
    ensures
        spec_record_counts(m, stats).dom().contains(k) == (m.dom().contains(k) || spec_readings_of(stats, k) > 0),
        spec_record_counts(m, stats).dom().contains(k) ==> spec_record_counts(m, stats)[k] == (if m.dom().contains(k) {
            m[k] as nat
        } else {
            0nat
        }) + spec_readings_of(stats, k),
    decreases stats.len(),
{
    if stats.len() > 0 {
        let rest = stats.drop_last();
        lemma_counts_add_readings(m, rest, k);
        lemma_counts_grow(m, rest, 1);
        lemma_readings_bounded(rest, k);
        let before = spec_record_counts(m, rest);
        let st = stats.last();
        let sk = (st.object_name@, st.type_id, st.stat_id);
        if sk == k && before.dom().contains(k) {
            assert(before[k] + 1 <= u64::MAX);
        }
    }
}

/// A message has no more readings of a counter than it has readings.
proof fn lemma_readings_bounded(stats: Seq<SAIStat>, k: (Seq<char>, u32, u32))
    ensures
        spec_readings_of(stats, k) <= stats.len(),
    decreases stats.len(),
{
    if stats.len() > 0 {
        lemma_readings_bounded(stats.drop_last(), k);
    }
}

/// Law: after a message, the latest value of a counter it reads is its last
/// reading in the message, observed at the message's time.
pub proof fn lemma_latest_reading_wins(
    m: Map<(Seq<char>, u32, u32), CounterInfo>,
    stats: Seq<SAIStat>,
    time: u64,
    i: int,
)
    requires
        0 <= i < stats.len(),
        forall|j: int| i < j < stats.len() ==> (#[trigger] stats[j].object_name@, stats[j].type_id, stats[j].stat_id)
            != (stats[i].object_name@, stats[i].type_id, stats[i].stat_id),
    ensures
        ({
            let k = (stats[i].object_name@, stats[i].type_id, stats[i].stat_id);
            &&& spec_record_latest(m, stats, time).dom().contains(k)
            &&& spec_record_latest(m, stats, time)[k] == (CounterInfo { counter: stats[i].counter, last_observation_time: time })
        }),
    decreases stats.len(),
{
    if i < stats.len() - 1 {
        let rest = stats.drop_last();
        assert forall|j: int| i < j < rest.len() implies (#[trigger] rest[j].object_name@, rest[j].type_id, rest[j].stat_id)
            != (rest[i].object_name@, rest[i].type_id, rest[i].stat_id) by {
            assert(rest[j] == stats[j]);
        }
        lemma_latest_reading_wins(m, rest, time, i);
        let j = stats.len() - 1;
        assert((stats[j].object_name@, stats[j].type_id, stats[j].stat_id) != (stats[i].object_name@, stats[i].type_id, stats[i].stat_id));
    }
}

/// State of the reporter: latest values, per-period counts, and totals.
pub struct StatsReporterState {
    pub latest_counters: AssocList<CounterKey, CounterInfo>,
    pub messages_per_counter: AssocList<CounterKey, u64>,
    pub total_messages_received: u64,
    pub reports_generated: u64,
}

proof fn lemma_counts_grow(m: Map<(Seq<char>, u32, u32), u64>, stats: Seq<SAIStat>, n: nat)
    requires
        spec_counts_fit(m, n + stats.len()),
        n + stats.len() <= u64::MAX,
    ensures
        spec_counts_fit(spec_record_counts(m, stats), n),
    decreases stats.len(),
{
    if stats.len() > 0 {
        lemma_counts_grow(m, stats.drop_last(), n + 1);
        let m1 = spec_record_counts(m, stats.drop_last());
        let st = stats.last();
        let k = (st.object_name@, st.type_id, st.stat_id);
        let m2 = spec_count_stat(m1, st);
        assert forall|k2: (Seq<char>, u32, u32)| m2.dom().contains(k2) implies m2[k2] + n <= u64::MAX by {
            if m1.dom().contains(k2) {
                assert(m1[k2] + (n + 1) <= u64::MAX);
            }
        }
    }
}

impl StatsReporterState {
    /// Well-formed tables.
    pub open spec fn wf(&self) -> bool {
        self.latest_counters.wf() && self.messages_per_counter.wf()
    }

    /// No counters, no readings, no reports.
    pub fn new() -> (r: Self)
        ensures
            r.wf(),
            r.latest_counters.map() == Map::<(Seq<char>, u32, u32), CounterInfo>::empty(),
            r.messages_per_counter.map() == Map::<(Seq<char>, u32, u32), u64>::empty(),
            r.total_messages_received == 0,
            r.reports_generated == 0,
    {
        let r = StatsReporterState {
            latest_counters: AssocList::new(),
            messages_per_counter: AssocList::new(),
            total_messages_received: 0,
            reports_generated: 0,
        };
        assert(r.latest_counters.map() =~= Map::<(Seq<char>, u32, u32), CounterInfo>::empty());
        assert(r.messages_per_counter.map() =~= Map::<(Seq<char>, u32, u32), u64>::empty());
        r
    }

    /// Whether `n` more readings can be counted without overflow.
    pub fn counts_fit(&self, n: usize) -> (r: bool)
        requires
            self.wf(),
        ensures
            r == spec_counts_fit(self.messages_per_counter.map(), n as nat),
    {
        let mut i: usize = 0;
        while i < self.messages_per_counter.len()
            invariant
                self.wf(),
                i <= self.messages_per_counter.entries().len(),
                forall|j: int| 0 <= j < i ==> self.messages_per_counter.entries()[j].1 + n <= u64::MAX,
            decreases self.messages_per_counter.entries().len() - i,
        {
            if *self.messages_per_counter.value_at(i) > u64::MAX - n as u64 {
                proof {
                    self.messages_per_counter.lemma_index_of(i as int);
                    let k = self.messages_per_counter.entries()[i as int].0;
                    assert(self.messages_per_counter.map().dom().contains(k));
                    assert(self.messages_per_counter.map()[k] == self.messages_per_counter.entries()[i as int].1);
                }
                return false;
            }
            i = i + 1;
        }
        proof {
            assert forall|k: (Seq<char>, u32, u32)| self.messages_per_counter.map().dom().contains(k)
                implies self.messages_per_counter.map()[k] + n <= u64::MAX by {
                let j = self.messages_per_counter.index_of(k);
                assert(0 <= j < self.messages_per_counter.entries().len());
                assert(self.messages_per_counter.entries()[j].1 + n <= u64::MAX);
            }
        }
        true
    }

    /// Records a statistics message: for each reading, the counter's latest
    /// value and observation time, and one more reading in this period.
    pub fn update_stats(&mut self, stats: &SAIStats)
        requires
            old(self).wf(),
            old(self).total_messages_received < u64::MAX,
            spec_counts_fit(old(self).messages_per_counter.map(), stats.stats@.len()),
        ensures
            final(self).wf(),
            final(self).total_messages_received == old(self).total_messages_received + 1,
            final(self).reports_generated == old(self).reports_generated,
            final(self).latest_counters.map() == spec_record_latest(
                old(self).latest_counters.map(),
                stats.stats@,
                stats.observation_time,
            ),
            final(self).messages_per_counter.map() == spec_record_counts(
                old(self).messages_per_counter.map(),
                stats.stats@,
            ),
    {
        self.total_messages_received = self.total_messages_received + 1;
        let ghost l0 = self.latest_counters.map();
        let ghost c0 = self.messages_per_counter.map();
        let mut i: usize = 0;
        while i < stats.stats.len()
            invariant
                i <= stats.stats@.len(),
                self.wf(),
                self.total_messages_received == old(self).total_messages_received + 1,
                self.reports_generated == old(self).reports_generated,
                spec_counts_fit(c0, stats.stats@.len()),
                self.latest_counters.map() == spec_record_latest(l0, stats.stats@.take(i as int), stats.observation_time),
                self.messages_per_counter.map() == spec_record_counts(c0, stats.stats@.take(i as int)),
            decreases stats.stats@.len() - i,
        {
            let stat = &stats.stats[i];
            assert(stats.stats@.take(i + 1).drop_last() =~= stats.stats@.take(i as int));
            proof {
                lemma_counts_grow(c0, stats.stats@.take(i as int), (stats.stats@.len() - i) as nat);
            }
            let key = CounterKey::new(stat.object_name.clone(), stat.type_id, stat.stat_id);
            let key2 = key.key_clone();
            self.latest_counters.insert(
                key,
                CounterInfo { counter: stat.counter, last_observation_time: stats.observation_time },
            );
            let count = match self.messages_per_counter.get(&key2) {
                Some(c) => *c + 1,
                None => 1,
            };
            self.messages_per_counter.insert(key2, count);
            i = i + 1;
        }
        assert(stats.stats@.take(stats.stats@.len() as int) =~= stats.stats@);
    }
}

/// Position of the first occurrence of `pat` in `s`.
pub open spec fn spec_find(s: Seq<char>, pat: Seq<char>) -> Option<int> {
    if exists|i: int| 0 <= i && i + pat.len() <= s.len() && #[trigger] s.subrange(i, i + pat.len()) == pat {
        Some(choose|i: int| 0 <= i && i + pat.len() <= s.len() && #[trigger] s.subrange(i, i + pat.len()) == pat
            && forall|j: int| 0 <= j < i ==> #[trigger] s.subrange(j, j + pat.len()) != pat)
    } else {
        None
    }
}

/// A statistic name without its `SAI_<TYPE>_STAT_` prefix: the text after
/// the first `_STAT_` of a name that starts with `SAI_`; other names are
/// kept as they are.
pub open spec fn spec_remove_sai_prefix(name: Seq<char>) -> Seq<char> {
    if name.len() >= 4 && name.take(4) == "SAI_"@ && spec_find(name, "_STAT_"@) is Some {
        name.skip(spec_find(name, "_STAT_"@).unwrap() + 6)
    } else {
        name
    }
}

/// Strips the `SAI_<TYPE>_STAT_` prefix of a statistic name.
pub fn remove_sai_prefix(stat_name: &str) -> (r: String)
    ensures
        r@ == spec_remove_sai_prefix(stat_name@),
{
    let s = chars_of(stat_name);
    let pat = chars_of("_STAT_");
    let sai = chars_of("SAI_");
    proof {
        reveal_strlit("_STAT_");
        reveal_strlit("SAI_");
    }
    let mut starts = s.len() >= 4;
    if starts {
        let mut k: usize = 0;
        while k < 4
            invariant
                s@ == stat_name@,
                sai@ == "SAI_"@,
                sai@.len() == 4,
                s@.len() >= 4,
                k <= 4,
                starts == forall|j: int| 0 <= j < k ==> s@[j] == sai@[j],
            decreases 4 - k,
        {
            if s[k] != sai[k] {
                starts = false;
            }
            k = k + 1;
        }
        proof {
            if starts {
                assert(s@.take(4) =~= sai@);
            } else {
                let j = choose|j: int| 0 <= j < 4 && s@[j] != sai@[j];
                assert(s@.take(4)[j] != "SAI_"@[j]);
            }
        }
    }
    if !starts {
        return string_from_chars(s.as_slice());
    }
    let n: usize = s.len();
    let mut i: usize = 0;
    while n - i >= 6
        invariant
            n == s@.len(),
            s@ == stat_name@,
            pat@ == "_STAT_"@,
            pat@.len() == 6,
            i <= s@.len(),
            s@.len() >= 4,
            s@.take(4) == "SAI_"@,
            forall|j: int| 0 <= j < i ==> #[trigger] s@.subrange(j, j + 6) != pat@,
        decreases s@.len() - i,
    {
        let mut same = true;
        let mut k: usize = 0;
        while k < 6
            invariant
                s@ == stat_name@,
                pat@.len() == 6,
                pat@ == "_STAT_"@,
                n == s@.len(),
                i + 6 <= n,
                k <= 6,
                same == forall|j: int| 0 <= j < k ==> s@[i + j] == pat@[j],
            decreases 6 - k,
        {
            if s[i + k] != pat[k] {
                same = false;
            }
            k = k + 1;
        }
        if same {
            assert(s@.subrange(i as int, i + 6) =~= pat@);
            proof {
                let w = choose|w: int| 0 <= w && w + 6 <= s@.len() && #[trigger] s@.subrange(w, w + 6) == pat@
                    && forall|j: int| 0 <= j < w ==> #[trigger] s@.subrange(j, j + 6) != pat@;
                assert(w == i) by {
                    if w < i {
                        assert(s@.subrange(w, w + 6) != pat@);
                    } else if w > i {
                        assert(s@.subrange(i as int, i + 6) != pat@);
                    }
                }
            }
            let rest = vstd::slice::slice_subrange(s.as_slice(), i + 6, s.len());
            assert(rest@ =~= s@.skip(i + 6));
            return string_from_chars(rest);
        }
        proof {
            let j = choose|j: int| 0 <= j < 6 && s@[i + j] != pat@[j];
            assert(s@.subrange(i as int, i + 6)[j] != pat@[j]);
        }
        i = i + 1;
    }
    proof {
        assert forall|j: int| 0 <= j && j + 6 <= s@.len() implies #[trigger] s@.subrange(j, j + 6) != pat@ by {
            assert(j < i);
        }
    }
    string_from_chars(s.as_slice())
}


/// The order in which a detailed report lists counters: by type id, then by
/// object name, then by statistic id.
pub open spec fn report_key_lt(a: (Seq<char>, u32, u32), b: (Seq<char>, u32, u32)) -> bool {
    a.1 < b.1 || (a.1 == b.1 && (chars_lt(a.0, b.0) || (a.0 == b.0 && a.2 < b.2)))
}

/// Every counter key of `s` comes before the ones after it.
pub open spec fn report_sorted(s: Seq<(Seq<char>, u32, u32)>) -> bool {
    forall|i: int, j: int| 0 <= i < j < s.len() ==> report_key_lt(#[trigger] s[i], #[trigger] s[j])
}

/// The counter keys of `keys` in report order.
pub open spec fn spec_sorted_keys(keys: Set<(Seq<char>, u32, u32)>) -> Seq<(Seq<char>, u32, u32)> {
    choose|s: Seq<(Seq<char>, u32, u32)>| report_sorted(s) && s.to_set() == keys
}

proof fn lemma_report_key_lt_irreflexive(a: (Seq<char>, u32, u32))
    ensures
        !report_key_lt(a, a),
{
    lemma_chars_lt_irreflexive(a.0);
}

proof fn lemma_report_key_lt_transitive(a: (Seq<char>, u32, u32), b: (Seq<char>, u32, u32), c: (Seq<char>, u32, u32))
    requires
        report_key_lt(a, b),
        report_key_lt(b, c),
    ensures
        report_key_lt(a, c),
{
    if a.1 == b.1 && b.1 == c.1 {
        if chars_lt(a.0, b.0) && chars_lt(b.0, c.0) {
            lemma_chars_lt_transitive(a.0, b.0, c.0);
        }
    }
}

proof fn lemma_report_key_lt_total(a: (Seq<char>, u32, u32), b: (Seq<char>, u32, u32))
    requires
        a != b,
    ensures
        report_key_lt(a, b) || report_key_lt(b, a),
{
    if a.0 != b.0 {
        lemma_chars_lt_total(a.0, b.0);
    }
}

/// Two sorted listings of the same keys are the same listing.
proof fn lemma_sorted_unique(s1: Seq<(Seq<char>, u32, u32)>, s2: Seq<(Seq<char>, u32, u32)>)
    requires
        report_sorted(s1),
        report_sorted(s2),
        s1.to_set() == s2.to_set(),
    ensures
        s1 == s2,
    decreases s1.len(),
{
    if s1.len() == 0 {
        if s2.len() > 0 {
            assert(s2.to_set().contains(s2[0]));
        }
        assert(s1 =~= s2);
    } else {
        assert(s1.to_set().contains(s1[0]));
        assert(s2.len() > 0);
        let a = s1[0];
        let b = s2[0];
        assert(s2.to_set().contains(b));
        assert(s1.contains(b));
        assert(s2.contains(a));
        if a != b {
            let j = choose|j: int| 0 <= j < s1.len() && s1[j] == b;
            let k = choose|k: int| 0 <= k < s2.len() && s2[k] == a;
            assert(j != 0);
            assert(k != 0);
            assert(report_key_lt(s1[0], s1[j]));
            assert(report_key_lt(s2[0], s2[k]));
            lemma_report_key_lt_transitive(a, b, a);
            lemma_report_key_lt_irreflexive(a);
        }
        let t1 = s1.drop_first();
        let t2 = s2.drop_first();
        assert(report_sorted(t1)) by {
            assert forall|i: int, j: int| 0 <= i < j < t1.len() implies report_key_lt(#[trigger] t1[i], #[trigger] t1[j]) by {
                assert(report_key_lt(s1[i + 1], s1[j + 1]));
            }
        }
        assert(report_sorted(t2)) by {
            assert forall|i: int, j: int| 0 <= i < j < t2.len() implies report_key_lt(#[trigger] t2[i], #[trigger] t2[j]) by {
                assert(report_key_lt(s2[i + 1], s2[j + 1]));
            }
        }
        assert(t1.to_set() =~= t2.to_set()) by {
            assert forall|x: (Seq<char>, u32, u32)| t1.to_set().contains(x) implies t2.to_set().contains(x) by {
                let i = choose|i: int| 0 <= i < t1.len() && t1[i] == x;
                assert(s1[i + 1] == x);
                assert(s1.to_set().contains(x));
                assert(s2.contains(x));
                let m = choose|m: int| 0 <= m < s2.len() && s2[m] == x;
                assert(report_key_lt(s1[0], s1[i + 1]));
                if m == 0 {
                    lemma_report_key_lt_irreflexive(a);
                }
                assert(t2[m - 1] == x);
            }
            assert forall|x: (Seq<char>, u32, u32)| t2.to_set().contains(x) implies t1.to_set().contains(x) by {
                let i = choose|i: int| 0 <= i < t2.len() && t2[i] == x;
                assert(s2[i + 1] == x);
                assert(s2.to_set().contains(x));
                assert(s1.contains(x));
                let m = choose|m: int| 0 <= m < s1.len() && s1[m] == x;
                assert(report_key_lt(s2[0], s2[i + 1]));
                if m == 0 {
                    lemma_report_key_lt_irreflexive(a);
                }
                assert(t1[m - 1] == x);
            }
        }
        lemma_sorted_unique(t1, t2);
        assert(s1 =~= s2) by {
            assert forall|i: int| 0 <= i < s1.len() implies s1[i] == s2[i] by {
                if i > 0 {
                    assert(t1[i - 1] == t2[i - 1]);
                }
            }
        }
    }
}

/// A sorted listing of a set of keys is the report order of that set.
proof fn lemma_sorted_is_report_order(s: Seq<(Seq<char>, u32, u32)>)
    requires
        report_sorted(s),
    ensures
        spec_sorted_keys(s.to_set()) == s,
{
    let t = spec_sorted_keys(s.to_set());
    assert(report_sorted(t) && t.to_set() == s.to_set());
    lemma_sorted_unique(t, s);
}

/// A key missing from a sorted listing has a place in it: after the keys
/// before it and before the keys after it.
proof fn lemma_insert_position(s: Seq<(Seq<char>, u32, u32)>, x: (Seq<char>, u32, u32)) -> (p: int)
    requires
        report_sorted(s),
        !s.contains(x),
    ensures
        0 <= p <= s.len(),
        forall|q: int| 0 <= q < p ==> report_key_lt(#[trigger] s[q], x),
        p < s.len() ==> report_key_lt(x, s[p]),
    decreases s.len(),
{
    if s.len() == 0 {
        0
    } else if report_key_lt(x, s[0]) {
        0
    } else {
        assert(s[0] != x);
        lemma_report_key_lt_total(s[0], x);
        let t = s.drop_first();
        assert(report_sorted(t)) by {
            assert forall|i: int, j: int| 0 <= i < j < t.len() implies report_key_lt(#[trigger] t[i], #[trigger] t[j]) by {
                assert(report_key_lt(s[i + 1], s[j + 1]));
            }
        }
        assert(!t.contains(x)) by {
            if t.contains(x) {
                let j = choose|j: int| 0 <= j < t.len() && t[j] == x;
                assert(s[j + 1] == x);
            }
        }
        let p = lemma_insert_position(t, x);
        assert forall|q: int| 0 <= q < p + 1 implies report_key_lt(#[trigger] s[q], x) by {
            if q > 0 {
                assert(s[q] == t[q - 1]);
            }
        }
        if p + 1 < s.len() {
            assert(s[p + 1] == t[p]);
        }
        p + 1
    }
}

/// Law: every finite set of counter keys has a report order, which lists
/// each key once, each before the keys that come after it.
pub proof fn lemma_report_order_exists(keys: Set<(Seq<char>, u32, u32)>)
    requires
        keys.finite(),
    ensures
        report_sorted(spec_sorted_keys(keys)),
        spec_sorted_keys(keys).to_set() == keys,
        spec_sorted_keys(keys).len() == keys.len(),
    decreases keys.len(),
{
    if keys.len() == 0 {
        let e = Seq::<(Seq<char>, u32, u32)>::empty();
        assert(keys =~= Set::<(Seq<char>, u32, u32)>::empty());
        assert(e.to_set() =~= keys);
        assert(report_sorted(e));
        lemma_sorted_is_report_order(e);
    } else {
        let x = keys.choose();
        let rest = keys.remove(x);
        lemma_report_order_exists(rest);
        let s = spec_sorted_keys(rest);
        assert(!s.contains(x)) by {
            if s.contains(x) {
                assert(s.to_set().contains(x));
            }
        }
        let p = lemma_insert_position(s, x);
        lemma_insert_sorted(s, p, x);
        let t = s.insert(p, x);
        assert(t.to_set() =~= keys) by {
            assert forall|y: (Seq<char>, u32, u32)| t.to_set().contains(y) implies keys.contains(y) by {
                let j = choose|j: int| 0 <= j < t.len() && t[j] == y;
                if j < p {
                    assert(t[j] == s[j]);
                    assert(s.to_set().contains(s[j]));
                } else if j > p {
                    assert(t[j] == s[j - 1]);
                    assert(s.to_set().contains(s[j - 1]));
                }
            }
            assert forall|y: (Seq<char>, u32, u32)| keys.contains(y) implies t.to_set().contains(y) by {
                if y == x {
                    assert(t[p] == y);
                } else {
                    assert(rest.contains(y));
                    assert(s.to_set().contains(y));
                    let j = choose|j: int| 0 <= j < s.len() && s[j] == y;
                    if j < p {
                        assert(t[j] == y);
                    } else {
                        assert(t[j + 1] == y);
                    }
                }
            }
        }
        lemma_sorted_is_report_order(t);
        let u = spec_sorted_keys(keys);
        assert(u.no_duplicates()) by {
            assert forall|i: int, j: int| 0 <= i < u.len() && 0 <= j < u.len() && i != j implies u[i] != u[j] by {
                if i < j {
                    assert(report_key_lt(u[i], u[j]));
                } else {
                    assert(report_key_lt(u[j], u[i]));
                }
                lemma_report_key_lt_irreflexive(u[i]);
            }
        }
        u.unique_seq_to_set();
    }
}

/// Whether counter `a` comes before counter `b` in a report.
fn counter_key_lt(a: &CounterKey, b: &CounterKey) -> (r: bool)
    ensures
        r == report_key_lt(a@, b@),
{
    if a.type_id != b.type_id {
        return a.type_id < b.type_id;
    }
    if !str_eq(a.object_name.as_str(), b.object_name.as_str()) {
        let x = chars_of(a.object_name.as_str());
        let y = chars_of(b.object_name.as_str());
        return chars_less(x.as_slice(), y.as_slice());
    }
    proof {
        lemma_chars_lt_irreflexive(a.object_name@);
    }
    a.stat_id < b.stat_id
}


/// Inserting a key at the place where it belongs keeps a listing sorted.
proof fn lemma_insert_sorted(vs: Seq<(Seq<char>, u32, u32)>, p: int, k: (Seq<char>, u32, u32))
    requires
        report_sorted(vs),
        0 <= p <= vs.len(),
        forall|q: int| 0 <= q < p ==> report_key_lt(#[trigger] vs[q], k),
        p < vs.len() ==> report_key_lt(k, vs[p]),
    ensures
        report_sorted(vs.insert(p, k)),
{
    let ws = vs.insert(p, k);
    assert forall|i: int, j: int| 0 <= i < j < ws.len() implies report_key_lt(#[trigger] ws[i], #[trigger] ws[j]) by {
        if j < p {
            assert(report_key_lt(vs[i], vs[j]));
        } else if j == p {
            assert(report_key_lt(vs[i], k));
        } else if i < p {
            assert(report_key_lt(vs[i], vs[j - 1]));
        } else if i == p {
            if j - 1 > p {
                assert(report_key_lt(vs[p], vs[j - 1]));
                lemma_report_key_lt_transitive(k, vs[p], vs[j - 1]);
            }
        } else {
            assert(report_key_lt(vs[i - 1], vs[j - 1]));
        }
    }
}

impl StatsReporterState {
    /// The keys of the counters, in report order.
    pub fn sorted_counter_keys(&self) -> (r: Vec<CounterKey>)
        requires
            self.wf(),
        ensures
            r@.map_values(|k: CounterKey| k@) == spec_sorted_keys(self.latest_counters.map().dom()),
            report_sorted(r@.map_values(|k: CounterKey| k@)),
            r@.map_values(|k: CounterKey| k@).to_set() == self.latest_counters.map().dom(),
            r@.len() == self.latest_counters.entries().len(),
    {
        let mut v: Vec<CounterKey> = Vec::new();
        let n = self.latest_counters.len();
        let mut i: usize = 0;
        assert(self.latest_counters.keys().take(0).to_set() =~= v@.map_values(|k: CounterKey| k@).to_set());
        while i < n
            invariant
                self.wf(),
                n == self.latest_counters.entries().len(),
                i <= n,
                v@.len() == i,
                report_sorted(v@.map_values(|k: CounterKey| k@)),
                v@.map_values(|k: CounterKey| k@).to_set() == self.latest_counters.keys().take(i as int).to_set(),
            decreases n - i,
        {
            let key = self.latest_counters.key_at(i).key_clone();
            let ghost vs = v@.map_values(|k: CounterKey| k@);
            let ghost keys = self.latest_counters.keys();
            assert(key@ == keys[i as int]);
            assert(!vs.to_set().contains(key@)) by {
                if vs.to_set().contains(key@) {
                    assert(keys.take(i as int).contains(key@));
                    let j = choose|j: int| 0 <= j < i && keys.take(i as int)[j] == key@;
                    assert(self.latest_counters.entries()[j].0 == self.latest_counters.entries()[i as int].0);
                }
            }
            let mut p: usize = 0;
            while p < v.len() && !counter_key_lt(&key, &v[p])
                invariant
                    p <= v@.len(),
                    vs == v@.map_values(|k: CounterKey| k@),
                    forall|q: int| 0 <= q < p ==> !report_key_lt(key@, #[trigger] vs[q]),
                decreases v@.len() - p,
            {
                p = p + 1;
            }
            proof {
                assert forall|q: int| 0 <= q < p implies report_key_lt(#[trigger] vs[q], key@) by {
                    assert(vs.to_set().contains(vs[q]));
                    lemma_report_key_lt_total(vs[q], key@);
                }
                lemma_insert_sorted(vs, p as int, key@);
            }
            v.insert(p, key);
            proof {
                assert(v@.map_values(|k: CounterKey| k@) =~= vs.insert(p as int, keys[i as int]));
                assert(keys.take(i + 1) =~= keys.take(i as int).push(keys[i as int]));
                assert(v@.map_values(|k: CounterKey| k@).to_set() =~= keys.take(i + 1).to_set()) by {
                    let ws = v@.map_values(|k: CounterKey| k@);
                    assert forall|x: (Seq<char>, u32, u32)| ws.to_set().contains(x) implies keys.take(i + 1).to_set().contains(x) by {
                        let j = choose|j: int| 0 <= j < ws.len() && ws[j] == x;
                        if j < p {
                            assert(vs.to_set().contains(vs[j]));
                        } else if j > p {
                            assert(vs.to_set().contains(vs[j - 1]));
                        } else {
                            assert(keys.take(i + 1)[i as int] == x);
                        }
                    }
                    let ki = keys.take(i + 1);
                    assert forall|x: (Seq<char>, u32, u32)| ki.to_set().contains(x) implies ws.to_set().contains(x) by {
                        let j = choose|j: int| 0 <= j < ki.len() && ki[j] == x;
                        if j < i {
                            assert(keys.take(i as int)[j] == x);
                            assert(vs.to_set().contains(x));
                            let m = choose|m: int| 0 <= m < vs.len() && vs[m] == x;
                            if m < p {
                                assert(ws[m] == x);
                            } else {
                                assert(ws[m + 1] == x);
                            }
                        } else {
                            assert(ws[p as int] == x);
                        }
                    }
                }
            }
            i = i + 1;
        }
        proof {
            let ws = v@.map_values(|k: CounterKey| k@);
            let keys = self.latest_counters.keys();
            assert(keys.take(n as int) =~= keys);
            self.latest_counters.lemma_keys_domain();
            lemma_sorted_is_report_order(ws);
        }
        v
    }
}


/// How a report names object type `type_id`: the name of its variant, or
/// `UNKNOWN(<type_id>)` for a type the daemon does not know.
pub open spec fn spec_type_label(type_id: u32) -> Seq<char> {
    match SaiObjectType::spec_from_u32(type_id) {
        Some(SaiObjectType::Port) => "Port"@,
        Some(SaiObjectType::Queue) => "Queue"@,
        Some(SaiObjectType::BufferPool) => "BufferPool"@,
        Some(SaiObjectType::IngressPriorityGroup) => "IngressPriorityGroup"@,
        None => "UNKNOWN("@ + spec_decimal(type_id as nat) + ")"@,
    }
}

/// The name of object type `type_id` in a report.
pub fn type_id_to_string(type_id: u32) -> (r: String)
    ensures
        r@ == spec_type_label(type_id),
{
    match SaiObjectType::from_u32(type_id) {
        Some(SaiObjectType::Port) => "Port".to_owned(),
        Some(SaiObjectType::Queue) => "Queue".to_owned(),
        Some(SaiObjectType::BufferPool) => "BufferPool".to_owned(),
        Some(SaiObjectType::IngressPriorityGroup) => "IngressPriorityGroup".to_owned(),
        None => {
            let digits = decimal_string(type_id as u64);
            concat3("UNKNOWN(", digits.as_str(), ")")
        },
    }
}

/// How a report names statistic `stat_id` of objects of type `type_id`: its
/// C name without the `SAI_<TYPE>_STAT_` prefix; `UNKNOWN_<TYPE>_STAT_<id>`
/// for a statistic the type does not have; `INVALID_TYPE_<type>_STAT_<id>`
/// for an unknown type.
pub open spec fn spec_stat_label(type_id: u32, stat_id: u32) -> Seq<char> {
    match SaiObjectType::spec_from_u32(type_id) {
        Some(t) => match spec_stat_name(stat_id, t) {
            Some(name) => spec_remove_sai_prefix(name),
            None => spec_unknown_stat_prefix(t) + spec_decimal(stat_id as nat),
        },
        None => "INVALID_TYPE_"@ + spec_decimal(type_id as nat) + "_STAT_"@ + spec_decimal(stat_id as nat),
    }
}

/// Start of the label of a statistic that objects of type `t` do not have.
pub open spec fn spec_unknown_stat_prefix(t: SaiObjectType) -> Seq<char> {
    match t {
        SaiObjectType::Port => "UNKNOWN_PORT_STAT_"@,
        SaiObjectType::Queue => "UNKNOWN_QUEUE_STAT_"@,
        SaiObjectType::BufferPool => "UNKNOWN_BUFFER_POOL_STAT_"@,
        SaiObjectType::IngressPriorityGroup => "UNKNOWN_IPG_STAT_"@,
    }
}

/// The name of statistic `stat_id` of objects of type `type_id` in a report.
pub fn stat_id_to_string(type_id: u32, stat_id: u32) -> (r: String)
    ensures
        r@ == spec_stat_label(type_id, stat_id),
{
    let stat_digits = decimal_string(stat_id as u64);
    match SaiObjectType::from_u32(type_id) {
        Some(t) => match get_stat_name(stat_id, &t) {
            Ok(name) => remove_sai_prefix(name.as_str()),
            Err(_) => {
                let prefix = match t {
                    SaiObjectType::Port => "UNKNOWN_PORT_STAT_",
                    SaiObjectType::Queue => "UNKNOWN_QUEUE_STAT_",
                    SaiObjectType::BufferPool => "UNKNOWN_BUFFER_POOL_STAT_",
                    SaiObjectType::IngressPriorityGroup => "UNKNOWN_IPG_STAT_",
                };
                concat2(prefix, stat_digits.as_str())
            },
        },
        None => {
            let type_digits = decimal_string(type_id as u64);
            let head = concat3("INVALID_TYPE_", type_digits.as_str(), "_STAT_");
            concat2(head.as_str(), stat_digits.as_str())
        },
    }
}

} // verus!
