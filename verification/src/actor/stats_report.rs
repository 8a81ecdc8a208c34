//! What a report of the statistics reporter lists.
//!
//! A report is a value: its header (number, counters, messages), then either
//! a notice that no data arrived yet, the counters in report order (limited
//! by the configuration), or a summary. Printing it is left to the caller.
use vstd::prelude::*;
use crate::actor::stats_reporter::{
    report_sorted, spec_sorted_keys, spec_stat_label, spec_type_label, stat_id_to_string, type_id_to_string,
    CounterInfo, CounterKey, StatsReporterConfig, StatsReporterState,
};
use crate::clock::{format_timestamp, spec_format_timestamp};
use crate::text::str_eq;

verus! {

/// One counter line of a detailed report.
#[derive(Debug, Clone, PartialEq)]
pub struct ReportEntry {
    /// SAI object type of the counter.
    pub type_id: u32,
    /// Whether this line opens the group of its type, under a heading.
    pub starts_group: bool,
    /// Name of the type, as the heading shows it.
    pub type_label: String,
    /// Position of the line in its group, from 1.
    pub index: usize,
    pub object_name: String,
    pub stat_id: u32,
    /// Name of the statistic without its `SAI_<TYPE>_STAT_` prefix.
    pub stat_name: String,
    /// Latest value of the counter.
    pub counter: u64,
    /// Readings of the counter in the current period.
    pub messages_in_period: u64,
    /// When the latest value was observed, as calendar text.
    pub last_time: String,
}

impl ReportEntry {
    /// The counter this line is about.
    pub open spec fn key(&self) -> (Seq<char>, u32, u32) {
        (self.object_name@, self.type_id, self.stat_id)
    }
}

/// The body of a report.
#[derive(Debug, Clone, PartialEq)]
pub enum ReportBody {
    /// No counter has been seen yet.
    NoData,
    /// Counters in report order, grouped by type.
    Detailed {
        entries: Vec<ReportEntry>,
        /// The type whose heading is shown with no line under it (when the
        /// limit allows no line at all).
        heading_only: Option<u32>,
        /// How many counters the limit left out.
        more_counters: Option<usize>,
    },
    /// Aggregate figures.
    Summary {
        /// Sum of the latest values, modulo 2^64.
        total_counter_value: u64,
        unique_types: usize,
        unique_objects: usize,
        /// Readings in the current period, modulo 2^64.
        messages_in_period: u64,
    },
}

/// A report of the statistics reporter.
#[derive(Debug, Clone, PartialEq)]
pub struct CountersReport {
    pub report_number: u64,
    pub total_unique_counters: usize,
    pub total_messages_received: u64,
    pub body: ReportBody,
}

/// How many of `n` counters a report lists under the limit `max`.
pub open spec fn spec_shown(n: nat, max: Option<usize>) -> nat {
    match max {
        Some(m) => if m < n { m as nat } else { n },
        None => n,
    }
}

/// How many of `n` counters the limit `max` leaves out, if any.
pub open spec fn spec_more(n: nat, max: Option<usize>) -> Option<usize> {
    match max {
        Some(m) => if n > m { Some((n - m) as usize) } else { None },
        None => None,
    }
}

/// Line `e` shows counter `k`, given the latest values and the counts of
/// readings in the period.
pub open spec fn spec_entry_shows(
    e: ReportEntry,
    k: (Seq<char>, u32, u32),
    latest: Map<(Seq<char>, u32, u32), CounterInfo>,
    counts: Map<(Seq<char>, u32, u32), u64>,
) -> bool {
    &&& e.key() == k
    &&& e.type_label@ == spec_type_label(k.1)
    &&& e.stat_name@ == spec_stat_label(k.1, k.2)
    &&& e.counter == latest[k].counter
    &&& e.messages_in_period == (if counts.dom().contains(k) { counts[k] } else { 0 })
    &&& e.last_time@ == spec_format_timestamp(latest[k].last_observation_time)
}

/// Lines `es` show the counters `keys`, one each and in that order, with a
/// new group wherever the type changes and positions counted within groups.
pub open spec fn spec_entries_show(
    es: Seq<ReportEntry>,
    keys: Seq<(Seq<char>, u32, u32)>,
    latest: Map<(Seq<char>, u32, u32), CounterInfo>,
    counts: Map<(Seq<char>, u32, u32), u64>,
) -> bool {
    &&& es.len() == keys.len()
    &&& forall|i: int| 0 <= i < es.len() ==> spec_entry_shows(#[trigger] es[i], keys[i], latest, counts)
    &&& forall|i: int| 0 <= i < es.len() ==> (#[trigger] es[i]).starts_group == (i == 0 || keys[i - 1].1 != keys[i].1)
    &&& forall|i: int|
        0 <= i < es.len() ==> (#[trigger] es[i]).index == (if es[i].starts_group { 1 } else { es[i - 1].index + 1 })
}

/// Sum of `vals` modulo 2^64.
pub open spec fn spec_wrapping_total(vals: Seq<u64>) -> u64
    decreases vals.len(),
{
    if vals.len() == 0 {
        0
    } else {
        vstd::wrapping::u64_specs::wrapping_add(spec_wrapping_total(vals.drop_last()), vals.last())
    }
}

/// Whether `x` is among `v`.
fn u32_listed(v: &Vec<u32>, x: u32) -> (r: bool)
    ensures
        r == v@.contains(x),
{
    let mut i: usize = 0;
    while i < v.len()
        invariant
            i <= v@.len(),
            forall|j: int| 0 <= j < i ==> v@[j] != x,
        decreases v@.len() - i,
    {
        if v[i] == x {
            return true;
        }
        i = i + 1;
    }
    false
}

/// Whether a text equal to `x` is among `v`.
fn name_listed(v: &Vec<String>, x: &String) -> (r: bool)
    ensures
        r == v@.map_values(|s: String| s@).contains(x@),
{
    let mut i: usize = 0;
    while i < v.len()
        invariant
            i <= v@.len(),
            forall|j: int| 0 <= j < i ==> v@[j]@ != x@,
        decreases v@.len() - i,
    {
        if str_eq(v[i].as_str(), x.as_str()) {
            assert(v@.map_values(|s: String| s@)[i as int] == x@);
            return true;
        }
        i = i + 1;
    }
    false
}

/// A detailed report of state `s` under the limit `max`: the first counters
/// in report order, as many as the limit allows; the type whose heading
/// stands alone when the limit allows no line; how many were left out.
pub open spec fn spec_detailed_report(
    s: StatsReporterState,
    max: Option<usize>,
    entries: Seq<ReportEntry>,
    heading_only: Option<u32>,
    more_counters: Option<usize>,
) -> bool {
    let sorted = spec_sorted_keys(s.latest_counters.map().dom());
    let n = s.latest_counters.entries().len();
    let shown = spec_shown(n, max);
    &&& spec_entries_show(entries, sorted.take(shown as int), s.latest_counters.map(), s.messages_per_counter.map())
    &&& heading_only == (if shown == 0 && n > 0 { Some(sorted[0].1) } else { None::<u32> })
    &&& more_counters == spec_more(n, max)
}

/// The figures of a summary report of state `s`: the sum of the latest
/// values, the number of distinct types and of distinct objects, and the
/// number of readings in the period (sums modulo 2^64).
pub open spec fn spec_summary_report(
    s: StatsReporterState,
    total_counter_value: u64,
    unique_types: usize,
    unique_objects: usize,
    messages_in_period: u64,
) -> bool {
    &&& total_counter_value == spec_wrapping_total(
        s.latest_counters.entries().map_values(|e: ((Seq<char>, u32, u32), CounterInfo)| e.1.counter),
    )
    &&& unique_types == s.latest_counters.map().dom().map(|k: (Seq<char>, u32, u32)| k.1).len()
    &&& unique_objects == s.latest_counters.map().dom().map(|k: (Seq<char>, u32, u32)| k.0).len()
    &&& messages_in_period == spec_wrapping_total(
        s.messages_per_counter.entries().map_values(|e: ((Seq<char>, u32, u32), u64)| e.1),
    )
}

impl StatsReporterState {
    /// The lines of a detailed report: the first counters in report order, as
    /// many as `max` allows; the type whose heading stands alone when the
    /// limit allows no line; and how many counters were left out.
    pub fn detailed_entries(&self, max: Option<usize>) -> (r: (Vec<ReportEntry>, Option<u32>, Option<usize>))
        requires
            self.wf(),
        ensures
            spec_detailed_report(*self, max, r.0@, r.1, r.2),
    {
        let keys = self.sorted_counter_keys();
        let ghost sorted = spec_sorted_keys(self.latest_counters.map().dom());
        let ghost latest = self.latest_counters.map();
        let ghost counts = self.messages_per_counter.map();
        let n = keys.len();
        let shown = match max {
            Some(m) => if m < n { m } else { n },
            None => n,
        };
        let mut entries: Vec<ReportEntry> = Vec::new();
        let mut i: usize = 0;
        while i < shown
            invariant
                self.wf(),
                latest == self.latest_counters.map(),
                counts == self.messages_per_counter.map(),
                keys@.map_values(|k: CounterKey| k@) == sorted,
                sorted.to_set() == latest.dom(),
                shown <= n,
                n == keys@.len(),
                i <= shown,
                entries@.len() == i,
                forall|j: int| 0 <= j < i ==> (#[trigger] entries@[j]).index <= j + 1,
                spec_entries_show(entries@, sorted.take(i as int), latest, counts),
            decreases shown - i,
        {
            let k = &keys[i];
            assert(sorted[i as int] == k@);
            let starts = i == 0 || keys[i - 1].type_id != k.type_id;
            let index: usize = if starts {
                1
            } else {
                entries[i - 1].index + 1
            };
            assert(sorted.to_set().contains(k@));
            let info = self.latest_counters.get(k).unwrap();
            let msgs: u64 = match self.messages_per_counter.get(k) {
                Some(c) => *c,
                None => 0,
            };
            let e = ReportEntry {
                type_id: k.type_id,
                starts_group: starts,
                type_label: type_id_to_string(k.type_id),
                index,
                object_name: k.object_name.clone(),
                stat_id: k.stat_id,
                stat_name: stat_id_to_string(k.type_id, k.stat_id),
                counter: info.counter,
                messages_in_period: msgs,
                last_time: format_timestamp(info.last_observation_time),
            };
            let ghost before = entries@;
            entries.push(e);
            proof {
                let t = sorted.take(i + 1);
                assert(t[i as int] == k@);
                assert forall|j: int| 0 <= j < entries@.len() implies spec_entry_shows(#[trigger] entries@[j], t[j], latest, counts) by {
                    if j < i {
                        assert(entries@[j] == before[j]);
                        assert(t[j] == sorted.take(i as int)[j]);
                    }
                }
                assert forall|j: int| 0 <= j < entries@.len() implies (#[trigger] entries@[j]).starts_group == (j == 0 || t[j - 1].1 != t[j].1) by {
                    if j < i {
                        assert(entries@[j] == before[j]);
                        assert(t[j] == sorted.take(i as int)[j]);
                        if j > 0 {
                            assert(t[j - 1] == sorted.take(i as int)[j - 1]);
                        }
                    } else if j > 0 {
                        assert(keys@.map_values(|k: CounterKey| k@)[j - 1] == keys@[j - 1]@);
                    }
                }
                assert forall|j: int| 0 <= j < entries@.len() implies (#[trigger] entries@[j]).index == (if entries@[j].starts_group { 1 } else { entries@[j - 1].index + 1 }) by {
                    if j < i {
                        assert(entries@[j] == before[j]);
                        if j > 0 {
                            assert(entries@[j - 1] == before[j - 1]);
                        }
                    }
                }
                assert(spec_entries_show(entries@, t, latest, counts));
            }
            i = i + 1;
        }
        let heading_only = if shown == 0 && n > 0 {
            assert(sorted[0] == keys@[0]@);
            Some(keys[0].type_id)
        } else {
            None
        };
        let more = match max {
            Some(m) => if n > m { Some(n - m) } else { None },
            None => None,
        };
        (entries, heading_only, more)
    }

    /// The figures of a summary report.
    pub fn summary_figures(&self) -> (r: (u64, usize, usize, u64))
        requires
            self.wf(),
        ensures
            spec_summary_report(*self, r.0, r.1, r.2, r.3),
    {
        let n = self.latest_counters.len();
        let ghost ks = self.latest_counters.keys();
        let ghost vals = self.latest_counters.entries().map_values(
            |e: ((Seq<char>, u32, u32), CounterInfo)| e.1.counter,
        );
        let mut total: u64 = 0;
        let mut types: Vec<u32> = Vec::new();
        let mut names: Vec<String> = Vec::new();
        let mut i: usize = 0;
        assert(vals.take(0) =~= Seq::<u64>::empty());
        assert(ks.take(0).map_values(|k: (Seq<char>, u32, u32)| k.1).to_set() =~= types@.to_set());
        assert(ks.take(0).map_values(|k: (Seq<char>, u32, u32)| k.0).to_set() =~= names@.map_values(|s: String| s@).to_set());
        while i < n
            invariant
                self.wf(),
                n == self.latest_counters.entries().len(),
                ks == self.latest_counters.keys(),
                vals == self.latest_counters.entries().map_values(
                    |e: ((Seq<char>, u32, u32), CounterInfo)| e.1.counter,
                ),
                i <= n,
                total == spec_wrapping_total(vals.take(i as int)),
                types@.no_duplicates(),
                types@.to_set() == ks.take(i as int).map_values(|k: (Seq<char>, u32, u32)| k.1).to_set(),
                names@.map_values(|s: String| s@).no_duplicates(),
                names@.map_values(|s: String| s@).to_set() == ks.take(i as int).map_values(
                    |k: (Seq<char>, u32, u32)| k.0,
                ).to_set(),
            decreases n - i,
        {
            let key = self.latest_counters.key_at(i);
            let info = self.latest_counters.value_at(i);
            assert(vals.take(i + 1).drop_last() =~= vals.take(i as int));
            assert(vals.take(i + 1).last() == info.counter);
            total = total.wrapping_add(info.counter);
            let ghost t0 = ks.take(i as int);
            let ghost t1 = ks.take(i + 1);
            assert(t1 =~= t0.push(key@));
            assert(t1.map_values(|k: (Seq<char>, u32, u32)| k.1) =~= t0.map_values(|k: (Seq<char>, u32, u32)| k.1).push(key.type_id));
            assert(t1.map_values(|k: (Seq<char>, u32, u32)| k.0) =~= t0.map_values(|k: (Seq<char>, u32, u32)| k.0).push(key.object_name@));
            let ghost types0 = types@;
            if !u32_listed(&types, key.type_id) {
                types.push(key.type_id);
                assert(types@.to_set() =~= types0.to_set().insert(key.type_id)) by {
                    assert forall|x: u32| types@.to_set().contains(x) implies types0.to_set().insert(key.type_id).contains(x) by {
                        let j = choose|j: int| 0 <= j < types@.len() && types@[j] == x;
                        if j < types0.len() {
                            assert(types0[j] == x);
                        }
                    }
                    assert forall|x: u32| types0.to_set().insert(key.type_id).contains(x) implies types@.to_set().contains(x) by {
                        if x == key.type_id {
                            assert(types@[types0.len() as int] == x);
                        } else {
                            let j = choose|j: int| 0 <= j < types0.len() && types0[j] == x;
                            assert(types@[j] == x);
                        }
                    }
                }
            } else {
                assert(types0.to_set().insert(key.type_id) =~= types0.to_set());
            }
            assert(t1.map_values(|k: (Seq<char>, u32, u32)| k.1).to_set() =~= t0.map_values(|k: (Seq<char>, u32, u32)| k.1).to_set().insert(key.type_id)) by {
                t0.map_values(|k: (Seq<char>, u32, u32)| k.1).lemma_push_to_set_commute(key.type_id);
            }
            let ghost names0 = names@.map_values(|s: String| s@);
            if !name_listed(&names, &key.object_name) {
                names.push(key.object_name.clone());
                let ghost nv = names@.map_values(|s: String| s@);
                assert(nv =~= names0.push(key.object_name@));
                assert(nv.to_set() =~= names0.to_set().insert(key.object_name@)) by {
                    names0.lemma_push_to_set_commute(key.object_name@);
                }
            } else {
                assert(names0.to_set().insert(key.object_name@) =~= names0.to_set());
            }
            assert(t1.map_values(|k: (Seq<char>, u32, u32)| k.0).to_set() =~= t0.map_values(|k: (Seq<char>, u32, u32)| k.0).to_set().insert(key.object_name@)) by {
                t0.map_values(|k: (Seq<char>, u32, u32)| k.0).lemma_push_to_set_commute(key.object_name@);
            }
            i = i + 1;
        }
        proof {
            assert(ks.take(n as int) =~= ks);
            assert(vals.take(n as int) =~= vals);
            self.latest_counters.lemma_keys_domain();
            ks.lemma_to_set_map_commutes(|k: (Seq<char>, u32, u32)| k.1);
            ks.lemma_to_set_map_commutes(|k: (Seq<char>, u32, u32)| k.0);
            types@.unique_seq_to_set();
            names@.map_values(|s: String| s@).unique_seq_to_set();
        }
        let m = self.messages_per_counter.len();
        let ghost cvals = self.messages_per_counter.entries().map_values(|e: ((Seq<char>, u32, u32), u64)| e.1);
        let mut msgs: u64 = 0;
        let mut j: usize = 0;
        assert(cvals.take(0) =~= Seq::<u64>::empty());
        while j < m
            invariant
                m == self.messages_per_counter.entries().len(),
                cvals == self.messages_per_counter.entries().map_values(|e: ((Seq<char>, u32, u32), u64)| e.1),
                j <= m,
                msgs == spec_wrapping_total(cvals.take(j as int)),
            decreases m - j,
        {
            let c = *self.messages_per_counter.value_at(j);
            assert(cvals.take(j + 1).drop_last() =~= cvals.take(j as int));
            msgs = msgs.wrapping_add(c);
            j = j + 1;
        }
        assert(cvals.take(m as int) =~= cvals);
        (total, types.len(), names.len(), msgs)
    }

    /// Makes the next report and starts a new period: the report number goes
    /// up by one, the report is built from the state as it is, and the
    /// per-period reading counts are cleared. Without counters the report
    /// says so; otherwise it is detailed or a summary, as configured.
    pub fn generate_report(&mut self, config: &StatsReporterConfig) -> (r: CountersReport)
        requires
            old(self).wf(),
            old(self).reports_generated < u64::MAX,
        ensures
            final(self).wf(),
            final(self).reports_generated == old(self).reports_generated + 1,
            final(self).total_messages_received == old(self).total_messages_received,
            final(self).latest_counters == old(self).latest_counters,
            final(self).messages_per_counter.map() == Map::<(Seq<char>, u32, u32), u64>::empty(),
            r.report_number == final(self).reports_generated,
            r.total_unique_counters == old(self).latest_counters.entries().len(),
            r.total_messages_received == old(self).total_messages_received,
            old(self).latest_counters.entries().len() == 0 ==> r.body is NoData,
            old(self).latest_counters.entries().len() > 0 && config.detailed ==> (match r.body {
                ReportBody::Detailed { entries, heading_only, more_counters } => spec_detailed_report(
                    *old(self),
                    config.max_stats_per_report,
                    entries@,
                    heading_only,
                    more_counters,
                ),
                _ => false,
            }),
            old(self).latest_counters.entries().len() > 0 && !config.detailed ==> (match r.body {
                ReportBody::Summary { total_counter_value, unique_types, unique_objects, messages_in_period } =>
                    spec_summary_report(*old(self), total_counter_value, unique_types, unique_objects, messages_in_period),
                _ => false,
            }),
    {
        self.reports_generated = self.reports_generated + 1;
        let n = self.latest_counters.len();
        let body = if n == 0 {
            ReportBody::NoData
        } else if config.detailed {
            let (entries, heading_only, more_counters) = self.detailed_entries(config.max_stats_per_report);
            ReportBody::Detailed { entries, heading_only, more_counters }
        } else {
            let (total_counter_value, unique_types, unique_objects, messages_in_period) = self.summary_figures();
            ReportBody::Summary { total_counter_value, unique_types, unique_objects, messages_in_period }
        };
        self.messages_per_counter.clear();
        CountersReport {
            report_number: self.reports_generated,
            total_unique_counters: n,
            total_messages_received: self.total_messages_received,
            body,
        }
    }
}

} // verus!
