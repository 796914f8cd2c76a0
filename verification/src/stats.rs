//! Server statistics: per-language counters, plain counters, accumulated
//! durations, and the rows a status report is assembled from. Counters only
//! grow (saturating at their width) until they are explicitly zeroed.

use vstd::prelude::*;

use crate::kinds::CompilerKind;
use crate::kvmap::KvMap;

verus! {

/// A count one step further, stopping at the counter's width.
pub open spec fn spec_bump(c: u64) -> u64 {
    if c == u64::MAX {
        c
    } else {
        (c + 1) as u64
    }
}

fn bump(c: u64) -> (r: u64)
    ensures
        r == spec_bump(c),
{
    if c == u64::MAX {
        c
    } else {
        c + 1
    }
}

/// The sum of a count list, saturating at the counter's width.
pub open spec fn spec_sum_saturating(s: Seq<(String, u64)>) -> u64
    decreases s.len(),
{
    if s.len() == 0 {
        0
    } else {
        let rest = spec_sum_saturating(s.drop_last());
        if rest + s.last().1 > u64::MAX {
            u64::MAX
        } else {
            (rest + s.last().1) as u64
        }
    }
}

/// A counter partitioned by language label.
#[derive(Debug, Clone)]
pub struct PerLanguageCount {
    counts: KvMap<u64>,
}

impl PerLanguageCount {
    pub closed spec fn wf(&self) -> bool {
        self.counts.wf()
    }

    /// Language label to count.
    pub closed spec fn view(&self) -> Map<Seq<char>, u64> {
        self.counts@
    }

    /// The counts in first-seen order.
    pub closed spec fn entries(&self) -> Seq<(String, u64)> {
        self.counts.entries_seq()
    }

    pub fn new() -> (r: PerLanguageCount)
        ensures
            r.wf(),
            r@ == Map::<Seq<char>, u64>::empty(),
            r.entries() == Seq::<(String, u64)>::empty(),
    {
        PerLanguageCount { counts: KvMap::new() }
    }

    /// Count one more event for the language of this compiler kind.
    pub fn increment(&mut self, kind: &CompilerKind)
        requires
            old(self).wf(),
        ensures
            final(self).wf(),
            final(self)@ == old(self)@.insert(
                kind.spec_lang_kind(),
                spec_bump(
                    if old(self)@.contains_key(kind.spec_lang_kind()) {
                        old(self)@[kind.spec_lang_kind()]
                    } else {
                        0
                    },
                ),
            ),
    {
        let key = kind.lang_kind();
        let count = match self.counts.get(key.as_str()) {
            Option::Some(v) => bump(v),
            Option::None => 1,
        };
        self.counts.insert(key, count);
    }

    /// The total over all languages, saturating at the counter's width.
    pub fn all(&self) -> (r: u64)
        requires
            self.wf(),
        ensures
            r == spec_sum_saturating(self.entries()),
    {
        let n = self.counts.entry_count();
        let mut total: u64 = 0;
        let mut i: usize = 0;
        proof {
            assert(self.entries().take(0) =~= Seq::<(String, u64)>::empty());
        }
        while i < n
            invariant
                self.wf(),
                n == self.entries().len(),
                i <= n,
                total == spec_sum_saturating(self.entries().take(i as int)),
            decreases n - i,
        {
            let (_, v) = self.counts.entry_at(i);
            proof {
                assert(self.entries().take(i as int + 1).drop_last() =~= self.entries().take(
                    i as int,
                ));
                assert(self.entries().take(i as int + 1).last() == self.entries()[i as int]);
            }
            if total <= u64::MAX - v {
                total += v;
            } else {
                total = u64::MAX;
            }
            i += 1;
        }
        proof {
            assert(self.entries().take(n as int) =~= self.entries());
        }
        total
    }

    /// The count for one language label.
    pub fn get(&self, key: &str) -> (r: Option<u64>)
        requires
            self.wf(),
        ensures
            match r {
                Option::Some(v) => self@.contains_key(key@) && self@[key@] == v,
                Option::None => !self@.contains_key(key@),
            },
    {
        self.counts.get(key)
    }

    /// The number of languages seen.
    pub fn len(&self) -> (r: usize)
        requires
            self.wf(),
        ensures
            r == self.entries().len(),
    {
        self.counts.entry_count()
    }

    /// The label and count at one position of first-seen order.
    pub fn entry_at(&self, i: usize) -> (r: (String, u64))
        requires
            self.wf(),
            i < self.entries().len(),
        ensures
            r.0@ == self.entries()[i as int].0@,
            r.1 == self.entries()[i as int].1,
    {
        self.counts.entry_at(i)
    }
}

/// Statistics about the server. Durations are in nanoseconds.
#[derive(Debug, Clone)]
pub struct ServerStats {
    /// The count of client compile requests.
    pub compile_requests: u64,
    /// The count of client requests that used an unsupported compiler.
    pub requests_unsupported_compiler: u64,
    /// The count of client requests that were not compilation.
    pub requests_not_compile: u64,
    /// The count of client requests that were not cacheable.
    pub requests_not_cacheable: u64,
    /// The count of client requests that were executed.
    pub requests_executed: u64,
    /// The count of errors handling compile requests (per language).
    pub cache_errors: PerLanguageCount,
    /// The count of cache hits for handled compile requests (per language).
    pub cache_hits: PerLanguageCount,
    /// The count of cache misses for handled compile requests (per language).
    pub cache_misses: PerLanguageCount,
    /// The count of cache misses because the cache took too long to respond.
    pub cache_timeouts: u64,
    /// The count of errors reading cache entries.
    pub cache_read_errors: u64,
    /// The count of compilations which were successful but couldn't be cached.
    pub non_cacheable_compilations: u64,
    /// The count of compilations which forcibly ignored the cache.
    pub forced_recaches: u64,
    /// The count of errors writing to cache.
    pub cache_write_errors: u64,
    /// The number of successful cache writes.
    pub cache_writes: u64,
    /// The total time spent writing cache entries.
    pub cache_write_duration: u64,
    /// The total time spent reading cache hits.
    pub cache_read_hit_duration: u64,
    /// The total time spent reading cache misses.
    pub cache_read_miss_duration: u64,
    /// The count of compilation failures.
    pub compile_fails: u64,
    /// Counts of reasons why compiles were not cached.
    pub not_cached: KvMap<u64>,
    /// The count of compilations that were successfully distributed.
    pub dist_compiles: u64,
    /// The count of compilations that were distributed but failed and had to
    /// be re-run locally.
    pub dist_errors: u64,
}

impl ServerStats {
    pub open spec fn wf(&self) -> bool {
        &&& self.cache_errors.wf()
        &&& self.cache_hits.wf()
        &&& self.cache_misses.wf()
        &&& self.not_cached.wf()
    }

    /// Are all counters at zero and all tables empty?
    pub open spec fn is_zeroed(&self) -> bool {
        &&& self.compile_requests == 0
        &&& self.requests_unsupported_compiler == 0
        &&& self.requests_not_compile == 0
        &&& self.requests_not_cacheable == 0
        &&& self.requests_executed == 0
        &&& self.cache_errors@ == Map::<Seq<char>, u64>::empty()
        &&& self.cache_hits@ == Map::<Seq<char>, u64>::empty()
        &&& self.cache_misses@ == Map::<Seq<char>, u64>::empty()
        &&& self.cache_timeouts == 0
        &&& self.cache_read_errors == 0
        &&& self.non_cacheable_compilations == 0
        &&& self.forced_recaches == 0
        &&& self.cache_write_errors == 0
        &&& self.cache_writes == 0
        &&& self.cache_write_duration == 0
        &&& self.cache_read_hit_duration == 0
        &&& self.cache_read_miss_duration == 0
        &&& self.compile_fails == 0
        &&& self.not_cached@ == Map::<Seq<char>, u64>::empty()
        &&& self.dist_compiles == 0
        &&& self.dist_errors == 0
    }
}

impl Default for ServerStats {
    /// Everything starts at zero; `ZeroStats` resets to this.
    fn default() -> (r: ServerStats)
        ensures
            r.wf(),
            r.is_zeroed(),
    {
        ServerStats {
            compile_requests: 0,
            requests_unsupported_compiler: 0,
            requests_not_compile: 0,
            requests_not_cacheable: 0,
            requests_executed: 0,
            cache_errors: PerLanguageCount::new(),
            cache_hits: PerLanguageCount::new(),
            cache_misses: PerLanguageCount::new(),
            cache_timeouts: 0,
            cache_read_errors: 0,
            non_cacheable_compilations: 0,
            forced_recaches: 0,
            cache_write_errors: 0,
            cache_writes: 0,
            cache_write_duration: 0,
            cache_read_hit_duration: 0,
            cache_read_miss_duration: 0,
            compile_fails: 0,
            not_cached: KvMap::new(),
            dist_compiles: 0,
            dist_errors: 0,
        }
    }
}

/// The value of one report row: a plain count, or an average duration in
/// nanoseconds.
#[derive(Debug, PartialEq, Eq, Structural, Clone, Copy)]
pub enum StatValue {
    Count(u64),
    AverageDuration(u64),
}

/// One row of the status report.
#[derive(Debug, Clone)]
pub struct StatRow {
    pub name: String,
    pub value: StatValue,
}

/// An average, zero when nothing was counted.
pub open spec fn spec_avg(total: u64, count: u64) -> u64 {
    if count > 0 {
        total / count
    } else {
        0
    }
}

/// The label of a per-language breakdown row.
pub open spec fn spec_lang_label(name: Seq<char>, lang: Seq<char>) -> Seq<char> {
    name + " ("@ + lang + ")"@
}

/// What one row says: its label and its value.
pub open spec fn spec_row_view(row: StatRow) -> (Seq<char>, StatValue) {
    (row.name@, row.value)
}

/// What a row list says, row by row.
pub open spec fn spec_rows_view(rows: Seq<StatRow>) -> Seq<(Seq<char>, StatValue)> {
    rows.map_values(|row: StatRow| spec_row_view(row))
}

/// A counter's rows: the total over all languages, then one row per language
/// in first-seen order.
pub open spec fn spec_lang_rows(name: Seq<char>, entries: Seq<(String, u64)>) -> Seq<
    (Seq<char>, StatValue),
> {
    seq![(name, StatValue::Count(spec_sum_saturating(entries)))] + entries.map_values(
        |e: (String, u64)| (spec_lang_label(name, e.0@), StatValue::Count(e.1)),
    )
}

/// Every row of the status report, in report order.
pub open spec fn spec_stat_rows(s: ServerStats) -> Seq<(Seq<char>, StatValue)> {
    seq![
        ("Compile requests"@, StatValue::Count(s.compile_requests)),
        ("Compile requests executed"@, StatValue::Count(s.requests_executed)),
    ] + spec_lang_rows("Cache hits"@, s.cache_hits.entries()) + spec_lang_rows(
        "Cache misses"@,
        s.cache_misses.entries(),
    ) + seq![
        ("Cache timeouts"@, StatValue::Count(s.cache_timeouts)),
        ("Cache read errors"@, StatValue::Count(s.cache_read_errors)),
        ("Forced recaches"@, StatValue::Count(s.forced_recaches)),
        ("Cache write errors"@, StatValue::Count(s.cache_write_errors)),
        ("Compilation failures"@, StatValue::Count(s.compile_fails)),
    ] + spec_lang_rows("Cache errors"@, s.cache_errors.entries()) + seq![
        ("Non-cacheable compilations"@, StatValue::Count(s.non_cacheable_compilations)),
        ("Non-cacheable calls"@, StatValue::Count(s.requests_not_cacheable)),
        ("Non-compilation calls"@, StatValue::Count(s.requests_not_compile)),
        ("Unsupported compiler calls"@, StatValue::Count(s.requests_unsupported_compiler)),
        ("Successful distributed compilations"@, StatValue::Count(s.dist_compiles)),
        ("Failed distributed compilations"@, StatValue::Count(s.dist_errors)),
        (
            "Average cache write"@,
            StatValue::AverageDuration(spec_avg(s.cache_write_duration, s.cache_writes)),
        ),
        (
            "Average cache read miss"@,
            StatValue::AverageDuration(
                spec_avg(s.cache_read_miss_duration, spec_sum_saturating(s.cache_misses.entries())),
            ),
        ),
        (
            "Average cache read hit"@,
            StatValue::AverageDuration(
                spec_avg(s.cache_read_hit_duration, spec_sum_saturating(s.cache_hits.entries())),
            ),
        ),
    ]
}

fn avg(total: u64, count: u64) -> (r: u64)
    ensures
        r == spec_avg(total, count),
{
    if count > 0 {
        total / count
    } else {
        0
    }
}

/// Build the label of a per-language breakdown row.
fn lang_label(name: &str, lang: &str) -> (r: String)
    ensures
        r@ == spec_lang_label(name@, lang@),
{
    let mut r = String::from_str(name);
    r.append(" (");
    r.append(lang);
    r.append(")");
    r
}

/// Append one row.
fn push_row(out: &mut Vec<StatRow>, name: &str, value: StatValue)
    ensures
        spec_rows_view(final(out)@) == spec_rows_view(old(out)@) + seq![(name@, value)],
{
    let ghost before = out@;
    out.push(StatRow { name: String::from_str(name), value });
    proof {
        let mapped = spec_rows_view(out@);
        let rhs = spec_rows_view(before) + seq![(name@, value)];
        assert forall|j: int| 0 <= j < mapped.len() implies mapped[j] == rhs[j] by {
            if j < before.len() {
                assert(out@[j] == before[j]);
            }
        }
        assert(mapped =~= rhs);
    }
}

/// Append one per-language counter's rows: its total, then one row per
/// language in first-seen order.
fn lang_rows(out: &mut Vec<StatRow>, name: &str, counter: &PerLanguageCount)
    requires
        counter.wf(),
    ensures
        spec_rows_view(final(out)@) == spec_rows_view(old(out)@) + spec_lang_rows(
            name@,
            counter.entries(),
        ),
{
    let ghost target = spec_lang_rows(name@, counter.entries());
    let ghost base = spec_rows_view(old(out)@);
    let total = counter.all();
    push_row(out, name, StatValue::Count(total));
    proof {
        assert(spec_rows_view(out@) =~= base + target.take(1));
    }
    let n = counter.len();
    let mut i: usize = 0;
    while i < n
        invariant
            counter.wf(),
            n == counter.entries().len(),
            i <= n,
            target == spec_lang_rows(name@, counter.entries()),
            base == spec_rows_view(old(out)@),
            target.len() == n + 1,
            spec_rows_view(out@) == base + target.take(i as int + 1),
        decreases n - i,
    {
        let (lang, count) = counter.entry_at(i);
        let ghost before_push = out@;
        out.push(StatRow { name: lang_label(name, lang.as_str()), value: StatValue::Count(count) });
        proof {
            assert(target[i as int + 1] == (
                spec_lang_label(name@, counter.entries()[i as int].0@),
                StatValue::Count(counter.entries()[i as int].1),
            ));
            let mapped = spec_rows_view(out@);
            let prev = spec_rows_view(before_push);
            let rhs = base + target.take(i as int + 2);
            assert(prev == base + target.take(i as int + 1));
            assert(out@.len() == before_push.len() + 1);
            assert(prev.len() == before_push.len());
            assert(mapped.len() == out@.len());
            assert(target.take(i as int + 2).len() == i + 2);
            assert(mapped.len() == rhs.len());
            assert forall|j: int| 0 <= j < mapped.len() implies mapped[j] == rhs[j] by {
                assert(mapped[j] == spec_row_view(out@[j]));
                if j < before_push.len() {
                    assert(out@[j] == before_push[j]);
                    assert(prev[j] == spec_row_view(before_push[j]));
                    assert(rhs[j] == prev[j]);
                } else {
                    assert(out@[j] == out@.last());
                    assert(rhs[j] == target[i as int + 1]);
                }
            }
            assert(mapped =~= rhs);
        }
        i += 1;
    }
    proof {
        assert(target.take(n as int + 1) =~= target);
    }
}

impl ServerStats {
    /// Assemble the status report's rows, in report order: the plain counters,
    /// each per-language counter with its breakdown, and the three average
    /// durations, an average being zero when nothing was counted.
    pub fn stat_rows(&self) -> (r: Vec<StatRow>)
        requires
            self.wf(),
        ensures
            spec_rows_view(r@) == spec_stat_rows(*self),
    {
        let mut r: Vec<StatRow> = Vec::new();
        proof {
            assert(spec_rows_view(r@) =~= Seq::<(Seq<char>, StatValue)>::empty());
        }
        push_row(&mut r, "Compile requests", StatValue::Count(self.compile_requests));
        push_row(&mut r, "Compile requests executed", StatValue::Count(self.requests_executed));
        lang_rows(&mut r, "Cache hits", &self.cache_hits);
        lang_rows(&mut r, "Cache misses", &self.cache_misses);
        push_row(&mut r, "Cache timeouts", StatValue::Count(self.cache_timeouts));
        push_row(&mut r, "Cache read errors", StatValue::Count(self.cache_read_errors));
        push_row(&mut r, "Forced recaches", StatValue::Count(self.forced_recaches));
        push_row(&mut r, "Cache write errors", StatValue::Count(self.cache_write_errors));
        push_row(&mut r, "Compilation failures", StatValue::Count(self.compile_fails));
        lang_rows(&mut r, "Cache errors", &self.cache_errors);
        push_row(
            &mut r,
            "Non-cacheable compilations",
            StatValue::Count(self.non_cacheable_compilations),
        );
        push_row(&mut r, "Non-cacheable calls", StatValue::Count(self.requests_not_cacheable));
        push_row(&mut r, "Non-compilation calls", StatValue::Count(self.requests_not_compile));
        push_row(
            &mut r,
            "Unsupported compiler calls",
            StatValue::Count(self.requests_unsupported_compiler),
        );
        push_row(
            &mut r,
            "Successful distributed compilations",
            StatValue::Count(self.dist_compiles),
        );
        push_row(&mut r, "Failed distributed compilations", StatValue::Count(self.dist_errors));
        push_row(
            &mut r,
            "Average cache write",
            StatValue::AverageDuration(avg(self.cache_write_duration, self.cache_writes)),
        );
        let misses = self.cache_misses.all();
        push_row(
            &mut r,
            "Average cache read miss",
            StatValue::AverageDuration(avg(self.cache_read_miss_duration, misses)),
        );
        let hits = self.cache_hits.all();
        push_row(
            &mut r,
            "Average cache read hit",
            StatValue::AverageDuration(avg(self.cache_read_hit_duration, hits)),
        );
        proof {
            assert(spec_rows_view(r@) =~= spec_stat_rows(*self));
        }
        r
    }

    /// The reasons compiles were not cached, with their counts, in first-seen
    /// order.
    pub fn not_cached_entries(&self) -> (r: Vec<(String, u64)>)
        requires
            self.wf(),
        ensures
            r@.len() == self.not_cached.entries_seq().len(),
            forall|i: int|
                0 <= i < r@.len() ==> (#[trigger] r@[i]).0@ == self.not_cached.entries_seq()[i].0@
                    && r@[i].1 == self.not_cached.entries_seq()[i].1,
    {
        let n = self.not_cached.entry_count();
        let mut r: Vec<(String, u64)> = Vec::new();
        let mut i: usize = 0;
        while i < n
            invariant
                self.wf(),
                n == self.not_cached.entries_seq().len(),
                i <= n,
                r@.len() == i,
                forall|j: int|
                    0 <= j < i ==> (#[trigger] r@[j]).0@ == self.not_cached.entries_seq()[j].0@
                        && r@[j].1 == self.not_cached.entries_seq()[j].1,
            decreases n - i,
        {
            r.push(self.not_cached.entry_at(i));
            i += 1;
        }
        r
    }
}

} // verus!

