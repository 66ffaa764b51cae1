//! Benchmark reports: their structure, the figures read from each
//! benchmark's evidence text, and the records built from them.

use vstd::prelude::*;

use crate::decimal::{decimal_of, parse_decimal, Decimal};
use crate::model::{record_id, Benchmark, BenchmarkView};
use crate::text::{
    chars_of,
    find_first,
    find_from,
    lemma_find_first_found,
    occurs_at,
    trim,
    trim_bounds,
};

verus! {

/// A whole benchmark report, as the runner writes it.
#[derive(Clone, Debug)]
pub struct WholeReport {
    pub metadata: Metadata,
    pub includes: Vec<String>,
    pub excludes: Vec<String>,
    pub reports: Reports,
    pub stats: Stats,
}

/// The per-benchmark entries of a report.
#[derive(Clone, Debug)]
pub struct Reports {
    pub bench: Vec<SingleReport>,
}

/// One entry of a report.
#[derive(Clone, Debug)]
pub struct SingleReport {
    pub description: String,
    pub elements: Element,
}

/// The benchmark that an entry describes.
#[derive(Clone, Debug)]
pub struct Element {
    pub bench: Bench,
}

/// One benchmark and the evidence that its run left.
#[derive(Clone, Debug)]
pub struct Bench {
    pub name: String,
    pub description: String,
    pub elements: Vec<String>,
    pub evidence: Evidence,
    pub stats: Stat,
    pub duration: usize,
}

/// The output that a benchmark run printed.
#[derive(Clone, Debug)]
pub struct Evidence {
    pub stdout: String,
    pub stderr: String,
}

/// Identity of the benchmarked project.
#[derive(Clone, Debug)]
pub struct Metadata {
    pub allocator: String,
    pub repository: String,
    pub description: String,
    pub homepage: String,
    pub name: String,
    pub authors: String,
    pub librdkafka: String,
    pub version: String,
}

/// Counters of a report, by kind of test.
#[derive(Clone, Copy, Debug)]
pub struct Stats {
    pub command: Stat,
    pub all: Stat,
    pub integration: Stat,
    pub unit: Stat,
    pub bench: Stat,
}

/// Pass, fail, skip and assertion counters.
#[derive(Clone, Copy, Debug)]
pub struct Stat {
    pub pass: u16,
    pub fail: u16,
    pub skip: u16,
    pub asserts: u16,
}

/// Marks the data throughput in evidence text.
pub const DATA_MARKER: &'static str = "Throughput   (data):";

/// Follows the data throughput.
pub const DATA_UNIT: &'static str = "MB/s";

/// Marks the event rate in evidence text.
pub const EVENTS_MARKER: &'static str = "Throughput (events):";

/// Follows the event rate.
pub const EVENTS_UNIT: &'static str = "k events/s";

/// Ends the histogram block of evidence text.
pub const HIST_END: &'static str = "\n\n\n";

/// The text between the first `marker` in `s` and the first `unit` after
/// it, without surrounding white space.
pub open spec fn figure_text(s: Seq<char>, marker: Seq<char>, unit: Seq<char>) -> Option<Seq<char>> {
    match find_first(s, marker, 0) {
        None => None,
        Some(m) => match find_first(s, unit, m + marker.len()) {
            None => None,
            Some(e) => Some(trim(s.subrange(m + marker.len(), e))),
        },
    }
}

/// The figure written between `marker` and `unit` in `s`, if both are
/// there and a numeral stands between them.
pub open spec fn figure_of(s: Seq<char>, marker: Seq<char>, unit: Seq<char>) -> Option<Decimal> {
    match figure_text(s, marker, unit) {
        None => None,
        Some(t) => decimal_of(t),
    }
}

/// The data throughput, in MB/s, that evidence text `s` reports.
pub open spec fn throughput_of(s: Seq<char>) -> Option<Decimal> {
    figure_of(s, DATA_MARKER@, DATA_UNIT@)
}

/// The event rate, in thousands of events per second, that `s` reports.
pub open spec fn events_of(s: Seq<char>) -> Option<Decimal> {
    figure_of(s, EVENTS_MARKER@, EVENTS_UNIT@)
}

/// The histogram block of `s`: all that precedes the first three line
/// breaks in a row.
pub open spec fn hist_of(s: Seq<char>) -> Option<Seq<char>> {
    match find_first(s, HIST_END@, 0) {
        None => None,
        Some(e) => Some(s.take(e)),
    }
}

/// The view of an optional string slice.
pub open spec fn opt_view(r: Option<&str>) -> Option<Seq<char>> {
    match r {
        Some(t) => Some(t@),
        None => None,
    }
}

/// A figure, or zero where none could be read.
pub open spec fn or_zero(d: Option<Decimal>) -> Decimal {
    match d {
        Some(v) => v,
        None => Decimal::spec_zero(),
    }
}

/// A text, or the empty text where none could be read.
pub open spec fn or_empty(t: Option<Seq<char>>) -> Seq<char> {
    match t {
        Some(v) => v,
        None => Seq::empty(),
    }
}

/// The record of the benchmark `name`, whose evidence is `stdout`, in the run
/// of `commit_hash` created at `created_at`.
pub open spec fn record_of(
    commit_hash: Seq<char>,
    created_at: Seq<char>,
    name: Seq<char>,
    stdout: Seq<char>,
) -> BenchmarkView {
    BenchmarkView {
        id: record_id(commit_hash, name, created_at),
        created_at,
        commit_hash,
        bench_name: name,
        mbps: or_zero(throughput_of(stdout)),
        eps: or_zero(events_of(stdout)),
        hist: or_empty(hist_of(stdout)),
    }
}

/// The records of a run: one per entry of `report`, in order.
pub open spec fn records_of(report: WholeReport, commit_hash: Seq<char>, created_at: Seq<char>) -> Seq<
    BenchmarkView,
> {
    report.reports.bench@.map_values(
        |e: SingleReport|
            record_of(commit_hash, created_at, e.elements.bench.name@, e.elements.bench.evidence.stdout@),
    )
}

/// Whether `pat` occurs anywhere in `s`.
pub open spec fn contains(s: Seq<char>, pat: Seq<char>) -> bool {
    exists|i: int| occurs_at(s, pat, i)
}

/// The figures and the histogram are functions of the evidence text alone.
/// Text that lacks a figure's marker yields no such figure, and its record
/// holds zero for it; text that lacks the histogram's end yields no
/// histogram, and its record holds empty text for it.
pub proof fn lemma_extract_without_marker(
    s: Seq<char>,
    commit_hash: Seq<char>,
    created_at: Seq<char>,
    name: Seq<char>,
)
    ensures
        !contains(s, DATA_MARKER@) ==> throughput_of(s) is None && record_of(
            commit_hash,
            created_at,
            name,
            s,
        ).mbps == Decimal::spec_zero(),
        !contains(s, EVENTS_MARKER@) ==> events_of(s) is None && record_of(
            commit_hash,
            created_at,
            name,
            s,
        ).eps == Decimal::spec_zero(),
        !contains(s, HIST_END@) ==> hist_of(s) is None && record_of(
            commit_hash,
            created_at,
            name,
            s,
        ).hist == Seq::<char>::empty(),
{
    lemma_find_first_found(s, DATA_MARKER@, 0);
    lemma_find_first_found(s, EVENTS_MARKER@, 0);
    lemma_find_first_found(s, HIST_END@, 0);
}

/// The figure between `marker` and `unit` in `s`.
pub(crate) fn extract_figure(s: &str, marker: &str, unit: &str) -> (r: Option<Decimal>)
    ensures
        r == figure_of(s@, marker@, unit@),
{
    let cs = chars_of(s);
    let mk = chars_of(marker);
    let un = chars_of(unit);
    let m = match find_from(&cs, &mk, 0) {
        Some(m) => m,
        None => {
            return None;
        },
    };
    proof {
        lemma_find_first_found(cs@, mk@, 0);
    }
    assert(cs@.len() == cs.len());
    let start = m + mk.len();
    let e = match find_from(&cs, &un, start) {
        Some(e) => e,
        None => {
            return None;
        },
    };
    proof {
        lemma_find_first_found(cs@, un@, start as int);
    }
    let (a, b) = trim_bounds(&cs, start, e);
    parse_decimal(&cs, a, b)
}

/// The data throughput, in MB/s, that the evidence text reports.
pub fn extract_throughput(log_string: &str) -> (r: Option<Decimal>)
    ensures
        r == throughput_of(log_string@),
{
    extract_figure(log_string, DATA_MARKER, DATA_UNIT)
}

/// The event rate, in thousands of events per second, that the evidence
/// text reports.
pub fn extract_events(log_string: &str) -> (r: Option<Decimal>)
    ensures
        r == events_of(log_string@),
{
    extract_figure(log_string, EVENTS_MARKER, EVENTS_UNIT)
}

/// The histogram block of the evidence text.
pub fn extract_hist<'a>(log_string: &'a str) -> (r: Option<&'a str>)
    ensures
        opt_view(r) == hist_of(log_string@),
{
    let cs = chars_of(log_string);
    let end = chars_of(HIST_END);
    match find_from(&cs, &end, 0) {
        Some(e) => {
            proof {
                lemma_find_first_found(cs@, end@, 0);
            }
            Some(log_string.substring_char(0, e))
        },
        None => None,
    }
}

/// The record of one benchmark of the run of `commit_hash` created at
/// `created_at`. A figure that cannot be read from the evidence is recorded
/// as zero, a missing histogram as empty text.
fn build_record(bench: &Bench, commit_hash: &str, created_at: &str) -> (r: Benchmark)
    ensures
        r@ == record_of(commit_hash@, created_at@, bench.name@, bench.evidence.stdout@),
{
    let stdout = bench.evidence.stdout.as_str();
    let mbps = match extract_throughput(stdout) {
        Some(d) => d,
        None => Decimal::zero(),
    };
    let eps = match extract_events(stdout) {
        Some(d) => d,
        None => Decimal::zero(),
    };
    let hist = match extract_hist(stdout) {
        Some(h) => h.to_owned(),
        None => String::new(),
    };
    let id = String::from_str(commit_hash).concat("-").concat(bench.name.as_str()).concat(
        "-",
    ).concat(created_at);
    Benchmark {
        id,
        created_at: created_at.to_owned(),
        commit_hash: commit_hash.to_owned(),
        bench_name: bench.name.clone(),
        mbps,
        eps,
        hist,
    }
}

/// The records of the run of `commit_hash` created at `created_at`: one for
/// each entry of the report, in the report's order.
pub fn build_records(whole_report: &WholeReport, commit_hash: &str, created_at: &str) -> (r: Vec<
    Benchmark,
>)
    ensures
        r@.map_values(|b: Benchmark| b@) == records_of(*whole_report, commit_hash@, created_at@),
{
    let entries = &whole_report.reports.bench;
    let mut r: Vec<Benchmark> = Vec::new();
    for i in 0..entries.len()
        invariant
            entries == &whole_report.reports.bench,
            r@.len() == i,
            forall|j: int|
                0 <= j < i ==> (#[trigger] r@[j])@ == records_of(
                    *whole_report,
                    commit_hash@,
                    created_at@,
                )[j],
    {
        r.push(build_record(&entries[i].elements.bench, commit_hash, created_at));
    }
    assert(r@.map_values(|b: Benchmark| b@) =~= records_of(
        *whole_report,
        commit_hash@,
        created_at@,
    ));
    r
}

/// Relies on chrono's `Utc::now` and its `Display` impl: the current time,
/// in UTC, as text. Nothing is assumed of the text.
#[verifier::external_body]
pub(crate) fn date_and_time() -> (r: String) {
    chrono::offset::Utc::now().to_string()
}

/// The records of a run of `commit_hash` that produced `whole_report`, all
/// created now: one for each entry of the report, in order, all with the
/// same creation time.
pub fn convert_into_relevant_data(whole_report: WholeReport, commit_hash: &str) -> (r: Vec<
    Benchmark,
>)
    ensures
        exists|created_at: Seq<char>|
            r@.map_values(|b: Benchmark| b@) == #[trigger] records_of(
                whole_report,
                commit_hash@,
                created_at,
            ),
{
    let created_at = date_and_time();
    let r = build_records(&whole_report, commit_hash, created_at.as_str());
    assert(r@.map_values(|b: Benchmark| b@) == records_of(
        whole_report,
        commit_hash@,
        created_at@,
    ));
    r
}

} // verus!
