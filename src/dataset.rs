//! The dataset file: a JSON array of run summaries, to which each run
//! appends its own summary.

use vstd::prelude::*;

use crate::decimal::Decimal;
use crate::error::Error;
use crate::text::{
    chars_of,
    find_first,
    find_from,
    is_white_space,
    lemma_find_first_found,
    trim,
    trim_bounds,
};
use crate::util::{date_and_time, extract_figure, figure_of, opt_view, WholeReport};

verus! {

/// Marks the throughput in the evidence text of a summarised run.
pub const THROUGHPUT_MARKER: &'static str = "Throughput:";

/// Follows the throughput in the evidence text of a summarised run.
pub const THROUGHPUT_UNIT: &'static str = "MB/s";

/// The text that `update_json` yields: `old` without surrounding white space
/// and without its closing bracket, a comma, `to_be_added` and a closing
/// bracket.
pub open spec fn merged(old: Seq<char>, to_be_added: Seq<char>) -> Seq<char> {
    trim(old).drop_last() + ","@ + to_be_added + "]"@
}

/// The elements `items` joined by commas.
pub open spec fn joined(items: Seq<Seq<char>>) -> Seq<char>
    decreases items.len(),
{
    if items.len() == 0 {
        Seq::empty()
    } else if items.len() == 1 {
        items[0]
    } else {
        joined(items.drop_last()) + ","@ + items.last()
    }
}

/// The JSON array text whose elements are the texts `items`, in order.
pub open spec fn array_text(items: Seq<Seq<char>>) -> Seq<char> {
    "["@ + joined(items) + "]"@
}

/// Appends the JSON value text `to_be_added` to the JSON array text `old`,
/// which must end, but for white space, in its closing bracket.
pub fn update_json(old: &str, to_be_added: &str) -> (r: String)
    requires
        trim(old@).len() > 0,
        trim(old@).last() == ']',
    ensures
        r@ == merged(old@, to_be_added@),
{
    let cs = chars_of(old);
    assert(cs@.subrange(0, cs@.len() as int) =~= cs@);
    let (a, b) = trim_bounds(&cs, 0, cs.len());
    let kept = old.substring_char(a, b - 1);
    assert(kept@ =~= trim(old@).drop_last());
    String::from_str(kept).concat(",").concat(to_be_added).concat("]")
}

proof fn lemma_trim_bracketed(s: Seq<char>)
    requires
        s.len() > 0,
        !is_white_space(s[0]),
        !is_white_space(s.last()),
    ensures
        trim(s) == s,
{
}

/// Merging a value into a non-empty array text gives the array text with
/// that value appended: appending values one after another builds the same
/// array as writing them all out at once.
pub proof fn lemma_update_json_appends(items: Seq<Seq<char>>, to_be_added: Seq<char>)
    requires
        items.len() > 0,
    ensures
        trim(array_text(items)).len() > 0,
        trim(array_text(items)).last() == ']',
        merged(array_text(items), to_be_added) == array_text(items.push(to_be_added)),
{
    reveal_strlit("[");
    reveal_strlit("]");
    let s = array_text(items);
    assert(s[0] == '[');
    assert(s.last() == ']');
    lemma_trim_bracketed(s);
    let longer = items.push(to_be_added);
    assert(longer.drop_last() =~= items);
    assert(s.drop_last() =~= "["@ + joined(items));
    assert(merged(s, to_be_added) =~= array_text(longer));
}

/// Merging `b` and then `c` into the array of `a` gives the array of `a`,
/// `b` and `c`.
pub proof fn lemma_update_json_sequential(a: Seq<char>, b: Seq<char>, c: Seq<char>)
    ensures
        merged(merged(array_text(seq![a]), b), c) == array_text(seq![a, b, c]),
{
    lemma_update_json_appends(seq![a], b);
    assert(seq![a].push(b) =~= seq![a, b]);
    lemma_update_json_appends(seq![a, b], c);
    assert(seq![a, b].push(c) =~= seq![a, b, c]);
}

/// The reason a run cannot be summarised: a benchmark's throughput is not
/// in its evidence.
pub const THROUGHPUT_MISSING: &'static str = "failed to get throughput";

/// One benchmark's throughput, in MB/s, in a run summary.
#[derive(Clone, Debug, PartialEq, Eq)]
pub struct BenchThroughput {
    pub name: String,
    pub throughput: Decimal,
}

/// The summary of one run: when it was made, of which commit, and the
/// throughput of each benchmark.
#[derive(Clone, Debug, PartialEq, Eq)]
pub struct Data {
    pub created_at: String,
    pub commit_hash: String,
    pub benchmarks: Vec<BenchThroughput>,
}

/// The throughput, in MB/s, that the evidence text `s` of a summarised run
/// reports.
pub open spec fn summary_throughput_of(s: Seq<char>) -> Option<Decimal> {
    figure_of(s, THROUGHPUT_MARKER@, THROUGHPUT_UNIT@)
}

/// The histogram of the evidence text `s`: what precedes the throughput
/// marker, without surrounding white space.
pub open spec fn raw_histogram_of(s: Seq<char>) -> Option<Seq<char>> {
    match find_first(s, THROUGHPUT_MARKER@, 0) {
        None => None,
        Some(m) => Some(trim(s.take(m))),
    }
}

/// Whether the throughput of every benchmark of `report` can be read.
pub open spec fn throughputs_readable(report: WholeReport) -> bool {
    forall|i: int|
        0 <= i < report.reports.bench@.len() ==> summary_throughput_of(
            (#[trigger] report.reports.bench@[i]).elements.bench.evidence.stdout@,
        ) is Some
}

/// Whether `d` summarises `report` for the run of `commit_hash`: one entry
/// per benchmark, in order, each with the benchmark's name and throughput.
pub open spec fn is_summary_of(d: Data, report: WholeReport, commit_hash: Seq<char>) -> bool {
    &&& d.commit_hash@ == commit_hash
    &&& d.benchmarks@.len() == report.reports.bench@.len()
    &&& forall|i: int|
        0 <= i < d.benchmarks@.len() ==> {
            let bench = report.reports.bench@[i].elements.bench;
            &&& (#[trigger] d.benchmarks@[i]).name@ == bench.name@
            &&& summary_throughput_of(bench.evidence.stdout@) == Some(d.benchmarks@[i].throughput)
        }
}

/// The histogram that precedes the throughput in the evidence text.
pub fn extract_raw_histogram<'a>(log_string: &'a str) -> (r: Option<&'a str>)
    ensures
        opt_view(r) == raw_histogram_of(log_string@),
{
    let cs = chars_of(log_string);
    let marker = chars_of(THROUGHPUT_MARKER);
    match find_from(&cs, &marker, 0) {
        Some(m) => {
            proof {
                lemma_find_first_found(cs@, marker@, 0);
            }
            let (a, b) = trim_bounds(&cs, 0, m);
            assert(cs@.subrange(0, m as int) =~= cs@.take(m as int));
            Some(log_string.substring_char(a, b))
        },
        None => None,
    }
}

/// The throughput, in MB/s, that the evidence text of a summarised run
/// reports.
pub fn extract_throughput(log_string: &str) -> (r: Option<Decimal>)
    ensures
        r == summary_throughput_of(log_string@),
{
    extract_figure(log_string, THROUGHPUT_MARKER, THROUGHPUT_UNIT)
}

/// The summary of the run of `commit_hash` made at `created_at`, or an error
/// where the throughput of some benchmark cannot be read.
pub fn summarize(whole_report: &WholeReport, commit_hash: &str, created_at: &str) -> (r: Result<
    Data,
    Error,
>)
    ensures
        r is Ok <==> throughputs_readable(*whole_report),
        r matches Ok(d) ==> d.created_at@ == created_at@ && is_summary_of(
            d,
            *whole_report,
            commit_hash@,
        ),
        r matches Err(e) ==> e matches Error::Text(m) && m@ == THROUGHPUT_MISSING@,
{
    let entries = &whole_report.reports.bench;
    let mut benchmarks: Vec<BenchThroughput> = Vec::new();
    for i in 0..entries.len()
        invariant
            entries == &whole_report.reports.bench,
            benchmarks@.len() == i,
            forall|j: int|
                0 <= j < i ==> {
                    let bench = entries@[j].elements.bench;
                    &&& (#[trigger] benchmarks@[j]).name@ == bench.name@
                    &&& summary_throughput_of(bench.evidence.stdout@) == Some(
                        benchmarks@[j].throughput,
                    )
                },
    {
        let bench = &entries[i].elements.bench;
        match extract_throughput(bench.evidence.stdout.as_str()) {
            Some(throughput) => {
                benchmarks.push(BenchThroughput { name: bench.name.clone(), throughput });
            },
            None => {
                assert(!throughputs_readable(*whole_report)) by {
                    assert(entries@[i as int] == whole_report.reports.bench@[i as int]);
                }
                return Err(Error::Text(THROUGHPUT_MISSING.to_owned()));
            },
        }
    }
    assert(throughputs_readable(*whole_report)) by {
        assert forall|j: int| 0 <= j < entries@.len() implies summary_throughput_of(
            (#[trigger] entries@[j]).elements.bench.evidence.stdout@,
        ) is Some by {
            assert(benchmarks@[j].name@ == entries@[j].elements.bench.name@);
        }
    }
    Ok(
        Data {
            created_at: created_at.to_owned(),
            commit_hash: commit_hash.to_owned(),
            benchmarks,
        },
    )
}

/// The summary of the run of `commit_hash` that produced `whole_report`,
/// made now, or an error where the throughput of some benchmark cannot be
/// read.
pub fn convert_into_relevant_data(whole_report: WholeReport, commit_hash: &str) -> (r: Result<
    Data,
    Error,
>)
    ensures
        r is Ok <==> throughputs_readable(whole_report),
        r matches Ok(d) ==> is_summary_of(d, whole_report, commit_hash@),
        r matches Err(e) ==> e matches Error::Text(m) && m@ == THROUGHPUT_MISSING@,
{
    let created_at = date_and_time();
    summarize(&whole_report, commit_hash, created_at.as_str())
}

} // verus!
