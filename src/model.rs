//! The persisted benchmark record.

use vstd::prelude::*;

use crate::decimal::Decimal;

verus! {

/// One benchmark's figures from one run, as persisted.
#[derive(Clone, Debug, PartialEq, Eq)]
pub struct Benchmark {
    pub id: String,
    pub created_at: String,
    pub commit_hash: String,
    pub bench_name: String,
    pub mbps: Decimal,
    pub eps: Decimal,
    pub hist: String,
}

/// What a `Benchmark` holds, as mathematical values.
pub struct BenchmarkView {
    pub id: Seq<char>,
    pub created_at: Seq<char>,
    pub commit_hash: Seq<char>,
    pub bench_name: Seq<char>,
    pub mbps: Decimal,
    pub eps: Decimal,
    pub hist: Seq<char>,
}

impl View for Benchmark {
    type V = BenchmarkView;

    open spec fn view(&self) -> BenchmarkView {
        BenchmarkView {
            id: self.id@,
            created_at: self.created_at@,
            commit_hash: self.commit_hash@,
            bench_name: self.bench_name@,
            mbps: self.mbps,
            eps: self.eps,
            hist: self.hist@,
        }
    }
}

/// The identifier of a record: commit hash, benchmark name and creation
/// time, joined by `-`.
pub open spec fn record_id(commit_hash: Seq<char>, bench_name: Seq<char>, created_at: Seq<char>) -> Seq<
    char,
> {
    commit_hash + "-"@ + bench_name + "-"@ + created_at
}

} // verus!
