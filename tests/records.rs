use tremor_benchmark::decimal::Decimal;
use tremor_benchmark::util::{
    build_records, convert_into_relevant_data, extract_events, extract_hist, extract_throughput,
    Bench, Element, Evidence, Metadata, Reports, SingleReport, Stat, Stats,
};
use tremor_benchmark::WholeReport;

const FULL: &str = "hist line 1\nhist line 2\n\n\nThroughput   (data): 58.7 MB/s\nThroughput (events): 921.6k events/s\n";
const NO_DATA: &str = "hist\n\n\nThroughput (events): 12k events/s\n";

fn stat() -> Stat {
    Stat { pass: 1, fail: 0, skip: 0, asserts: 2 }
}

fn entry(name: &str, stdout: &str) -> SingleReport {
    SingleReport {
        description: "a benchmark".to_string(),
        elements: Element {
            bench: Bench {
                name: name.to_string(),
                description: "a benchmark".to_string(),
                elements: vec![],
                evidence: Evidence { stdout: stdout.to_string(), stderr: String::new() },
                stats: stat(),
                duration: 3,
            },
        },
    }
}

fn report(entries: Vec<SingleReport>) -> WholeReport {
    let text = String::from("x");
    WholeReport {
        metadata: Metadata {
            allocator: text.clone(),
            repository: text.clone(),
            description: text.clone(),
            homepage: text.clone(),
            name: text.clone(),
            authors: text.clone(),
            librdkafka: text.clone(),
            version: text,
        },
        includes: vec![],
        excludes: vec![],
        reports: Reports { bench: entries },
        stats: Stats { command: stat(), all: stat(), integration: stat(), unit: stat(), bench: stat() },
    }
}

fn dec(mantissa: u64, scale: usize) -> Decimal {
    Decimal { negative: false, mantissa, scale }
}

#[test]
fn figures_from_evidence() {
    assert_eq!(extract_throughput(FULL), Some(dec(587, 1)));
    assert_eq!(extract_events(FULL), Some(dec(9216, 1)));
    assert_eq!(extract_hist(FULL), Some("hist line 1\nhist line 2"));
}

#[test]
fn missing_markers_give_nothing() {
    assert_eq!(extract_throughput(NO_DATA), None);
    assert_eq!(extract_throughput(""), None);
    assert_eq!(extract_events("Throughput   (data): 1 MB/s"), None);
    assert_eq!(extract_hist("no blank lines\n\n"), None);
    assert_eq!(extract_throughput(FULL), extract_throughput(FULL));
}

#[test]
fn unit_before_marker_is_not_taken() {
    let s = "5 MB/s\nThroughput   (data): 7 MB/s";
    assert_eq!(extract_throughput(s), Some(dec(7, 0)));
}

#[test]
fn unparsable_figure_gives_nothing() {
    assert_eq!(extract_throughput("Throughput   (data): fast MB/s"), None);
    assert_eq!(extract_throughput("Throughput   (data): MB/s"), None);
}

#[test]
fn records_from_report() {
    let r = report(vec![entry("first", FULL), entry("second", NO_DATA)]);
    let records = build_records(&r, "abc1234567", "2021-01-01 00:00:00 UTC");
    assert_eq!(records.len(), 2);
    assert_eq!(records[0].id, "abc1234567-first-2021-01-01 00:00:00 UTC");
    assert_eq!(records[0].mbps, dec(587, 1));
    assert_eq!(records[0].eps, dec(9216, 1));
    assert_eq!(records[0].hist, "hist line 1\nhist line 2");
    assert_eq!(records[0].commit_hash, "abc1234567");
    assert_eq!(records[0].bench_name, "first");
    assert_eq!(records[1].mbps, Decimal::zero());
    assert_eq!(records[1].eps, dec(12, 0));
    assert_eq!(records[1].hist, "hist");
    assert_eq!(records[1].created_at, records[0].created_at);
}

#[test]
fn record_without_throughput_marker() {
    let r = report(vec![entry("only", "nothing to see")]);
    let records = build_records(&r, "abc1234567", "now");
    assert_eq!(records.len(), 1);
    assert_eq!(records[0].mbps, Decimal::zero());
    assert_eq!(records[0].eps, Decimal::zero());
    assert_eq!(records[0].hist, "");
    assert_eq!(records[0].id, "abc1234567-only-now");
}

#[test]
fn converted_records_share_creation_time() {
    let r = report(vec![entry("a", FULL), entry("b", FULL), entry("c", NO_DATA)]);
    let records = convert_into_relevant_data(r, "abc1234567");
    assert_eq!(records.len(), 3);
    assert!(!records[0].created_at.is_empty());
    for rec in &records {
        assert_eq!(rec.created_at, records[0].created_at);
        assert_eq!(rec.commit_hash, "abc1234567");
        assert_eq!(rec.id, format!("abc1234567-{}-{}", rec.bench_name, rec.created_at));
    }
}

#[test]
fn empty_report_gives_no_records() {
    let records = build_records(&report(vec![]), "abc1234567", "now");
    assert!(records.is_empty());
}
