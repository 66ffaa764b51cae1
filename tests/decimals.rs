use tremor_benchmark::decimal::{parse_decimal, Decimal};
use tremor_benchmark::runner::{build_arg, image_tag};
use tremor_benchmark::text::{chars_of, find_from, trim_bounds};

fn parse(s: &str) -> Option<Decimal> {
    let cs = chars_of(s);
    parse_decimal(&cs, 0, cs.len())
}

#[test]
fn numerals() {
    assert_eq!(parse("58.7"), Some(Decimal { negative: false, mantissa: 587, scale: 1 }));
    assert_eq!(parse("-3"), Some(Decimal { negative: true, mantissa: 3, scale: 0 }));
    assert_eq!(parse("+.5"), Some(Decimal { negative: false, mantissa: 5, scale: 1 }));
    assert_eq!(parse("7."), Some(Decimal { negative: false, mantissa: 7, scale: 0 }));
    assert_eq!(parse("0.050"), Some(Decimal { negative: false, mantissa: 50, scale: 3 }));
    assert_eq!(
        parse("18446744073709551615"),
        Some(Decimal { negative: false, mantissa: u64::MAX, scale: 0 })
    );
}

#[test]
fn not_numerals() {
    assert_eq!(parse(""), None);
    assert_eq!(parse("."), None);
    assert_eq!(parse("-"), None);
    assert_eq!(parse("1.2.3"), None);
    assert_eq!(parse("12a"), None);
    assert_eq!(parse(" 1"), None);
    assert_eq!(parse("18446744073709551616"), None);
}

#[test]
fn numeral_in_the_middle() {
    let cs = chars_of("ab921.6cd");
    assert_eq!(parse_decimal(&cs, 2, 7), Some(Decimal { negative: false, mantissa: 9216, scale: 1 }));
}

#[test]
fn search_and_trim() {
    let s = chars_of("  héllo wörld  ");
    let pat = chars_of("wö");
    assert_eq!(find_from(&s, &pat, 0), Some(8));
    assert_eq!(find_from(&s, &pat, 9), None);
    assert_eq!(find_from(&s, &chars_of(""), 3), Some(3));
    assert_eq!(trim_bounds(&s, 0, s.len()), (2, 13));
    let ws = chars_of("\u{3000}\t x\u{a0}");
    assert_eq!(trim_bounds(&ws, 0, ws.len()), (3, 4));
    assert_eq!(trim_bounds(&ws, 0, 2), (2, 2));
}

#[test]
fn runner_arguments() {
    assert_eq!(image_tag("abc1234567"), Some("tremor-benchmark:abc123".to_string()));
    assert_eq!(image_tag("abc12"), None);
    assert_eq!(build_arg("abc1234567"), "commithash=abc1234567");
}
