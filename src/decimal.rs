//! Decimal figures as read from report text.

use vstd::prelude::*;

use crate::text::{find_first, lemma_find_first_found, occurs_at};

verus! {

/// A decimal figure: `mantissa / 10^scale`, negated when `negative`.
#[derive(Clone, Copy, Debug, PartialEq, Eq, Structural)]
pub struct Decimal {
    pub negative: bool,
    pub mantissa: u64,
    pub scale: usize,
}

impl Decimal {
    /// The figure zero, written in place of a figure that could not be read.
    pub open spec fn spec_zero() -> Decimal {
        Decimal { negative: false, mantissa: 0, scale: 0 }
    }

    /// The figure zero.
    pub fn zero() -> (r: Decimal)
        ensures
            r == Decimal::spec_zero(),
    {
        Decimal { negative: false, mantissa: 0, scale: 0 }
    }
}

/// Whether `c` is one of the ASCII digits `0` to `9`.
pub open spec fn is_digit(c: char) -> bool {
    48 <= c as u32 <= 57
}

/// The value of the digit `c`.
pub open spec fn digit_value(c: char) -> int {
    c as u32 - 48
}

/// Whether every character of `s` is a digit.
pub open spec fn all_digits(s: Seq<char>) -> bool {
    forall|i: int| 0 <= i < s.len() ==> is_digit(#[trigger] s[i])
}

/// The number that the digits `s` denote in base ten (zero for no digits).
pub open spec fn digits_value(s: Seq<char>) -> int
    decreases s.len(),
{
    if s.len() == 0 {
        0
    } else {
        10 * digits_value(s.drop_last()) + digit_value(s.last())
    }
}

/// The length of the sign that `s` starts with: `+` or `-`, or none.
pub open spec fn sign_len(s: Seq<char>) -> int {
    if s.len() > 0 && (s[0] == '+' || s[0] == '-') {
        1
    } else {
        0
    }
}

/// The decimal point.
pub open spec fn point() -> Seq<char> {
    seq!['.']
}

/// What precedes the first decimal point of `b`; all of `b` when it has none.
pub open spec fn integer_part(b: Seq<char>) -> Seq<char> {
    match find_first(b, point(), 0) {
        Some(p) => b.take(p),
        None => b,
    }
}

/// What follows the first decimal point of `b`; nothing when it has none.
pub open spec fn fraction_part(b: Seq<char>) -> Seq<char> {
    match find_first(b, point(), 0) {
        Some(p) => b.skip(p + 1),
        None => Seq::empty(),
    }
}

/// The figure that the numeral `s` denotes. A numeral is an optional sign
/// followed by digits with at most one decimal point among them, and at
/// least one digit. `None` where `s` is no numeral, or where its digits,
/// read without the point, exceed 64 bits.
pub open spec fn decimal_of(s: Seq<char>) -> Option<Decimal> {
    let b = s.skip(sign_len(s));
    let ip = integer_part(b);
    let fp = fraction_part(b);
    if all_digits(ip) && all_digits(fp) && ip.len() + fp.len() > 0 && digits_value(ip + fp)
        <= u64::MAX {
        Some(
            Decimal {
                negative: sign_len(s) == 1 && s[0] == '-',
                mantissa: digits_value(ip + fp) as u64,
                scale: fp.len() as usize,
            },
        )
    } else {
        None
    }
}

proof fn lemma_digits_value_nonneg(d: Seq<char>)
    requires
        all_digits(d),
    ensures
        digits_value(d) >= 0,
    decreases d.len(),
{
    if d.len() > 0 {
        assert(all_digits(d.drop_last()));
        lemma_digits_value_nonneg(d.drop_last());
    }
}

/// The digits of a prefix never denote more than the whole.
proof fn lemma_digits_value_prefix(d: Seq<char>, n: int)
    requires
        all_digits(d),
        0 <= n <= d.len(),
    ensures
        digits_value(d.take(n)) <= digits_value(d),
    decreases d.len(),
{
    if n < d.len() {
        let e = d.drop_last();
        assert(all_digits(e));
        assert(e.take(n) =~= d.take(n));
        lemma_digits_value_prefix(e, n);
        lemma_digits_value_nonneg(e);
    } else {
        assert(d.take(n) =~= d);
    }
}

/// The digits read so far from `b[..k]`, leaving out the decimal point at
/// `dot` where one was met.
spec fn seen_digits(b: Seq<char>, dot: Option<int>, k: int) -> Seq<char> {
    match dot {
        Some(p) => b.take(p) + b.subrange(p + 1, k),
        None => b.take(k),
    }
}

/// `b[..k]` has been read without finding `b` malformed, and `dot` is where
/// the first decimal point stands, if `b[..k]` holds one.
spec fn scan_state(b: Seq<char>, dot: Option<int>, k: int) -> bool {
    &&& 0 <= k <= b.len()
    &&& match dot {
        None => all_digits(b.take(k)) && find_first(b, point(), 0) == find_first(b, point(), k),
        Some(p) => {
            &&& 0 <= p < k
            &&& find_first(b, point(), 0) == Some(p)
            &&& all_digits(b.take(p))
            &&& all_digits(b.subrange(p + 1, k))
        },
    }
}

spec fn parts_are_digits(b: Seq<char>) -> bool {
    all_digits(integer_part(b)) && all_digits(fraction_part(b))
}

spec fn dot_at(dot: Option<usize>) -> Option<int> {
    match dot {
        Some(p) => Some(p as int),
        None => None,
    }
}

proof fn lemma_scan_point(b: Seq<char>, k: int)
    requires
        scan_state(b, None, k),
        k < b.len(),
        b[k] == '.',
    ensures
        scan_state(b, Some(k), k + 1),
        seen_digits(b, Some(k), k + 1) == seen_digits(b, None, k),
{
    assert(b.subrange(k, k + 1) =~= point());
    assert(b.take(k) + b.subrange(k + 1, k + 1) =~= b.take(k));
    assert(all_digits(b.subrange(k + 1, k + 1)));
}

proof fn lemma_scan_second_point(b: Seq<char>, p: int, k: int)
    requires
        scan_state(b, Some(p), k),
        k < b.len(),
        b[k] == '.',
    ensures
        !parts_are_digits(b),
{
    assert(fraction_part(b)[k - p - 1] == b[k]);
}

proof fn lemma_scan_other(b: Seq<char>, dot: Option<int>, k: int)
    requires
        scan_state(b, dot, k),
        k < b.len(),
        b[k] != '.',
        !is_digit(b[k]),
    ensures
        !parts_are_digits(b),
{
    match dot {
        Some(p) => {
            assert(fraction_part(b)[k - p - 1] == b[k]);
        },
        None => {
            lemma_find_first_found(b, point(), k);
            if let Some(m) = find_first(b, point(), k) {
                assert(b.subrange(m, m + 1)[0] == b[m]);
            }
            assert(integer_part(b)[k] == b[k]);
        },
    }
}

proof fn lemma_scan_digit(b: Seq<char>, dot: Option<int>, k: int)
    requires
        scan_state(b, dot, k),
        k < b.len(),
        is_digit(b[k]),
    ensures
        scan_state(b, dot, k + 1),
        digits_value(seen_digits(b, dot, k + 1)) == 10 * digits_value(seen_digits(b, dot, k))
            + digit_value(b[k]),
        parts_are_digits(b) ==> digits_value(seen_digits(b, dot, k + 1)) <= digits_value(
            integer_part(b) + fraction_part(b),
        ),
{
    let old_digits = seen_digits(b, dot, k);
    let new_digits = seen_digits(b, dot, k + 1);
    assert(new_digits =~= old_digits.push(b[k]));
    assert(new_digits.drop_last() =~= old_digits);
    match dot {
        Some(p) => {
            assert(all_digits(b.subrange(p + 1, k + 1)));
            assert(new_digits =~= (integer_part(b) + fraction_part(b)).take(
                new_digits.len() as int,
            ));
        },
        None => {
            assert(b.subrange(k, k + 1)[0] == b[k]);
            assert(!occurs_at(b, point(), k));
            assert(all_digits(b.take(k + 1)));
            lemma_find_first_found(b, point(), k + 1);
            assert(new_digits =~= (integer_part(b) + fraction_part(b)).take(
                new_digits.len() as int,
            ));
        },
    }
    if parts_are_digits(b) {
        let whole = integer_part(b) + fraction_part(b);
        assert(all_digits(whole));
        lemma_digits_value_prefix(whole, new_digits.len() as int);
    }
}

proof fn lemma_scan_end(b: Seq<char>, dot: Option<int>)
    requires
        scan_state(b, dot, b.len() as int),
    ensures
        parts_are_digits(b),
        integer_part(b) + fraction_part(b) == seen_digits(b, dot, b.len() as int),
        fraction_part(b).len() == match dot {
            Some(p) => b.len() - p - 1,
            None => 0,
        },
        integer_part(b).len() + fraction_part(b).len() == match dot {
            Some(_) => b.len() - 1,
            None => b.len() as int,
        },
{
    match dot {
        Some(p) => {
            assert(fraction_part(b) =~= b.subrange(p + 1, b.len() as int));
        },
        None => {
            assert(b.take(b.len() as int) =~= b);
            assert(b + fraction_part(b) =~= b);
        },
    }
}

/// Reads the numeral `s[lo..hi]`.
pub fn parse_decimal(s: &Vec<char>, lo: usize, hi: usize) -> (r: Option<Decimal>)
    requires
        lo <= hi <= s@.len(),
    ensures
        r == decimal_of(s@.subrange(lo as int, hi as int)),
{
    let ghost t = s@.subrange(lo as int, hi as int);
    let mut i: usize = lo;
    let mut negative = false;
    if lo < hi && (s[lo] == '+' || s[lo] == '-') {
        negative = s[lo] == '-';
        i = lo + 1;
    }
    let start = i;
    let ghost b = s@.subrange(start as int, hi as int);
    assert(t.skip(sign_len(t)) =~= b);
    assert(b.take(0) =~= Seq::<char>::empty());
    let mut mantissa: u64 = 0;
    let mut scale: usize = 0;
    let mut dot: Option<usize> = None;
    while i < hi
        invariant
            lo <= start <= i <= hi <= s@.len(),
            t == s@.subrange(lo as int, hi as int),
            b == s@.subrange(start as int, hi as int),
            b == t.skip(sign_len(t)),
            negative == (sign_len(t) == 1 && t[0] == '-'),
            scan_state(b, dot_at(dot), i - start),
            mantissa == digits_value(seen_digits(b, dot_at(dot), i - start)),
            scale == match dot {
                Some(p) => i - start - p - 1,
                None => 0,
            },
        decreases hi - i,
    {
        let ghost k = i - start;
        let c = s[i];
        assert(b[k] == c);
        let u = c as u32;
        if c == '.' {
            if let Some(p) = dot {
                proof {
                    lemma_scan_second_point(b, p as int, k);
                }
                return None;
            }
            proof {
                lemma_scan_point(b, k);
            }
            dot = Some(i - start);
        } else if 48 <= u && u <= 57 {
            let d = (u - 48) as u64;
            proof {
                lemma_scan_digit(b, dot_at(dot), k);
            }
            let m = match mantissa.checked_mul(10) {
                Some(m) => m,
                None => {
                    return None;
                },
            };
            mantissa = match m.checked_add(d) {
                Some(v) => v,
                None => {
                    return None;
                },
            };
            if dot.is_some() {
                scale += 1;
            }
        } else {
            proof {
                lemma_scan_other(b, dot_at(dot), k);
            }
            return None;
        }
        i += 1;
    }
    proof {
        lemma_scan_end(b, dot_at(dot));
    }
    let digits = match dot {
        Some(_) => i - start - 1,
        None => i - start,
    };
    if digits == 0 {
        return None;
    }
    Some(Decimal { negative, mantissa, scale })
}

} // verus!
