//! Decimal numbers and plain text comparison.
//!
//! Argument values arrive as text. The parsers here accept exactly what the
//! standard library's `FromStr` for integers accepts: an optional sign (`+`
//! for every type, `-` for signed types only) followed by at least one ASCII
//! digit and nothing else, with the value inside the type's range.

use vstd::prelude::*;

verus! {

pub open spec fn is_digit(c: char) -> bool {
    '0' <= c && c <= '9'
}

pub open spec fn digit_value(c: char) -> int {
    c as int - '0' as int
}

pub open spec fn all_digits(s: Seq<char>) -> bool {
    forall|i: int| 0 <= i < s.len() ==> is_digit(#[trigger] s[i])
}

/// The number that a string of decimal digits denotes.
pub open spec fn decimal_value(s: Seq<char>) -> int
    decreases s.len(),
{
    if s.len() == 0 {
        0
    } else {
        decimal_value(s.drop_last()) * 10 + digit_value(s.last())
    }
}

/// A non-empty run of digits whose value is at most `max`.
pub open spec fn digits_within(s: Seq<char>, max: int) -> bool {
    s.len() > 0 && all_digits(s) && decimal_value(s) <= max
}

/// The value of `s` read as an unsigned integer type whose largest value is
/// `max`, or `None` where the text is rejected.
pub open spec fn parse_unsigned(s: Seq<char>, max: int) -> Option<int> {
    let digits = if s.len() > 0 && s[0] == '+' {
        s.drop_first()
    } else {
        s
    };
    if digits_within(digits, max) {
        Some(decimal_value(digits))
    } else {
        None
    }
}

/// The value of `s` read as a signed integer type whose range is
/// `-(max + 1) ..= max`, or `None` where the text is rejected.
pub open spec fn parse_signed(s: Seq<char>, max: int) -> Option<int> {
    if s.len() > 0 && s[0] == '-' {
        let digits = s.drop_first();
        if digits_within(digits, max + 1) {
            Some(-decimal_value(digits))
        } else {
            None
        }
    } else {
        parse_unsigned(s, max)
    }
}

pub proof fn lemma_decimal_value_nonneg(s: Seq<char>)
    requires
        all_digits(s),
    ensures
        decimal_value(s) >= 0,
    decreases s.len(),
{
    if s.len() > 0 {
        assert(is_digit(s[s.len() - 1]));
        lemma_decimal_value_nonneg(s.drop_last());
    }
}

/// Reading more digits never makes the number smaller.
pub proof fn lemma_decimal_value_prefix(s: Seq<char>, j: int)
    requires
        all_digits(s),
        0 <= j <= s.len(),
    ensures
        decimal_value(s.subrange(0, j)) <= decimal_value(s),
    decreases s.len(),
{
    if j == s.len() {
        assert(s.subrange(0, j) =~= s);
    } else {
        let t = s.drop_last();
        assert(all_digits(t));
        assert(t.subrange(0, j) =~= s.subrange(0, j));
        lemma_decimal_value_prefix(t, j);
        lemma_decimal_value_nonneg(t);
        assert(is_digit(s[s.len() - 1]));
    }
}

/// Whether two strings hold the same characters.
pub fn str_eq(a: &str, b: &str) -> (r: bool)
    ensures
        r == (a@ == b@),
{
    let n = a.unicode_len();
    if n != b.unicode_len() {
        return false;
    }
    let mut i: usize = 0;
    while i < n
        invariant
            n == a@.len(),
            n == b@.len(),
            i <= n,
            forall|k: int| 0 <= k < i ==> a@[k] == b@[k],
        decreases n - i,
    {
        if a.get_char(i) != b.get_char(i) {
            return false;
        }
        i = i + 1;
    }
    assert(a@ =~= b@);
    true
}

/// The digits of `s` from `start` on, read as a number of at most `max`.
fn digits_from(s: &str, start: usize, max: u64) -> (r: Option<u64>)
    requires
        start <= s@.len(),
        9 <= max,
    ensures
        match r {
            Some(v) => digits_within(s@.subrange(start as int, s@.len() as int), max as int)
                && v == decimal_value(s@.subrange(start as int, s@.len() as int)),
            None => !digits_within(s@.subrange(start as int, s@.len() as int), max as int),
        },
{
    let n = s.unicode_len();
    let ghost full = s@.subrange(start as int, n as int);
    if start >= n {
        return None;
    }
    let mut acc: u64 = 0;
    let mut i: usize = start;
    assert(s@.subrange(start as int, start as int) =~= Seq::<char>::empty());
    while i < n
        invariant
            n == s@.len(),
            start < n,
            start <= i <= n,
            full == s@.subrange(start as int, n as int),
            all_digits(s@.subrange(start as int, i as int)),
            acc == decimal_value(s@.subrange(start as int, i as int)),
            acc <= max,
            9 <= max,
        decreases n - i,
    {
        let c = s.get_char(i);
        assert(full[i - start] == c);
        if !('0' <= c && c <= '9') {
            return None;
        }
        let d: u64 = (c as u32 - '0' as u32) as u64;
        let ghost next = s@.subrange(start as int, i + 1);
        assert(next.drop_last() =~= s@.subrange(start as int, i as int));
        assert(next.last() == c);
        assert(decimal_value(next) == acc * 10 + d);
        if acc > (max - d) / 10 {
            proof {
                assert(acc * 10 + d > max) by (nonlinear_arith)
                    requires
                        acc > (max - d) / 10,
                        d <= 9,
                        9 <= max,
                ;
                if all_digits(full) {
                    assert(full.subrange(0, i + 1 - start) =~= next);
                    lemma_decimal_value_prefix(full, i + 1 - start);
                }
            }
            return None;
        }
        proof {
            assert(acc * 10 + d <= max) by (nonlinear_arith)
                requires
                    acc <= (max - d) / 10,
                    d <= 9,
                    9 <= max,
            ;
        }
        acc = acc * 10 + d;
        i = i + 1;
        assert(all_digits(s@.subrange(start as int, i as int)));
    }
    assert(s@.subrange(start as int, i as int) =~= full);
    Some(acc)
}

/// The start of the digits once an optional leading `+` is skipped.
fn unsigned_digits_start(s: &str) -> (r: usize)
    ensures
        r <= s@.len(),
        r == (if s@.len() > 0 && s@[0] == '+' { 1int } else { 0int }),
{
    let n = s.unicode_len();
    if n > 0 && s.get_char(0) == '+' {
        1
    } else {
        0
    }
}

proof fn lemma_unsigned_digits(s: Seq<char>, start: int)
    requires
        start == (if s.len() > 0 && s[0] == '+' { 1int } else { 0int }),
    ensures
        s.subrange(start, s.len() as int) == (if s.len() > 0 && s[0] == '+' {
            s.drop_first()
        } else {
            s
        }),
{
    if start == 1 {
        assert(s.subrange(start, s.len() as int) =~= s.drop_first());
    } else {
        assert(s.subrange(start, s.len() as int) =~= s);
    }
}

/// Reads `s` as a `u64`.
pub fn parse_u64(s: &str) -> (r: Option<u64>)
    ensures
        parse_unsigned(s@, u64::MAX as int) == (match r {
            Some(v) => Some(v as int),
            None => None,
        }),
{
    let start = unsigned_digits_start(s);
    proof {
        lemma_unsigned_digits(s@, start as int);
    }
    digits_from(s, start, u64::MAX)
}

/// Reads `s` as a `usize`.
pub fn parse_usize(s: &str) -> (r: Option<usize>)
    ensures
        parse_unsigned(s@, usize::MAX as int) == (match r {
            Some(v) => Some(v as int),
            None => None,
        }),
{
    let start = unsigned_digits_start(s);
    proof {
        lemma_unsigned_digits(s@, start as int);
    }
    match digits_from(s, start, usize::MAX as u64) {
        Some(v) => Some(v as usize),
        None => None,
    }
}

/// Reads `s` as a `u32`.
pub fn parse_u32(s: &str) -> (r: Option<u32>)
    ensures
        parse_unsigned(s@, u32::MAX as int) == (match r {
            Some(v) => Some(v as int),
            None => None,
        }),
{
    let start = unsigned_digits_start(s);
    proof {
        lemma_unsigned_digits(s@, start as int);
    }
    match digits_from(s, start, u32::MAX as u64) {
        Some(v) => Some(v as u32),
        None => None,
    }
}

/// Reads `s` as a `u16`.
pub fn parse_u16(s: &str) -> (r: Option<u16>)
    ensures
        parse_unsigned(s@, u16::MAX as int) == (match r {
            Some(v) => Some(v as int),
            None => None,
        }),
{
    let start = unsigned_digits_start(s);
    proof {
        lemma_unsigned_digits(s@, start as int);
    }
    match digits_from(s, start, u16::MAX as u64) {
        Some(v) => Some(v as u16),
        None => None,
    }
}

/// Reads `s` as an `i64`.
pub fn parse_i64(s: &str) -> (r: Option<i64>)
    ensures
        parse_signed(s@, i64::MAX as int) == (match r {
            Some(v) => Some(v as int),
            None => None,
        }),
{
    let n = s.unicode_len();
    if n > 0 && s.get_char(0) == '-' {
        assert(s@.subrange(1, s@.len() as int) =~= s@.drop_first());
        match digits_from(s, 1, 0x8000_0000_0000_0000u64) {
            Some(m) => {
                if m == 0x8000_0000_0000_0000u64 {
                    Some(i64::MIN)
                } else {
                    Some(-(m as i64))
                }
            },
            None => None,
        }
    } else {
        let start = unsigned_digits_start(s);
        proof {
            lemma_unsigned_digits(s@, start as int);
        }
        match digits_from(s, start, i64::MAX as u64) {
            Some(v) => Some(v as i64),
            None => None,
        }
    }
}

} // verus!
