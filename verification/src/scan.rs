//! Lexical ground layer of the markup parser: byte classes, whitespace and
//! digit runs, and decimal number parsing, each with an exact mathematical
//! mirror.

use vstd::prelude::*;

verus! {

/// ASCII whitespace accepted between tokens: space, tab, line feed,
/// carriage return.
pub open spec fn is_ws(b: u8) -> bool {
    b == 32 || b == 9 || b == 10 || b == 13
}

/// Executable counterpart of [`is_ws`].
pub fn ws_byte(b: u8) -> (r: bool)
    ensures
        r == is_ws(b),
{
    b == 32 || b == 9 || b == 10 || b == 13
}

/// ASCII decimal digit.
pub open spec fn is_digit(b: u8) -> bool {
    48 <= b <= 57
}

/// Executable counterpart of [`is_digit`].
pub fn digit_byte(b: u8) -> (r: bool)
    ensures
        r == is_digit(b),
{
    48 <= b && b <= 57
}

/// Bytes allowed in element and attribute names: ASCII letters and
/// underscore.
pub open spec fn is_snake(b: u8) -> bool {
    (97 <= b <= 122) || (65 <= b <= 90) || b == 95
}

/// Executable counterpart of [`is_snake`].
pub fn snake_byte(b: u8) -> (r: bool)
    ensures
        r == is_snake(b),
{
    (97 <= b && b <= 122) || (65 <= b && b <= 90) || b == 95
}

/// ASCII hexadecimal digit.
pub open spec fn is_hex_digit_spec(b: u8) -> bool {
    (48 <= b <= 57) || (97 <= b <= 102) || (65 <= b <= 70)
}

/// Whether a byte is an ASCII hexadecimal digit.
pub fn is_hex_digit(b: u8) -> (r: bool)
    ensures
        r == is_hex_digit_spec(b),
{
    (48 <= b && b <= 57) || (97 <= b && b <= 102) || (65 <= b && b <= 70)
}

/// The value of one hexadecimal digit.
pub open spec fn spec_hex_val(b: u8) -> int {
    if 48 <= b <= 57 {
        b - 48
    } else if 97 <= b <= 102 {
        b - 97 + 10
    } else {
        b - 65 + 10
    }
}

/// Executable counterpart of [`spec_hex_val`].
pub fn hex_val(b: u8) -> (r: u8)
    requires
        is_hex_digit_spec(b),
    ensures
        r as int == spec_hex_val(b),
        r < 16,
{
    if 48 <= b && b <= 57 {
        b - 48
    } else if 97 <= b && b <= 102 {
        b - 97 + 10
    } else {
        b - 65 + 10
    }
}

/// The first position at or after `i` that does not hold whitespace.
pub open spec fn spec_skip_ws(s: Seq<u8>, i: int) -> int
    decreases s.len() - i when 0 <= i <= s.len()
{
    if i < s.len() && is_ws(s[i]) {
        spec_skip_ws(s, i + 1)
    } else {
        i
    }
}

pub proof fn lemma_skip_ws_bounds(s: Seq<u8>, i: int)
    requires
        0 <= i <= s.len(),
    ensures
        i <= spec_skip_ws(s, i) <= s.len(),
        spec_skip_ws(s, i) < s.len() ==> !is_ws(s[spec_skip_ws(s, i)]),
    decreases s.len() - i,
{
    if i < s.len() && is_ws(s[i]) {
        lemma_skip_ws_bounds(s, i + 1);
    }
}

/// Executable counterpart of [`spec_skip_ws`].
pub fn skip_ws(s: &[u8], i: usize) -> (r: usize)
    requires
        i <= s@.len(),
    ensures
        r == spec_skip_ws(s@, i as int),
        i <= r <= s@.len(),
{
    let mut j: usize = i;
    while j < s.len() && ws_byte(s[j])
        invariant
            i <= j <= s@.len(),
            spec_skip_ws(s@, i as int) == spec_skip_ws(s@, j as int),
        decreases s@.len() - j,
    {
        j = j + 1;
    }
    proof {
        lemma_skip_ws_bounds(s@, j as int);
    }
    j
}

/// The end of the run of bytes satisfying a class, starting at `i`. The
/// class is given by its spec predicate through the two boolean flags used
/// below; separate run functions keep the mirrors first-order.
pub open spec fn spec_digits_end(s: Seq<u8>, i: int) -> int
    decreases s.len() - i when 0 <= i <= s.len()
{
    if i < s.len() && is_digit(s[i]) {
        spec_digits_end(s, i + 1)
    } else {
        i
    }
}

pub proof fn lemma_digits_end_bounds(s: Seq<u8>, i: int)
    requires
        0 <= i <= s.len(),
    ensures
        i <= spec_digits_end(s, i) <= s.len(),
        forall|k: int| i <= k < spec_digits_end(s, i) ==> is_digit(s[k]),
        spec_digits_end(s, i) < s.len() ==> !is_digit(s[spec_digits_end(s, i)]),
    decreases s.len() - i,
{
    if i < s.len() && is_digit(s[i]) {
        lemma_digits_end_bounds(s, i + 1);
    }
}

/// Executable counterpart of [`spec_digits_end`].
pub fn digits_end(s: &[u8], i: usize) -> (r: usize)
    requires
        i <= s@.len(),
    ensures
        r == spec_digits_end(s@, i as int),
        i <= r <= s@.len(),
{
    let mut j: usize = i;
    while j < s.len() && digit_byte(s[j])
        invariant
            i <= j <= s@.len(),
            spec_digits_end(s@, i as int) == spec_digits_end(s@, j as int),
        decreases s@.len() - j,
    {
        j = j + 1;
    }
    proof {
        lemma_digits_end_bounds(s@, j as int);
    }
    j
}

/// The end of the run of name bytes starting at `i`.
pub open spec fn spec_snake_end(s: Seq<u8>, i: int) -> int
    decreases s.len() - i when 0 <= i <= s.len()
{
    if i < s.len() && is_snake(s[i]) {
        spec_snake_end(s, i + 1)
    } else {
        i
    }
}

pub proof fn lemma_snake_end_bounds(s: Seq<u8>, i: int)
    requires
        0 <= i <= s.len(),
    ensures
        i <= spec_snake_end(s, i) <= s.len(),
    decreases s.len() - i,
{
    if i < s.len() && is_snake(s[i]) {
        lemma_snake_end_bounds(s, i + 1);
    }
}

/// Executable counterpart of [`spec_snake_end`].
pub fn snake_end(s: &[u8], i: usize) -> (r: usize)
    requires
        i <= s@.len(),
    ensures
        r == spec_snake_end(s@, i as int),
        i <= r <= s@.len(),
{
    let mut j: usize = i;
    while j < s.len() && snake_byte(s[j])
        invariant
            i <= j <= s@.len(),
            spec_snake_end(s@, i as int) == spec_snake_end(s@, j as int),
        decreases s@.len() - j,
    {
        j = j + 1;
    }
    proof {
        lemma_snake_end_bounds(s@, j as int);
    }
    j
}

/// The end of the run of non-whitespace bytes starting at `i`.
pub open spec fn spec_nonws_end(s: Seq<u8>, i: int) -> int
    decreases s.len() - i when 0 <= i <= s.len()
{
    if i < s.len() && !is_ws(s[i]) {
        spec_nonws_end(s, i + 1)
    } else {
        i
    }
}

pub proof fn lemma_nonws_end_bounds(s: Seq<u8>, i: int)
    requires
        0 <= i <= s.len(),
    ensures
        i <= spec_nonws_end(s, i) <= s.len(),
    decreases s.len() - i,
{
    if i < s.len() && !is_ws(s[i]) {
        lemma_nonws_end_bounds(s, i + 1);
    }
}

/// Executable counterpart of [`spec_nonws_end`].
pub fn nonws_end(s: &[u8], i: usize) -> (r: usize)
    requires
        i <= s@.len(),
    ensures
        r == spec_nonws_end(s@, i as int),
        i <= r <= s@.len(),
{
    let mut j: usize = i;
    while j < s.len() && !ws_byte(s[j])
        invariant
            i <= j <= s@.len(),
            spec_nonws_end(s@, i as int) == spec_nonws_end(s@, j as int),
        decreases s@.len() - j,
    {
        j = j + 1;
    }
    proof {
        lemma_nonws_end_bounds(s@, j as int);
    }
    j
}

/// The end of the run of hexadecimal digits starting at `i`.
pub open spec fn spec_hex_end(s: Seq<u8>, i: int) -> int
    decreases s.len() - i when 0 <= i <= s.len()
{
    if i < s.len() && is_hex_digit_spec(s[i]) {
        spec_hex_end(s, i + 1)
    } else {
        i
    }
}

pub proof fn lemma_hex_end_bounds(s: Seq<u8>, i: int)
    requires
        0 <= i <= s.len(),
    ensures
        i <= spec_hex_end(s, i) <= s.len(),
        forall|k: int| i <= k < spec_hex_end(s, i) ==> is_hex_digit_spec(s[k]),
    decreases s.len() - i,
{
    if i < s.len() && is_hex_digit_spec(s[i]) {
        lemma_hex_end_bounds(s, i + 1);
    }
}

/// Executable counterpart of [`spec_hex_end`].
pub fn hex_end(s: &[u8], i: usize) -> (r: usize)
    requires
        i <= s@.len(),
    ensures
        r == spec_hex_end(s@, i as int),
        i <= r <= s@.len(),
{
    let mut j: usize = i;
    while j < s.len() && is_hex_digit(s[j])
        invariant
            i <= j <= s@.len(),
            spec_hex_end(s@, i as int) == spec_hex_end(s@, j as int),
        decreases s@.len() - j,
    {
        j = j + 1;
    }
    proof {
        lemma_hex_end_bounds(s@, j as int);
    }
    j
}

/// Whether `pat` occurs in `s` starting at position `i`.
pub open spec fn spec_match_at(s: Seq<u8>, i: int, pat: Seq<u8>) -> bool {
    0 <= i && i + pat.len() <= s.len() && s.subrange(i, i + pat.len()) == pat
}

/// The first position at or after `i` where `pat` occurs.
pub open spec fn spec_find(s: Seq<u8>, i: int, pat: Seq<u8>) -> Option<int>
    decreases s.len() - i when 0 <= i <= s.len() && 1 <= pat.len()
{
    if i + pat.len() > s.len() {
        Option::None
    } else if spec_match_at(s, i, pat) {
        Option::Some(i)
    } else {
        spec_find(s, i + 1, pat)
    }
}

pub proof fn lemma_find_bounds(s: Seq<u8>, i: int, pat: Seq<u8>)
    requires
        0 <= i <= s.len(),
        1 <= pat.len(),
    ensures
        match spec_find(s, i, pat) {
            Option::Some(j) => i <= j && j + pat.len() <= s.len() && spec_match_at(s, j, pat),
            Option::None => true,
        },
    decreases s.len() - i,
{
    if i + pat.len() > s.len() {
    } else if spec_match_at(s, i, pat) {
    } else {
        lemma_find_bounds(s, i + 1, pat);
    }
}

/// Whether `pat` starts at position `i` of `s`.
pub fn match_at(s: &[u8], i: usize, pat: &[u8]) -> (r: bool)
    requires
        i <= s@.len(),
    ensures
        r == spec_match_at(s@, i as int, pat@),
{
    if pat.len() > s.len() - i {
        return false;
    }
    let mut k: usize = 0;
    while k < pat.len()
        invariant
            0 <= k <= pat@.len(),
            i + pat@.len() <= s@.len(),
            s@.len() <= usize::MAX,
            forall|m: int| 0 <= m < k ==> s@[i + m] == pat@[m],
        decreases pat@.len() - k,
    {
        if s[i + k] != pat[k] {
            return false;
        }
        k = k + 1;
    }
    proof {
        assert(s@.subrange(i as int, i as int + pat@.len()) =~= pat@);
    }
    true
}

/// Executable counterpart of [`spec_find`].
pub fn find_at(s: &[u8], i: usize, pat: &[u8]) -> (r: Option<usize>)
    requires
        i <= s@.len(),
        1 <= pat@.len(),
    ensures
        match r {
            Some(j) => {
                &&& spec_find(s@, i as int, pat@) == Option::Some(j as int)
                &&& i <= j
                &&& j + pat@.len() <= s@.len()
                &&& spec_match_at(s@, j as int, pat@)
            },
            None => spec_find(s@, i as int, pat@) is None,
        },
{
    if pat.len() > s.len() || i > s.len() - pat.len() {
        return None;
    }
    let limit = s.len() - pat.len();
    let mut j: usize = i;
    while j <= limit
        invariant
            i <= j <= limit + 1,
            limit + pat@.len() == s@.len(),
            s@.len() <= usize::MAX,
            pat@.len() >= 1,
            spec_find(s@, i as int, pat@) == spec_find(s@, j as int, pat@),
        decreases limit + 1 - j,
    {
        if match_at(s, j, pat) {
            return Some(j);
        }
        j = j + 1;
    }
    None
}

/// The first position in `a ..= e` holding a non-whitespace byte, `e` if
/// none.
pub open spec fn spec_ltrim_at(s: Seq<u8>, a: int, e: int) -> int
    decreases e - a when 0 <= a <= e <= s.len()
{
    if a < e && is_ws(s[a]) {
        spec_ltrim_at(s, a + 1, e)
    } else {
        a
    }
}

pub proof fn lemma_ltrim_at_bounds(s: Seq<u8>, a: int, e: int)
    requires
        0 <= a <= e <= s.len(),
    ensures
        a <= spec_ltrim_at(s, a, e) <= e,
    decreases e - a,
{
    if a < e && is_ws(s[a]) {
        lemma_ltrim_at_bounds(s, a + 1, e);
    }
}

/// Executable counterpart of [`spec_ltrim_at`].
pub fn ltrim_at(s: &[u8], a: usize, e: usize) -> (r: usize)
    requires
        a <= e <= s@.len(),
    ensures
        r == spec_ltrim_at(s@, a as int, e as int),
        a <= r <= e,
{
    let mut j: usize = a;
    while j < e && ws_byte(s[j])
        invariant
            a <= j <= e <= s@.len(),
            spec_ltrim_at(s@, a as int, e as int) == spec_ltrim_at(s@, j as int, e as int),
        decreases e - j,
    {
        j = j + 1;
    }
    proof {
        lemma_ltrim_at_bounds(s@, j as int, e as int);
    }
    j
}

/// The position after the last non-whitespace byte in `a ..= e`, `a` if
/// none.
pub open spec fn spec_rtrim_at(s: Seq<u8>, a: int, e: int) -> int
    decreases e - a when 0 <= a <= e <= s.len()
{
    if e > a && is_ws(s[e - 1]) {
        spec_rtrim_at(s, a, e - 1)
    } else {
        e
    }
}

pub proof fn lemma_rtrim_at_bounds(s: Seq<u8>, a: int, e: int)
    requires
        0 <= a <= e <= s.len(),
    ensures
        a <= spec_rtrim_at(s, a, e) <= e,
    decreases e - a,
{
    if e > a && is_ws(s[e - 1]) {
        lemma_rtrim_at_bounds(s, a, e - 1);
    }
}

/// Executable counterpart of [`spec_rtrim_at`].
pub fn rtrim_at(s: &[u8], a: usize, e: usize) -> (r: usize)
    requires
        a <= e <= s@.len(),
    ensures
        r == spec_rtrim_at(s@, a as int, e as int),
        a <= r <= e,
{
    let mut j: usize = e;
    while j > a && ws_byte(s[j - 1])
        invariant
            a <= j <= e <= s@.len(),
            spec_rtrim_at(s@, a as int, e as int) == spec_rtrim_at(s@, a as int, j as int),
        decreases j,
    {
        j = j - 1;
    }
    proof {
        lemma_rtrim_at_bounds(s@, a as int, j as int);
    }
    j
}

/// The first position at or after `i` holding the byte `b`.
pub fn find_byte(s: &[u8], i: usize, b: u8) -> (r: Option<usize>)
    requires
        i <= s@.len(),
    ensures
        match r {
            Some(j) => {
                &&& spec_find(s@, i as int, seq![b]) == Option::Some(j as int)
                &&& i <= j < s@.len()
                &&& s@[j as int] == b
            },
            None => spec_find(s@, i as int, seq![b]) is None,
        },
{
    let mut j: usize = i;
    while j < s.len()
        invariant
            i <= j <= s@.len(),
            spec_find(s@, i as int, seq![b]) == spec_find(s@, j as int, seq![b]),
        decreases s@.len() - j,
    {
        if s[j] == b {
            proof {
                assert(s@.subrange(j as int, j as int + 1) =~= seq![b]);
            }
            return Some(j);
        }
        proof {
            assert(s@.subrange(j as int, j as int + 1) != seq![b]) by {
                if s@.subrange(j as int, j as int + 1) == seq![b] {
                    assert(s@.subrange(j as int, j as int + 1)[0] == seq![b][0]);
                }
            }
        }
        j = j + 1;
    }
    None
}

/// The number a run of decimal digits denotes, most significant first.
pub open spec fn spec_digits_value(s: Seq<u8>) -> int
    decreases s.len(),
{
    if s.len() == 0 {
        0
    } else {
        spec_digits_value(s.drop_last()) * 10 + (s.last() - 48)
    }
}

/// Ten to the `n`.
pub open spec fn pow10(n: nat) -> int
    decreases n,
{
    if n == 0 {
        1
    } else {
        10 * pow10((n - 1) as nat)
    }
}

/// A run of `n` digits denotes a value below ten to the `n`.
pub proof fn lemma_digits_value_bound(s: Seq<u8>)
    requires
        forall|k: int| 0 <= k < s.len() ==> is_digit(s[k]),
    ensures
        0 <= spec_digits_value(s) < pow10(s.len()),
    decreases s.len(),
{
    if s.len() > 0 {
        lemma_digits_value_bound(s.drop_last());
    }
}

/// At most this many digits are read for the whole-number part of any
/// decimal literal; the bound keeps every value inside an `i64` scalar.
pub const MAX_INT_DIGITS: usize = 15;

/// Parses the digit run starting at `i` into its value, together with the
/// end of the run. Fails when the run is empty or longer than
/// [`MAX_INT_DIGITS`].
pub fn parse_digits(s: &[u8], i: usize) -> (r: Option<(u64, usize)>)
    requires
        i <= s@.len(),
    ensures
        match r {
            Some((v, j)) => {
                &&& j == spec_digits_end(s@, i as int)
                &&& i < j
                &&& j - i <= 15
                &&& v as int == spec_digits_value(s@.subrange(i as int, j as int))
                &&& v < 1_000_000_000_000_000
            },
            None => spec_digits_end(s@, i as int) == i || spec_digits_end(s@, i as int) - i > 15,
        },
{
    let end = digits_end(s, i);
    if end == i || end - i > MAX_INT_DIGITS {
        return None;
    }
    proof {
        lemma_digits_end_bounds(s@, i as int);
    }
    let mut v: u64 = 0;
    let mut j: usize = i;
    while j < end
        invariant
            i <= j <= end <= s@.len(),
            end - i <= 15,
            end == spec_digits_end(s@, i as int),
            forall|k: int| i <= k < end ==> is_digit(s@[k]),
            v as int == spec_digits_value(s@.subrange(i as int, j as int)),
            (v as int) < pow10((j - i) as nat),
        decreases end - j,
    {
        proof {
            let pre = s@.subrange(i as int, j as int);
            let post = s@.subrange(i as int, j as int + 1);
            assert(post.drop_last() =~= pre);
            lemma_pow10_mono((j - i) as nat, 14);
            reveal_with_fuel(pow10, 16);
        }
        v = v * 10 + ((s[j] - 48) as u64);
        j = j + 1;
    }
    proof {
        lemma_pow10_mono((end - i) as nat, 15);
        reveal_with_fuel(pow10, 16);
    }
    Some((v, end))
}

/// `pow10` grows with its exponent.
pub proof fn lemma_pow10_mono(a: nat, b: nat)
    requires
        a <= b,
    ensures
        pow10(a) <= pow10(b),
        pow10(a) >= 1,
    decreases b,
{
    if a == b {
        if a > 0 {
            lemma_pow10_mono((a - 1) as nat, (b - 1) as nat);
        }
    } else {
        lemma_pow10_mono(a, (b - 1) as nat);
    }
}

/// The milli value of up to three fractional digits (the fourth and later
/// digits are ignored: scalars hold thousandths exactly).
pub open spec fn spec_frac_milli(s: Seq<u8>) -> int {
    if s.len() == 0 {
        0
    } else if s.len() == 1 {
        (s[0] - 48) * 100
    } else if s.len() == 2 {
        (s[0] - 48) * 100 + (s[1] - 48) * 10
    } else {
        (s[0] - 48) * 100 + (s[1] - 48) * 10 + (s[2] - 48)
    }
}

/// A parsed decimal literal: its value in thousandths and the position
/// just past it.
pub struct NumToken {
    pub milli: i64,
    pub end: usize,
}

/// The mathematical mirror of [`parse_number_at`]: an optional sign, a
/// whole part, and an optional fractional part, at least one digit in all;
/// fractional digits beyond the third are read but ignored.
pub open spec fn spec_parse_number_at(s: Seq<u8>, i: int) -> Option<(int, int)> {
    if i >= s.len() {
        Option::None
    } else {
        let (neg, j) = if s[i] == 45 {
            (true, i + 1)
        } else if s[i] == 43 {
            (false, i + 1)
        } else {
            (false, i)
        };
        let d1 = spec_digits_end(s, j);
        let int_val = spec_digits_value(s.subrange(j, d1));
        if d1 - j > 15 {
            Option::None
        } else if d1 < s.len() && s[d1] == 46 {
            let d2 = spec_digits_end(s, d1 + 1);
            if d1 == j && d2 == d1 + 1 {
                Option::None
            } else {
                let frac_end = if d2 > d1 + 4 {
                    d1 + 4
                } else {
                    d2
                };
                let milli = int_val * 1000 + spec_frac_milli(s.subrange(d1 + 1, frac_end));
                Option::Some(
                    (
                        if neg {
                            -milli
                        } else {
                            milli
                        },
                        d2,
                    ),
                )
            }
        } else if d1 == j {
            Option::None
        } else {
            let milli = int_val * 1000;
            Option::Some(
                (
                    if neg {
                        -milli
                    } else {
                        milli
                    },
                    d1,
                ),
            )
        }
    }
}

/// Parses the decimal literal starting exactly at `i` (no leading
/// whitespace) into a thousandth-scaled scalar.
#[verifier::rlimit(50)]
pub fn parse_number_at(s: &[u8], i: usize) -> (r: Option<NumToken>)
    requires
        i <= s@.len(),
    ensures
        match r {
            Some(t) => {
                &&& spec_parse_number_at(s@, i as int) == Option::Some(
                    (t.milli as int, t.end as int),
                )
                &&& i < t.end <= s@.len()
            },
            None => spec_parse_number_at(s@, i as int) is None,
        },
{
    if i >= s.len() {
        return None;
    }
    let (neg, j) = if s[i] == 45 {
        (true, i + 1)
    } else if s[i] == 43 {
        (false, i + 1)
    } else {
        (false, i)
    };
    let d1 = digits_end(s, j);
    proof {
        lemma_digits_end_bounds(s@, j as int);
    }
    if d1 - j > MAX_INT_DIGITS {
        return None;
    }
    let int_val: u64 = if d1 == j {
        0
    } else {
        match parse_digits(s, j) {
            Some((v, _)) => v,
            None => {
                return None;
            },
        }
    };
    proof {
        if d1 == j {
            assert(s@.subrange(j as int, d1 as int) =~= Seq::<u8>::empty());
        }
        assert(int_val as int == spec_digits_value(s@.subrange(j as int, d1 as int)));
    }
    if d1 < s.len() && s[d1] == 46 {
        let d2 = digits_end(s, d1 + 1);
        proof {
            lemma_digits_end_bounds(s@, d1 as int + 1);
        }
        if d1 == j && d2 == d1 + 1 {
            return None;
        }
        let frac_end = if d2 - (d1 + 1) > 3 {
            d1 + 4
        } else {
            d2
        };
        let fstart = d1 + 1;
        let frac_len = frac_end - fstart;
        let mut frac: u64 = 0;
        if frac_len > 0 {
            frac = frac + ((s[fstart] - 48) as u64) * 100;
        }
        if frac_len > 1 {
            frac = frac + ((s[fstart + 1] - 48) as u64) * 10;
        }
        if frac_len > 2 {
            frac = frac + ((s[fstart + 2] - 48) as u64);
        }
        proof {
            assert(frac as int == spec_frac_milli(s@.subrange(d1 as int + 1, frac_end as int)));
        }
        let milli_mag: u64 = int_val * 1000 + frac;
        let milli: i64 = if neg {
            -(milli_mag as i64)
        } else {
            milli_mag as i64
        };
        Some(NumToken { milli, end: d2 })
    } else if d1 == j {
        None
    } else {
        let milli_mag: u64 = int_val * 1000;
        let milli: i64 = if neg {
            -(milli_mag as i64)
        } else {
            milli_mag as i64
        };
        Some(NumToken { milli, end: d1 })
    }
}

} // verus!
