//! The per-field micro-grammars of style attribute values: lengths,
//! colors, durations, rectangles, atlas descriptors, grid tracks, and the
//! composite fields built from them. Every parser has an exact
//! mathematical mirror; a value is accepted exactly when the mirror
//! accepts it. Each grammar consumes its whole value: trailing bytes
//! after a valid prefix are a deliberate hard error, not ignored.

use vstd::prelude::*;
use vstd::string::StringSliceAdditionalSpecFns;
use crate::scan::spec_skip_ws;
use crate::scan::spec_nonws_end;
use crate::scan::spec_parse_number_at;
use crate::scan::skip_ws;
use crate::scan::nonws_end;
use crate::scan::parse_number_at;
use crate::util::slice_eq_bytes;
use crate::style::Num;
use crate::style::Val;

verus! {

/// The single non-whitespace token of a value, when the value holds
/// exactly one.
pub open spec fn spec_single_token(s: Seq<u8>) -> Option<Seq<u8>> {
    let st = spec_skip_ws(s, 0);
    let en = spec_nonws_end(s, st);
    if st < en && spec_skip_ws(s, en) == s.len() {
        Option::Some(s.subrange(st, en))
    } else {
        Option::None
    }
}

/// Executable counterpart of [`spec_single_token`]: the token's byte
/// range.
pub fn single_token(s: &[u8]) -> (r: Option<(usize, usize)>)
    ensures
        match r {
            Some((st, en)) => {
                &&& st < en <= s@.len()
                &&& spec_single_token(s@) == Option::Some(s@.subrange(st as int, en as int))
            },
            None => spec_single_token(s@) is None,
        },
{
    let st = skip_ws(s, 0);
    let en = nonws_end(s, st);
    if st < en && skip_ws(s, en) == s.len() {
        Some((st, en))
    } else {
        None
    }
}

/// The two whitespace-separated tokens of a value, when it holds exactly
/// two.
pub open spec fn spec_two_tokens(s: Seq<u8>) -> Option<(Seq<u8>, Seq<u8>)> {
    let st1 = spec_skip_ws(s, 0);
    let en1 = spec_nonws_end(s, st1);
    let st2 = spec_skip_ws(s, en1);
    let en2 = spec_nonws_end(s, st2);
    if st1 < en1 && st2 < en2 && spec_skip_ws(s, en2) == s.len() {
        Option::Some((s.subrange(st1, en1), s.subrange(st2, en2)))
    } else {
        Option::None
    }
}

/// Executable counterpart of [`spec_two_tokens`]: the two byte ranges.
pub fn two_tokens(s: &[u8]) -> (r: Option<((usize, usize), (usize, usize))>)
    ensures
        match r {
            Some(((a1, b1), (a2, b2))) => {
                &&& a1 < b1 <= a2 && a2 < b2 <= s@.len()
                &&& spec_two_tokens(s@) == Option::Some(
                    (s@.subrange(a1 as int, b1 as int), s@.subrange(a2 as int, b2 as int)),
                )
            },
            None => spec_two_tokens(s@) is None,
        },
{
    let st1 = skip_ws(s, 0);
    let en1 = nonws_end(s, st1);
    let st2 = skip_ws(s, en1);
    let en2 = nonws_end(s, st2);
    if st1 < en1 && st2 < en2 && skip_ws(s, en2) == s.len() {
        Some(((st1, en1), (st2, en2)))
    } else {
        None
    }
}

/// The length grammar on one bare token: `auto`, the literal `0` (zero
/// pixels), or a decimal number followed by one of `px`, `%`, `vw`, `vh`,
/// `vmin`, `vmax`.
pub open spec fn spec_val_token(t: Seq<u8>) -> Option<Val> {
    if t == "auto".spec_bytes() {
        Option::Some(Val::Auto)
    } else if t == "0".spec_bytes() {
        Option::Some(Val::Px(Num { milli: 0 }))
    } else {
        match spec_parse_number_at(t, 0) {
            Option::Some((m, j)) => {
                let u = t.subrange(j, t.len() as int);
                if u == "px".spec_bytes() {
                    Option::Some(Val::Px(Num { milli: m as i64 }))
                } else if u == "%".spec_bytes() {
                    Option::Some(Val::Percent(Num { milli: m as i64 }))
                } else if u == "vw".spec_bytes() {
                    Option::Some(Val::Vw(Num { milli: m as i64 }))
                } else if u == "vh".spec_bytes() {
                    Option::Some(Val::Vh(Num { milli: m as i64 }))
                } else if u == "vmin".spec_bytes() {
                    Option::Some(Val::VMin(Num { milli: m as i64 }))
                } else if u == "vmax".spec_bytes() {
                    Option::Some(Val::VMax(Num { milli: m as i64 }))
                } else {
                    Option::None
                }
            },
            Option::None => Option::None,
        }
    }
}

/// Executable counterpart of [`spec_val_token`].
pub fn val_token(t: &[u8]) -> (r: Option<Val>)
    ensures
        r == spec_val_token(t@),
{
    if slice_eq_bytes(t, "auto".as_bytes()) {
        return Some(Val::Auto);
    }
    if slice_eq_bytes(t, "0".as_bytes()) {
        return Some(Val::Px(Num { milli: 0 }));
    }
    match parse_number_at(t, 0) {
        Some(tok) => {
            let u: &[u8] = &t[tok.end..t.len()];
            proof {
                assert(u@ =~= t@.subrange(tok.end as int, t@.len() as int));
            }
            if slice_eq_bytes(u, "px".as_bytes()) {
                Some(Val::Px(Num { milli: tok.milli }))
            } else if slice_eq_bytes(u, "%".as_bytes()) {
                Some(Val::Percent(Num { milli: tok.milli }))
            } else if slice_eq_bytes(u, "vw".as_bytes()) {
                Some(Val::Vw(Num { milli: tok.milli }))
            } else if slice_eq_bytes(u, "vh".as_bytes()) {
                Some(Val::Vh(Num { milli: tok.milli }))
            } else if slice_eq_bytes(u, "vmin".as_bytes()) {
                Some(Val::VMin(Num { milli: tok.milli }))
            } else if slice_eq_bytes(u, "vmax".as_bytes()) {
                Some(Val::VMax(Num { milli: tok.milli }))
            } else {
                None
            }
        },
        None => None,
    }
}

/// The length grammar on a whole attribute value: one token of
/// [`spec_val_token`], surrounded by optional whitespace.
pub open spec fn spec_parse_val(s: Seq<u8>) -> Option<Val> {
    match spec_single_token(s) {
        Option::Some(t) => spec_val_token(t),
        Option::None => Option::None,
    }
}

/// Parses one length value; accepts exactly what [`spec_parse_val`]
/// accepts.
pub fn parse_val(s: &[u8]) -> (r: Option<Val>)
    ensures
        r == spec_parse_val(s@),
{
    match single_token(s) {
        Some((st, en)) => val_token(&s[st..en]),
        None => None,
    }
}

/// A channel from a `rgb()`/`rgba()` component: the component is written
/// as a fraction of one, clamped to `[0, 1]`, and scaled to `0 ..= 255`.
pub open spec fn spec_channel_of_milli(m: int) -> int {
    if m < 0 {
        0
    } else if m > 1000 {
        255
    } else {
        m * 255 / 1000
    }
}

/// Executable counterpart of [`spec_channel_of_milli`].
pub fn channel_of_milli(m: i64) -> (r: u8)
    ensures
        r as int == spec_channel_of_milli(m as int),
{
    if m < 0 {
        0
    } else if m > 1000 {
        255
    } else {
        proof {
            assert((m as int) * 255 / 1000 <= 255 && (m as int) * 255 / 1000 >= 0)
                by (nonlinear_arith)
                requires
                    0 <= m as int <= 1000,
            ;
        }
        ((m * 255) / 1000) as u8
    }
}

/// One color component inside `rgb()`/`rgba()`: optional whitespace, then
/// a decimal number; yields the channel and the position after the number.
pub open spec fn spec_color_component(s: Seq<u8>, i: int) -> Option<(int, int)> {
    let st = spec_skip_ws(s, i);
    match spec_parse_number_at(s, st) {
        Option::Some((m, j)) => Option::Some((spec_channel_of_milli(m), j)),
        Option::None => Option::None,
    }
}

/// Executable counterpart of [`spec_color_component`].
pub fn color_component(s: &[u8], i: usize) -> (r: Option<(u8, usize)>)
    requires
        i <= s@.len(),
    ensures
        match r {
            Some((ch, j)) => {
                &&& spec_color_component(s@, i as int) == Option::Some((ch as int, j as int))
                &&& i <= j <= s@.len()
            },
            None => spec_color_component(s@, i as int) is None,
        },
{
    let st = skip_ws(s, i);
    match parse_number_at(s, st) {
        Some(tok) => Some((channel_of_milli(tok.milli), tok.end)),
        None => None,
    }
}

/// The value of two hexadecimal digits at `p`.
pub open spec fn spec_hex_pair(s: Seq<u8>, p: int) -> int {
    crate::scan::spec_hex_val(s[p]) * 16 + crate::scan::spec_hex_val(s[p + 1])
}

/// The value of one hexadecimal digit at `p`, duplicated (`F` reads as
/// `FF`).
pub open spec fn spec_hex_dup(s: Seq<u8>, p: int) -> int {
    crate::scan::spec_hex_val(s[p]) * 17
}

/// The color grammar, starting at `i` and consuming the rest of the
/// value: `#RGB`, `#RGBA`, `#RRGGBB`, `#RRGGBBAA` with single digits
/// duplicated, or `rgb(r,g,b)` / `rgba(r,g,b,a)` with components as
/// fractions of one; whitespace is allowed around every token.
pub open spec fn spec_color_at(s: Seq<u8>, i: int) -> Option<crate::style::UiColor> {
    let st = spec_skip_ws(s, i);
    if st < s.len() && s[st] == 35 {
        let he = crate::scan::spec_hex_end(s, st + 1);
        let n = he - (st + 1);
        if spec_skip_ws(s, he) != s.len() {
            Option::None
        } else if n == 3 {
            Option::Some(
                crate::style::UiColor {
                    r: spec_hex_dup(s, st + 1) as u8,
                    g: spec_hex_dup(s, st + 2) as u8,
                    b: spec_hex_dup(s, st + 3) as u8,
                    a: 255,
                },
            )
        } else if n == 4 {
            Option::Some(
                crate::style::UiColor {
                    r: spec_hex_dup(s, st + 1) as u8,
                    g: spec_hex_dup(s, st + 2) as u8,
                    b: spec_hex_dup(s, st + 3) as u8,
                    a: spec_hex_dup(s, st + 4) as u8,
                },
            )
        } else if n == 6 {
            Option::Some(
                crate::style::UiColor {
                    r: spec_hex_pair(s, st + 1) as u8,
                    g: spec_hex_pair(s, st + 3) as u8,
                    b: spec_hex_pair(s, st + 5) as u8,
                    a: 255,
                },
            )
        } else if n == 8 {
            Option::Some(
                crate::style::UiColor {
                    r: spec_hex_pair(s, st + 1) as u8,
                    g: spec_hex_pair(s, st + 3) as u8,
                    b: spec_hex_pair(s, st + 5) as u8,
                    a: spec_hex_pair(s, st + 7) as u8,
                },
            )
        } else {
            Option::None
        }
    } else if st + 5 <= s.len() && s.subrange(st, st + 5) == "rgba(".spec_bytes() {
        spec_rgb_tail(s, st + 5, true)
    } else if st + 4 <= s.len() && s.subrange(st, st + 4) == "rgb(".spec_bytes() {
        spec_rgb_tail(s, st + 4, false)
    } else {
        Option::None
    }
}

/// The component list of `rgb()`/`rgba()` after the opening parenthesis:
/// three components, a fourth when `alpha` is set, commas between them,
/// a closing parenthesis, and nothing but whitespace after.
pub open spec fn spec_rgb_tail(s: Seq<u8>, i: int, alpha: bool) -> Option<crate::style::UiColor> {
    match spec_color_component(s, i) {
        Option::Some((r, j1)) => {
            let c1 = spec_skip_ws(s, j1);
            if c1 < s.len() && s[c1] == 44 {
                match spec_color_component(s, c1 + 1) {
                    Option::Some((g, j2)) => {
                        let c2 = spec_skip_ws(s, j2);
                        if c2 < s.len() && s[c2] == 44 {
                            match spec_color_component(s, c2 + 1) {
                                Option::Some((b, j3)) => {
                                    if alpha {
                                        let c3 = spec_skip_ws(s, j3);
                                        if c3 < s.len() && s[c3] == 44 {
                                            match spec_color_component(s, c3 + 1) {
                                                Option::Some((a, j4)) => spec_rgb_close(
                                                    s,
                                                    j4,
                                                    r,
                                                    g,
                                                    b,
                                                    a,
                                                ),
                                                Option::None => Option::None,
                                            }
                                        } else {
                                            Option::None
                                        }
                                    } else {
                                        spec_rgb_close(s, j3, r, g, b, 255)
                                    }
                                },
                                Option::None => Option::None,
                            }
                        } else {
                            Option::None
                        }
                    },
                    Option::None => Option::None,
                }
            } else {
                Option::None
            }
        },
        Option::None => Option::None,
    }
}

/// The closing parenthesis of `rgb()`/`rgba()` and the trailing
/// whitespace check.
pub open spec fn spec_rgb_close(
    s: Seq<u8>,
    i: int,
    r: int,
    g: int,
    b: int,
    a: int,
) -> Option<crate::style::UiColor> {
    let c = spec_skip_ws(s, i);
    if c < s.len() && s[c] == 41 && spec_skip_ws(s, c + 1) == s.len() {
        Option::Some(
            crate::style::UiColor { r: r as u8, g: g as u8, b: b as u8, a: a as u8 },
        )
    } else {
        Option::None
    }
}

/// Parses a color value from `i` to the end; accepts exactly what
/// [`spec_color_at`] accepts.
pub fn parse_color_at(s: &[u8], i: usize) -> (r: Option<crate::style::UiColor>)
    requires
        i <= s@.len(),
    ensures
        r == spec_color_at(s@, i as int),
{
    let st = skip_ws(s, i);
    if st < s.len() && s[st] == 35 {
        let he = crate::scan::hex_end(s, st + 1);
        proof {
            crate::scan::lemma_hex_end_bounds(s@, st as int + 1);
        }
        let n = he - (st + 1);
        if skip_ws(s, he) != s.len() {
            return None;
        }
        if n == 3 {
            Some(
                crate::style::UiColor {
                    r: crate::scan::hex_val(s[st + 1]) * 17,
                    g: crate::scan::hex_val(s[st + 2]) * 17,
                    b: crate::scan::hex_val(s[st + 3]) * 17,
                    a: 255,
                },
            )
        } else if n == 4 {
            Some(
                crate::style::UiColor {
                    r: crate::scan::hex_val(s[st + 1]) * 17,
                    g: crate::scan::hex_val(s[st + 2]) * 17,
                    b: crate::scan::hex_val(s[st + 3]) * 17,
                    a: crate::scan::hex_val(s[st + 4]) * 17,
                },
            )
        } else if n == 6 {
            Some(
                crate::style::UiColor {
                    r: crate::scan::hex_val(s[st + 1]) * 16 + crate::scan::hex_val(s[st + 2]),
                    g: crate::scan::hex_val(s[st + 3]) * 16 + crate::scan::hex_val(s[st + 4]),
                    b: crate::scan::hex_val(s[st + 5]) * 16 + crate::scan::hex_val(s[st + 6]),
                    a: 255,
                },
            )
        } else if n == 8 {
            Some(
                crate::style::UiColor {
                    r: crate::scan::hex_val(s[st + 1]) * 16 + crate::scan::hex_val(s[st + 2]),
                    g: crate::scan::hex_val(s[st + 3]) * 16 + crate::scan::hex_val(s[st + 4]),
                    b: crate::scan::hex_val(s[st + 5]) * 16 + crate::scan::hex_val(s[st + 6]),
                    a: crate::scan::hex_val(s[st + 7]) * 16 + crate::scan::hex_val(s[st + 8]),
                },
            )
        } else {
            None
        }
    } else if s.len() - st >= 5 && slice_eq_bytes(&s[st..st + 5], "rgba(".as_bytes()) {
        proof {
            assert(s@.subrange(st as int, st as int + 5) =~= s@.subrange(st as int, st as int + 5));
        }
        rgb_tail(s, st + 5, true)
    } else if s.len() - st >= 4 && slice_eq_bytes(&s[st..st + 4], "rgb(".as_bytes()) {
        rgb_tail(s, st + 4, false)
    } else {
        None
    }
}

/// Executable counterpart of [`spec_rgb_tail`].
fn rgb_tail(s: &[u8], i: usize, alpha: bool) -> (r: Option<crate::style::UiColor>)
    requires
        i <= s@.len(),
    ensures
        r == spec_rgb_tail(s@, i as int, alpha),
{
    let (r_ch, j1) = match color_component(s, i) {
        Some(p) => p,
        None => {
            return None;
        },
    };
    let c1 = skip_ws(s, j1);
    if !(c1 < s.len() && s[c1] == 44) {
        return None;
    }
    let (g_ch, j2) = match color_component(s, c1 + 1) {
        Some(p) => p,
        None => {
            return None;
        },
    };
    let c2 = skip_ws(s, j2);
    if !(c2 < s.len() && s[c2] == 44) {
        return None;
    }
    let (b_ch, j3) = match color_component(s, c2 + 1) {
        Some(p) => p,
        None => {
            return None;
        },
    };
    if alpha {
        let c3 = skip_ws(s, j3);
        if !(c3 < s.len() && s[c3] == 44) {
            return None;
        }
        let (a_ch, j4) = match color_component(s, c3 + 1) {
            Some(p) => p,
            None => {
                return None;
            },
        };
        rgb_close(s, j4, r_ch, g_ch, b_ch, a_ch)
    } else {
        rgb_close(s, j3, r_ch, g_ch, b_ch, 255)
    }
}

/// Executable counterpart of [`spec_rgb_close`].
fn rgb_close(s: &[u8], i: usize, r: u8, g: u8, b: u8, a: u8) -> (res: Option<
    crate::style::UiColor,
>)
    requires
        i <= s@.len(),
    ensures
        res == spec_rgb_close(s@, i as int, r as int, g as int, b as int, a as int),
{
    let c = skip_ws(s, i);
    if c < s.len() && s[c] == 41 && skip_ws(s, c + 1) == s.len() {
        Some(crate::style::UiColor { r, g, b, a })
    } else {
        None
    }
}

/// The color grammar on a whole attribute value.
pub open spec fn spec_parse_color(s: Seq<u8>) -> Option<crate::style::UiColor> {
    spec_color_at(s, 0)
}

/// Parses one color value; accepts exactly what [`spec_parse_color`]
/// accepts.
pub fn parse_color(s: &[u8]) -> (r: Option<crate::style::UiColor>)
    ensures
        r == spec_parse_color(s@),
{
    parse_color_at(s, 0)
}

/// A signed whole number on one bare token: an optional sign and up to
/// fifteen digits, nothing else.
pub open spec fn spec_i64_token(t: Seq<u8>) -> Option<i64> {
    if t.len() == 0 {
        Option::None
    } else {
        let (neg, j) = if t[0] == 45 {
            (true, 1int)
        } else if t[0] == 43 {
            (false, 1int)
        } else {
            (false, 0int)
        };
        let d = crate::scan::spec_digits_end(t, j);
        if d != t.len() || d == j || d - j > 15 {
            Option::None
        } else {
            let v = crate::scan::spec_digits_value(t.subrange(j, d));
            Option::Some(
                if neg {
                    (-v) as i64
                } else {
                    v as i64
                },
            )
        }
    }
}

/// Executable counterpart of [`spec_i64_token`].
pub fn i64_token(t: &[u8]) -> (r: Option<i64>)
    ensures
        r == spec_i64_token(t@),
{
    if t.len() == 0 {
        return None;
    }
    let (neg, j): (bool, usize) = if t[0] == 45 {
        (true, 1)
    } else if t[0] == 43 {
        (false, 1)
    } else {
        (false, 0)
    };
    match crate::scan::parse_digits(t, j) {
        Some((v, d)) => {
            if d != t.len() {
                None
            } else {
                if neg {
                    Some(-(v as i64))
                } else {
                    Some(v as i64)
                }
            }
        },
        None => {
            proof {
                crate::scan::lemma_digits_end_bounds(t@, j as int);
            }
            None
        },
    }
}

/// A whole attribute value holding one signed whole number.
pub open spec fn spec_parse_i64(s: Seq<u8>) -> Option<i64> {
    match spec_single_token(s) {
        Option::Some(t) => spec_i64_token(t),
        Option::None => Option::None,
    }
}

/// Parses one signed whole number; accepts exactly what
/// [`spec_parse_i64`] accepts.
pub fn parse_i64(s: &[u8]) -> (r: Option<i64>)
    ensures
        r == spec_parse_i64(s@),
{
    match single_token(s) {
        Some((st, en)) => i64_token(&s[st..en]),
        None => None,
    }
}

/// A duration on one bare token, in milliseconds: a decimal number with
/// the suffix `s` (or none) for seconds or `ms` for milliseconds.
/// Negative durations read as zero; a duration over `u32::MAX`
/// milliseconds is rejected.
pub open spec fn spec_delay_token(t: Seq<u8>) -> Option<u32> {
    match spec_parse_number_at(t, 0) {
        Option::Some((m, j)) => {
            let u = t.subrange(j, t.len() as int);
            if u.len() == 0 || u == "s".spec_bytes() {
                if m < 0 {
                    Option::Some(0)
                } else if m > u32::MAX {
                    Option::None
                } else {
                    Option::Some(m as u32)
                }
            } else if u == "ms".spec_bytes() {
                if m < 0 {
                    Option::Some(0)
                } else if m / 1000 > u32::MAX {
                    Option::None
                } else {
                    Option::Some((m / 1000) as u32)
                }
            } else {
                Option::None
            }
        },
        Option::None => Option::None,
    }
}

/// Executable counterpart of [`spec_delay_token`].
pub fn delay_token(t: &[u8]) -> (r: Option<u32>)
    ensures
        r == spec_delay_token(t@),
{
    match parse_number_at(t, 0) {
        Some(tok) => {
            let u: &[u8] = &t[tok.end..t.len()];
            proof {
                assert(u@ =~= t@.subrange(tok.end as int, t@.len() as int));
            }
            if u.len() == 0 || slice_eq_bytes(u, "s".as_bytes()) {
                if tok.milli < 0 {
                    Some(0)
                } else if tok.milli > u32::MAX as i64 {
                    None
                } else {
                    Some(tok.milli as u32)
                }
            } else if slice_eq_bytes(u, "ms".as_bytes()) {
                if tok.milli < 0 {
                    Some(0)
                } else if tok.milli / 1000 > u32::MAX as i64 {
                    None
                } else {
                    Some((tok.milli / 1000) as u32)
                }
            } else {
                None
            }
        },
        None => None,
    }
}

/// A whole attribute value holding one duration.
pub open spec fn spec_parse_delay_ms(s: Seq<u8>) -> Option<u32> {
    match spec_single_token(s) {
        Option::Some(t) => spec_delay_token(t),
        Option::None => Option::None,
    }
}

/// Parses one duration in milliseconds; accepts exactly what
/// [`spec_parse_delay_ms`] accepts.
pub fn parse_delay_ms(s: &[u8]) -> (r: Option<u32>)
    ensures
        r == spec_parse_delay_ms(s@),
{
    match single_token(s) {
        Some((st, en)) => delay_token(&s[st..en]),
        None => None,
    }
}

/// A bare decimal number on one token (flex factors, scale values).
pub open spec fn spec_num_token(t: Seq<u8>) -> Option<Num> {
    match spec_parse_number_at(t, 0) {
        Option::Some((m, j)) => {
            if j == t.len() {
                Option::Some(Num { milli: m as i64 })
            } else {
                Option::None
            }
        },
        Option::None => Option::None,
    }
}

/// Executable counterpart of [`spec_num_token`].
pub fn num_token(t: &[u8]) -> (r: Option<Num>)
    ensures
        r == spec_num_token(t@),
{
    match parse_number_at(t, 0) {
        Some(tok) => {
            if tok.end == t.len() {
                Some(Num { milli: tok.milli })
            } else {
                None
            }
        },
        None => None,
    }
}

/// A whole attribute value holding one bare decimal number.
pub open spec fn spec_parse_num(s: Seq<u8>) -> Option<Num> {
    match spec_single_token(s) {
        Option::Some(t) => spec_num_token(t),
        Option::None => Option::None,
    }
}

/// Parses one bare decimal number; accepts exactly what
/// [`spec_parse_num`] accepts.
pub fn parse_num(s: &[u8]) -> (r: Option<Num>)
    ensures
        r == spec_parse_num(s@),
{
    match single_token(s) {
        Some((st, en)) => num_token(&s[st..en]),
        None => None,
    }
}

/// The whitespace-separated tokens of a value, in order.
pub open spec fn spec_ws_tokens(s: Seq<u8>, i: int) -> Seq<(int, int)>
    decreases s.len() - i when 0 <= i <= s.len() via spec_ws_tokens_dec
{
    let st = spec_skip_ws(s, i);
    if st >= s.len() {
        Seq::empty()
    } else {
        let en = spec_nonws_end(s, st);
        seq![(st, en)] + spec_ws_tokens(s, en)
    }
}

#[via_fn]
proof fn spec_ws_tokens_dec(s: Seq<u8>, i: int) {
    crate::scan::lemma_skip_ws_bounds(s, i);
    let st = spec_skip_ws(s, i);
    if st < s.len() {
        crate::scan::lemma_nonws_end_bounds(s, st + 1);
        assert(spec_nonws_end(s, st) == spec_nonws_end(s, st + 1));
    }
}

/// Every token of [`spec_ws_tokens`] is a nonempty in-bounds range.
pub proof fn lemma_ws_tokens_bounds(s: Seq<u8>, i: int)
    requires
        0 <= i <= s.len(),
    ensures
        forall|k: int|
            0 <= k < spec_ws_tokens(s, i).len() ==> i <= #[trigger] spec_ws_tokens(s, i)[k].0
                < spec_ws_tokens(s, i)[k].1 <= s.len(),
    decreases s.len() - i,
{
    crate::scan::lemma_skip_ws_bounds(s, i);
    let st = spec_skip_ws(s, i);
    if st < s.len() {
        crate::scan::lemma_nonws_end_bounds(s, st + 1);
        assert(spec_nonws_end(s, st) == spec_nonws_end(s, st + 1));
        let en = spec_nonws_end(s, st);
        lemma_ws_tokens_bounds(s, en);
        let whole = spec_ws_tokens(s, i);
        let tail = spec_ws_tokens(s, en);
        assert(whole == seq![(st, en)] + tail);
        assert forall|k: int| 0 <= k < whole.len() implies i <= (#[trigger] whole[k]).0
            < whole[k].1 <= s.len() by {
            if k > 0 {
                assert(whole[k] == tail[k - 1]);
            }
        }
    }
}

/// The integer pair view of an executable token list.
pub open spec fn tokens_view(r: Seq<(usize, usize)>) -> Seq<(int, int)> {
    r.map_values(|p: (usize, usize)| (p.0 as int, p.1 as int))
}

/// Splits a value into its whitespace-separated tokens; the result is
/// exactly [`spec_ws_tokens`].
pub fn ws_tokens(s: &[u8]) -> (r: Vec<(usize, usize)>)
    ensures
        tokens_view(r@) == spec_ws_tokens(s@, 0),
        forall|k: int| 0 <= k < r@.len() ==> (#[trigger] r@[k]).0 < r@[k].1 <= s@.len(),
{
    let mut r: Vec<(usize, usize)> = Vec::new();
    let mut i: usize = 0;
    loop
        invariant
            i <= s@.len(),
            spec_ws_tokens(s@, 0) == tokens_view(r@) + spec_ws_tokens(s@, i as int),
            forall|k: int| 0 <= k < r@.len() ==> (#[trigger] r@[k]).0 < r@[k].1 <= s@.len(),
        ensures
            tokens_view(r@) == spec_ws_tokens(s@, 0),
            forall|k: int| 0 <= k < r@.len() ==> (#[trigger] r@[k]).0 < r@[k].1 <= s@.len(),
        decreases s@.len() - i,
    {
        let st = skip_ws(s, i);
        proof {
            crate::scan::lemma_skip_ws_bounds(s@, i as int);
        }
        if st >= s.len() {
            proof {
                assert(spec_ws_tokens(s@, i as int) =~= Seq::<(int, int)>::empty());
                assert(tokens_view(r@) + Seq::<(int, int)>::empty() =~= tokens_view(r@));
                assert(tokens_view(r@) == spec_ws_tokens(s@, 0));
            }
            break ;
        }
        let en = nonws_end(s, st);
        proof {
            crate::scan::lemma_nonws_end_bounds(s@, st as int + 1);
            assert(spec_nonws_end(s@, st as int) == spec_nonws_end(s@, st as int + 1));
        }
        let ghost old_r = r@;
        r.push((st, en));
        proof {
            assert(tokens_view(r@) =~= tokens_view(old_r) + seq![(st as int, en as int)]);
            assert(spec_ws_tokens(s@, i as int) == seq![(st as int, en as int)]
                + spec_ws_tokens(s@, en as int));
            assert(tokens_view(old_r) + spec_ws_tokens(s@, i as int) =~= tokens_view(r@)
                + spec_ws_tokens(s@, en as int));
        }
        i = en;
    }
    r
}

/// A pixel length on one bare token: a decimal number followed by `px`.
pub open spec fn spec_px_token(t: Seq<u8>) -> Option<Num> {
    match spec_parse_number_at(t, 0) {
        Option::Some((m, j)) => {
            if t.subrange(j, t.len() as int) == "px".spec_bytes() {
                Option::Some(Num { milli: m as i64 })
            } else {
                Option::None
            }
        },
        Option::None => Option::None,
    }
}

/// Executable counterpart of [`spec_px_token`].
pub fn px_token(t: &[u8]) -> (r: Option<Num>)
    ensures
        r == spec_px_token(t@),
{
    match parse_number_at(t, 0) {
        Some(tok) => {
            let u: &[u8] = &t[tok.end..t.len()];
            proof {
                assert(u@ =~= t@.subrange(tok.end as int, t@.len() as int));
            }
            if slice_eq_bytes(u, "px".as_bytes()) {
                Some(Num { milli: tok.milli })
            } else {
                None
            }
        },
        None => None,
    }
}

/// The rectangle grammar: one length for all sides, two for the
/// horizontal and vertical axes, or four in top, right, bottom, left
/// order.
pub open spec fn spec_parse_ui_rect(s: Seq<u8>) -> Option<crate::style::UiRect> {
    let toks = spec_ws_tokens(s, 0);
    if toks.len() == 1 {
        match spec_val_token(s.subrange(toks[0].0, toks[0].1)) {
            Option::Some(v) => Option::Some(
                crate::style::UiRect { left: v, right: v, top: v, bottom: v },
            ),
            Option::None => Option::None,
        }
    } else if toks.len() == 2 {
        match (
            spec_val_token(s.subrange(toks[0].0, toks[0].1)),
            spec_val_token(s.subrange(toks[1].0, toks[1].1)),
        ) {
            (Option::Some(x), Option::Some(y)) => Option::Some(
                crate::style::UiRect { left: x, right: x, top: y, bottom: y },
            ),
            _ => Option::None,
        }
    } else if toks.len() == 4 {
        match (
            spec_val_token(s.subrange(toks[0].0, toks[0].1)),
            spec_val_token(s.subrange(toks[1].0, toks[1].1)),
            spec_val_token(s.subrange(toks[2].0, toks[2].1)),
            spec_val_token(s.subrange(toks[3].0, toks[3].1)),
        ) {
            (
                Option::Some(top),
                Option::Some(right),
                Option::Some(bottom),
                Option::Some(left),
            ) => Option::Some(crate::style::UiRect { left, right, top, bottom }),
            _ => Option::None,
        }
    } else {
        Option::None
    }
}

/// Parses a rectangle of lengths; accepts exactly what
/// [`spec_parse_ui_rect`] accepts.
pub fn parse_ui_rect(s: &[u8]) -> (r: Option<crate::style::UiRect>)
    ensures
        r == spec_parse_ui_rect(s@),
{
    let toks = ws_tokens(s);
    if toks.len() == 1 {
        let (a, b) = toks[0];
        proof {
            assert(tokens_view(toks@)[0] == (a as int, b as int));
        }
        match val_token(&s[a..b]) {
            Some(v) => Some(crate::style::UiRect { left: v, right: v, top: v, bottom: v }),
            None => None,
        }
    } else if toks.len() == 2 {
        let (a0, b0) = toks[0];
        let (a1, b1) = toks[1];
        proof {
            assert(tokens_view(toks@)[0] == (a0 as int, b0 as int));
            assert(tokens_view(toks@)[1] == (a1 as int, b1 as int));
        }
        match (val_token(&s[a0..b0]), val_token(&s[a1..b1])) {
            (Some(x), Some(y)) => Some(
                crate::style::UiRect { left: x, right: x, top: y, bottom: y },
            ),
            _ => None,
        }
    } else if toks.len() == 4 {
        let (a0, b0) = toks[0];
        let (a1, b1) = toks[1];
        let (a2, b2) = toks[2];
        let (a3, b3) = toks[3];
        proof {
            assert(tokens_view(toks@)[0] == (a0 as int, b0 as int));
            assert(tokens_view(toks@)[1] == (a1 as int, b1 as int));
            assert(tokens_view(toks@)[2] == (a2 as int, b2 as int));
            assert(tokens_view(toks@)[3] == (a3 as int, b3 as int));
        }
        match (val_token(&s[a0..b0]), val_token(&s[a1..b1]), val_token(&s[a2..b2]), val_token(
            &s[a3..b3],
        )) {
            (Some(top), Some(right), Some(bottom), Some(left)) => Some(
                crate::style::UiRect { left, right, top, bottom },
            ),
            _ => None,
        }
    } else {
        None
    }
}

/// The pixel-rectangle grammar (nine-slice borders): as the rectangle
/// grammar, with every side a plain `px` length.
pub open spec fn spec_parse_border_rect(s: Seq<u8>) -> Option<crate::style::BorderRect> {
    let toks = spec_ws_tokens(s, 0);
    if toks.len() == 1 {
        match spec_px_token(s.subrange(toks[0].0, toks[0].1)) {
            Option::Some(v) => Option::Some(
                crate::style::BorderRect { left: v, right: v, top: v, bottom: v },
            ),
            Option::None => Option::None,
        }
    } else if toks.len() == 2 {
        match (
            spec_px_token(s.subrange(toks[0].0, toks[0].1)),
            spec_px_token(s.subrange(toks[1].0, toks[1].1)),
        ) {
            (Option::Some(x), Option::Some(y)) => Option::Some(
                crate::style::BorderRect { left: x, right: x, top: y, bottom: y },
            ),
            _ => Option::None,
        }
    } else if toks.len() == 4 {
        match (
            spec_px_token(s.subrange(toks[0].0, toks[0].1)),
            spec_px_token(s.subrange(toks[1].0, toks[1].1)),
            spec_px_token(s.subrange(toks[2].0, toks[2].1)),
            spec_px_token(s.subrange(toks[3].0, toks[3].1)),
        ) {
            (
                Option::Some(top),
                Option::Some(right),
                Option::Some(bottom),
                Option::Some(left),
            ) => Option::Some(crate::style::BorderRect { left, right, top, bottom }),
            _ => Option::None,
        }
    } else {
        Option::None
    }
}

/// Parses a pixel rectangle; accepts exactly what
/// [`spec_parse_border_rect`] accepts.
pub fn parse_border_rect(s: &[u8]) -> (r: Option<crate::style::BorderRect>)
    ensures
        r == spec_parse_border_rect(s@),
{
    let toks = ws_tokens(s);
    if toks.len() == 1 {
        let (a, b) = toks[0];
        proof {
            assert(tokens_view(toks@)[0] == (a as int, b as int));
        }
        match px_token(&s[a..b]) {
            Some(v) => Some(crate::style::BorderRect { left: v, right: v, top: v, bottom: v }),
            None => None,
        }
    } else if toks.len() == 2 {
        let (a0, b0) = toks[0];
        let (a1, b1) = toks[1];
        proof {
            assert(tokens_view(toks@)[0] == (a0 as int, b0 as int));
            assert(tokens_view(toks@)[1] == (a1 as int, b1 as int));
        }
        match (px_token(&s[a0..b0]), px_token(&s[a1..b1])) {
            (Some(x), Some(y)) => Some(
                crate::style::BorderRect { left: x, right: x, top: y, bottom: y },
            ),
            _ => None,
        }
    } else if toks.len() == 4 {
        let (a0, b0) = toks[0];
        let (a1, b1) = toks[1];
        let (a2, b2) = toks[2];
        let (a3, b3) = toks[3];
        proof {
            assert(tokens_view(toks@)[0] == (a0 as int, b0 as int));
            assert(tokens_view(toks@)[1] == (a1 as int, b1 as int));
            assert(tokens_view(toks@)[2] == (a2 as int, b2 as int));
            assert(tokens_view(toks@)[3] == (a3 as int, b3 as int));
        }
        match (px_token(&s[a0..b0]), px_token(&s[a1..b1]), px_token(&s[a2..b2]), px_token(
            &s[a3..b3],
        )) {
            (Some(top), Some(right), Some(bottom), Some(left)) => Some(
                crate::style::BorderRect { left, right, top, bottom },
            ),
            _ => None,
        }
    } else {
        None
    }
}

/// The overflow grammar: one axis keyword for `x`, one for `y`.
pub open spec fn spec_parse_overflow(s: Seq<u8>) -> Option<crate::style::Overflow> {
    match spec_two_tokens(s) {
        Option::Some((t1, t2)) => {
            match (
                crate::keywords::spec_kw_overflow_axis(t1),
                crate::keywords::spec_kw_overflow_axis(t2),
            ) {
                (Option::Some(x), Option::Some(y)) => Option::Some(
                    crate::style::Overflow { x, y },
                ),
                _ => Option::None,
            }
        },
        Option::None => Option::None,
    }
}

/// Parses an overflow pair; accepts exactly what [`spec_parse_overflow`]
/// accepts.
pub fn parse_overflow(s: &[u8]) -> (r: Option<crate::style::Overflow>)
    ensures
        r == spec_parse_overflow(s@),
{
    match two_tokens(s) {
        Some(((a1, b1), (a2, b2))) => {
            match (
                crate::keywords::kw_overflow_axis(&s[a1..b1]),
                crate::keywords::kw_overflow_axis(&s[a2..b2]),
            ) {
                (Some(x), Some(y)) => Some(crate::style::Overflow { x, y }),
                _ => None,
            }
        },
        None => None,
    }
}

/// The text layout grammar: a justification keyword, then a line-break
/// keyword.
pub open spec fn spec_parse_text_layout(s: Seq<u8>) -> Option<crate::style::TextLayout> {
    match spec_two_tokens(s) {
        Option::Some((t1, t2)) => {
            match (
                crate::keywords::spec_kw_justify_text(t1),
                crate::keywords::spec_kw_linebreak(t2),
            ) {
                (Option::Some(justify), Option::Some(linebreak)) => Option::Some(
                    crate::style::TextLayout { justify, linebreak },
                ),
                _ => Option::None,
            }
        },
        Option::None => Option::None,
    }
}

/// Parses a text layout; accepts exactly what [`spec_parse_text_layout`]
/// accepts.
pub fn parse_text_layout(s: &[u8]) -> (r: Option<crate::style::TextLayout>)
    ensures
        r == spec_parse_text_layout(s@),
{
    match two_tokens(s) {
        Some(((a1, b1), (a2, b2))) => {
            match (
                crate::keywords::kw_justify_text(&s[a1..b1]),
                crate::keywords::kw_linebreak(&s[a2..b2]),
            ) {
                (Some(justify), Some(linebreak)) => Some(
                    crate::style::TextLayout { justify, linebreak },
                ),
                _ => None,
            }
        },
        None => None,
    }
}

/// The shadow offset grammar: two lengths.
pub open spec fn spec_parse_val_pair(s: Seq<u8>) -> Option<(Val, Val)> {
    match spec_two_tokens(s) {
        Option::Some((t1, t2)) => {
            match (spec_val_token(t1), spec_val_token(t2)) {
                (Option::Some(x), Option::Some(y)) => Option::Some((x, y)),
                _ => Option::None,
            }
        },
        Option::None => Option::None,
    }
}

/// Parses a pair of lengths; accepts exactly what
/// [`spec_parse_val_pair`] accepts.
pub fn parse_val_pair(s: &[u8]) -> (r: Option<(Val, Val)>)
    ensures
        r == spec_parse_val_pair(s@),
{
    match two_tokens(s) {
        Some(((a1, b1), (a2, b2))) => {
            match (val_token(&s[a1..b1]), val_token(&s[a2..b2])) {
                (Some(x), Some(y)) => Some((x, y)),
                _ => None,
            }
        },
        None => None,
    }
}

/// The pickability grammar: two booleans, whether the node blocks lower
/// nodes and whether it can be hovered.
pub open spec fn spec_parse_pickable(s: Seq<u8>) -> Option<(bool, bool)> {
    match spec_two_tokens(s) {
        Option::Some((t1, t2)) => {
            match (crate::keywords::spec_kw_bool(t1), crate::keywords::spec_kw_bool(t2)) {
                (Option::Some(x), Option::Some(y)) => Option::Some((x, y)),
                _ => Option::None,
            }
        },
        Option::None => Option::None,
    }
}

/// Parses a pickability pair; accepts exactly what
/// [`spec_parse_pickable`] accepts.
pub fn parse_pickable(s: &[u8]) -> (r: Option<(bool, bool)>)
    ensures
        r == spec_parse_pickable(s@),
{
    match two_tokens(s) {
        Some(((a1, b1), (a2, b2))) => {
            match (crate::keywords::kw_bool(&s[a1..b1]), crate::keywords::kw_bool(&s[a2..b2])) {
                (Some(x), Some(y)) => Some((x, y)),
                _ => None,
            }
        },
        None => None,
    }
}

/// A signed whole number starting exactly at `i`: an optional sign and up
/// to fifteen digits; yields the value and the position after it.
pub open spec fn spec_int_at(s: Seq<u8>, i: int) -> Option<(int, int)> {
    if i >= s.len() {
        Option::None
    } else {
        let (neg, j) = if s[i] == 45 {
            (true, i + 1)
        } else if s[i] == 43 {
            (false, i + 1)
        } else {
            (false, i)
        };
        let d = crate::scan::spec_digits_end(s, j);
        if d == j || d - j > 15 {
            Option::None
        } else {
            let v = crate::scan::spec_digits_value(s.subrange(j, d));
            Option::Some(
                (
                    if neg {
                        -v
                    } else {
                        v
                    },
                    d,
                ),
            )
        }
    }
}

/// Executable counterpart of [`spec_int_at`].
pub fn int_at(s: &[u8], i: usize) -> (r: Option<(i64, usize)>)
    requires
        i <= s@.len(),
    ensures
        match r {
            Some((v, j)) => {
                &&& spec_int_at(s@, i as int) == Option::Some((v as int, j as int))
                &&& i < j <= s@.len()
            },
            None => spec_int_at(s@, i as int) is None,
        },
{
    if i >= s.len() {
        return None;
    }
    let (neg, j): (bool, usize) = if s[i] == 45 {
        (true, i + 1)
    } else if s[i] == 43 {
        (false, i + 1)
    } else {
        (false, i)
    };
    match crate::scan::parse_digits(s, j) {
        Some((v, d)) => {
            proof {
                crate::scan::lemma_digits_end_bounds(s@, j as int);
            }
            if neg {
                Some((-(v as i64), d))
            } else {
                Some((v as i64, d))
            }
        },
        None => {
            proof {
                crate::scan::lemma_digits_end_bounds(s@, j as int);
            }
            None
        },
    }
}

/// A grid track sizing function on one bare token: `auto`, `min`, `max`,
/// or a decimal number with one of the track units.
pub open spec fn spec_track_token(t: Seq<u8>) -> Option<crate::style::GridTrack> {
    if t == "auto".spec_bytes() {
        Option::Some(crate::style::GridTrack::Auto)
    } else if t == "min".spec_bytes() {
        Option::Some(crate::style::GridTrack::MinContent)
    } else if t == "max".spec_bytes() {
        Option::Some(crate::style::GridTrack::MaxContent)
    } else {
        match spec_parse_number_at(t, 0) {
            Option::Some((m, j)) => {
                let u = t.subrange(j, t.len() as int);
                let n = Num { milli: m as i64 };
                if u == "px".spec_bytes() {
                    Option::Some(crate::style::GridTrack::Px(n))
                } else if u == "%".spec_bytes() {
                    Option::Some(crate::style::GridTrack::Percent(n))
                } else if u == "fr".spec_bytes() {
                    Option::Some(crate::style::GridTrack::Fr(n))
                } else if u == "flex".spec_bytes() {
                    Option::Some(crate::style::GridTrack::Flex(n))
                } else if u == "vh".spec_bytes() {
                    Option::Some(crate::style::GridTrack::Vh(n))
                } else if u == "vw".spec_bytes() {
                    Option::Some(crate::style::GridTrack::Vw(n))
                } else if u == "vmin".spec_bytes() {
                    Option::Some(crate::style::GridTrack::VMin(n))
                } else if u == "vmax".spec_bytes() {
                    Option::Some(crate::style::GridTrack::VMax(n))
                } else {
                    Option::None
                }
            },
            Option::None => Option::None,
        }
    }
}

/// Executable counterpart of [`spec_track_token`].
pub fn track_token(t: &[u8]) -> (r: Option<crate::style::GridTrack>)
    ensures
        r == spec_track_token(t@),
{
    if slice_eq_bytes(t, "auto".as_bytes()) {
        return Some(crate::style::GridTrack::Auto);
    }
    if slice_eq_bytes(t, "min".as_bytes()) {
        return Some(crate::style::GridTrack::MinContent);
    }
    if slice_eq_bytes(t, "max".as_bytes()) {
        return Some(crate::style::GridTrack::MaxContent);
    }
    match parse_number_at(t, 0) {
        Some(tok) => {
            let u: &[u8] = &t[tok.end..t.len()];
            proof {
                assert(u@ =~= t@.subrange(tok.end as int, t@.len() as int));
            }
            let n = Num { milli: tok.milli };
            if slice_eq_bytes(u, "px".as_bytes()) {
                Some(crate::style::GridTrack::Px(n))
            } else if slice_eq_bytes(u, "%".as_bytes()) {
                Some(crate::style::GridTrack::Percent(n))
            } else if slice_eq_bytes(u, "fr".as_bytes()) {
                Some(crate::style::GridTrack::Fr(n))
            } else if slice_eq_bytes(u, "flex".as_bytes()) {
                Some(crate::style::GridTrack::Flex(n))
            } else if slice_eq_bytes(u, "vh".as_bytes()) {
                Some(crate::style::GridTrack::Vh(n))
            } else if slice_eq_bytes(u, "vw".as_bytes()) {
                Some(crate::style::GridTrack::Vw(n))
            } else if slice_eq_bytes(u, "vmin".as_bytes()) {
                Some(crate::style::GridTrack::VMin(n))
            } else if slice_eq_bytes(u, "vmax".as_bytes()) {
                Some(crate::style::GridTrack::VMax(n))
            } else {
                None
            }
        },
        None => None,
    }
}

/// The track list from position `k` of the token list on: every token
/// must be a track.
pub open spec fn spec_tracks_from(s: Seq<u8>, toks: Seq<(int, int)>, k: int) -> Option<
    Seq<crate::style::GridTrack>,
>
    decreases toks.len() - k when 0 <= k <= toks.len()
{
    if k >= toks.len() {
        Option::Some(Seq::empty())
    } else {
        match spec_track_token(s.subrange(toks[k].0, toks[k].1)) {
            Option::Some(tr) => {
                match spec_tracks_from(s, toks, k + 1) {
                    Option::Some(rest) => Option::Some(seq![tr] + rest),
                    Option::None => Option::None,
                }
            },
            Option::None => Option::None,
        }
    }
}

/// The grid track list grammar: whitespace-separated tracks; the empty
/// value is the empty list.
pub open spec fn spec_parse_tracks(s: Seq<u8>) -> Option<Seq<crate::style::GridTrack>> {
    spec_tracks_from(s, spec_ws_tokens(s, 0), 0)
}

/// Parses a grid track list; accepts exactly what [`spec_parse_tracks`]
/// accepts.
pub fn parse_tracks(s: &[u8]) -> (r: Option<Vec<crate::style::GridTrack>>)
    ensures
        match r {
            Some(v) => spec_parse_tracks(s@) == Option::Some(v@),
            None => spec_parse_tracks(s@) is None,
        },
{
    let toks = ws_tokens(s);
    let ghost tv = tokens_view(toks@);
    let mut acc: Vec<crate::style::GridTrack> = Vec::new();
    let mut k: usize = 0;
    while k < toks.len()
        invariant
            0 <= k <= toks@.len(),
            tv == tokens_view(toks@),
            tv == spec_ws_tokens(s@, 0),
            forall|m: int| 0 <= m < toks@.len() ==> (#[trigger] toks@[m]).0 < toks@[m].1
                <= s@.len(),
            match spec_tracks_from(s@, tv, k as int) {
                Option::Some(rest) => spec_parse_tracks(s@) == Option::Some(acc@ + rest),
                Option::None => spec_parse_tracks(s@) is None,
            },
        decreases toks@.len() - k,
    {
        let (a, b) = toks[k];
        proof {
            assert(tv[k as int] == (a as int, b as int));
        }
        match track_token(&s[a..b]) {
            Some(tr) => {
                let ghost old_acc = acc@;
                acc.push(tr);
                proof {
                    if spec_tracks_from(s@, tv, k as int + 1) is Some {
                        let rest1 = spec_tracks_from(s@, tv, k as int + 1).unwrap();
                        assert(old_acc + (seq![tr] + rest1) =~= acc@ + rest1);
                    }
                }
            },
            None => {
                return None;
            },
        }
        k = k + 1;
    }
    proof {
        assert(spec_tracks_from(s@, tv, k as int) == Option::Some(
            Seq::<crate::style::GridTrack>::empty(),
        ));
        assert(acc@ + Seq::<crate::style::GridTrack>::empty() =~= acc@);
    }
    Some(acc)
}

/// The grid placement grammar: `auto`, `span(n)`, `start(n)`, `end(n)`,
/// `start_span(n, m)`, or `end_span(n, m)`. A count outside `u16` or a
/// line outside `i16` reads as zero.
pub open spec fn spec_parse_grid_placement(s: Seq<u8>) -> Option<crate::style::GridPlacement> {
    let st = spec_skip_ws(s, 0);
    let en = crate::scan::spec_snake_end(s, st);
    let kw = s.subrange(st, en);
    if kw == "auto".spec_bytes() {
        if spec_skip_ws(s, en) == s.len() {
            Option::Some(crate::style::GridPlacement::Auto)
        } else {
            Option::None
        }
    } else if kw == "span".spec_bytes() {
        match spec_paren_one(s, en) {
            Option::Some(v) => Option::Some(crate::style::GridPlacement::Span(spec_as_u16(v))),
            Option::None => Option::None,
        }
    } else if kw == "start".spec_bytes() {
        match spec_paren_one(s, en) {
            Option::Some(v) => Option::Some(crate::style::GridPlacement::Start(spec_as_i16(v))),
            Option::None => Option::None,
        }
    } else if kw == "end".spec_bytes() {
        match spec_paren_one(s, en) {
            Option::Some(v) => Option::Some(crate::style::GridPlacement::End(spec_as_i16(v))),
            Option::None => Option::None,
        }
    } else if kw == "start_span".spec_bytes() {
        match spec_paren_two(s, en) {
            Option::Some((a, b)) => Option::Some(
                crate::style::GridPlacement::StartSpan(spec_as_i16(a), spec_as_u16(b)),
            ),
            Option::None => Option::None,
        }
    } else if kw == "end_span".spec_bytes() {
        match spec_paren_two(s, en) {
            Option::Some((a, b)) => Option::Some(
                crate::style::GridPlacement::EndSpan(spec_as_i16(a), spec_as_u16(b)),
            ),
            Option::None => Option::None,
        }
    } else {
        Option::None
    }
}

/// A whole number squeezed into `u16`: out-of-range values read as zero.
pub open spec fn spec_as_u16(v: int) -> u16 {
    if 0 <= v <= u16::MAX {
        v as u16
    } else {
        0
    }
}

/// A whole number squeezed into `i16`: out-of-range values read as zero.
pub open spec fn spec_as_i16(v: int) -> i16 {
    if i16::MIN <= v <= i16::MAX {
        v as i16
    } else {
        0
    }
}

/// `( number )` after position `i`, with nothing but whitespace after the
/// closing parenthesis.
pub open spec fn spec_paren_one(s: Seq<u8>, i: int) -> Option<int> {
    if i < s.len() && s[i] == 40 {
        let st = spec_skip_ws(s, i + 1);
        match spec_int_at(s, st) {
            Option::Some((v, j)) => {
                let c = spec_skip_ws(s, j);
                if c < s.len() && s[c] == 41 && spec_skip_ws(s, c + 1) == s.len() {
                    Option::Some(v)
                } else {
                    Option::None
                }
            },
            Option::None => Option::None,
        }
    } else {
        Option::None
    }
}

/// `( number , number )` after position `i`, with nothing but whitespace
/// after the closing parenthesis.
pub open spec fn spec_paren_two(s: Seq<u8>, i: int) -> Option<(int, int)> {
    if i < s.len() && s[i] == 40 {
        let st = spec_skip_ws(s, i + 1);
        match spec_int_at(s, st) {
            Option::Some((v1, j1)) => {
                let c1 = spec_skip_ws(s, j1);
                if c1 < s.len() && s[c1] == 44 {
                    let st2 = spec_skip_ws(s, c1 + 1);
                    match spec_int_at(s, st2) {
                        Option::Some((v2, j2)) => {
                            let c2 = spec_skip_ws(s, j2);
                            if c2 < s.len() && s[c2] == 41 && spec_skip_ws(s, c2 + 1) == s.len() {
                                Option::Some((v1, v2))
                            } else {
                                Option::None
                            }
                        },
                        Option::None => Option::None,
                    }
                } else {
                    Option::None
                }
            },
            Option::None => Option::None,
        }
    } else {
        Option::None
    }
}

/// Executable counterpart of [`spec_paren_one`].
fn paren_one(s: &[u8], i: usize) -> (r: Option<i64>)
    requires
        i <= s@.len(),
    ensures
        match r {
            Some(v) => spec_paren_one(s@, i as int) == Option::Some(v as int),
            None => spec_paren_one(s@, i as int) is None,
        },
{
    if i < s.len() && s[i] == 40 {
        let st = skip_ws(s, i + 1);
        match int_at(s, st) {
            Some((v, j)) => {
                let c = skip_ws(s, j);
                if c < s.len() && s[c] == 41 && skip_ws(s, c + 1) == s.len() {
                    Some(v)
                } else {
                    None
                }
            },
            None => None,
        }
    } else {
        None
    }
}

/// Executable counterpart of [`spec_paren_two`].
fn paren_two(s: &[u8], i: usize) -> (r: Option<(i64, i64)>)
    requires
        i <= s@.len(),
    ensures
        match r {
            Some((a, b)) => spec_paren_two(s@, i as int) == Option::Some((a as int, b as int)),
            None => spec_paren_two(s@, i as int) is None,
        },
{
    if i < s.len() && s[i] == 40 {
        let st = skip_ws(s, i + 1);
        match int_at(s, st) {
            Some((v1, j1)) => {
                let c1 = skip_ws(s, j1);
                if c1 < s.len() && s[c1] == 44 {
                    let st2 = skip_ws(s, c1 + 1);
                    match int_at(s, st2) {
                        Some((v2, j2)) => {
                            let c2 = skip_ws(s, j2);
                            if c2 < s.len() && s[c2] == 41 && skip_ws(s, c2 + 1) == s.len() {
                                Some((v1, v2))
                            } else {
                                None
                            }
                        },
                        None => None,
                    }
                } else {
                    None
                }
            },
            None => None,
        }
    } else {
        None
    }
}

/// `u16` squeeze on an executable value.
fn as_u16(v: i64) -> (r: u16)
    ensures
        r == spec_as_u16(v as int),
{
    if 0 <= v && v <= u16::MAX as i64 {
        v as u16
    } else {
        0
    }
}

/// `i16` squeeze on an executable value.
fn as_i16(v: i64) -> (r: i16)
    ensures
        r == spec_as_i16(v as int),
{
    if i16::MIN as i64 <= v && v <= i16::MAX as i64 {
        v as i16
    } else {
        0
    }
}

/// Parses a grid placement; accepts exactly what
/// [`spec_parse_grid_placement`] accepts.
pub fn parse_grid_placement(s: &[u8]) -> (r: Option<crate::style::GridPlacement>)
    ensures
        r == spec_parse_grid_placement(s@),
{
    let st = skip_ws(s, 0);
    let en = crate::scan::snake_end(s, st);
    let kw: &[u8] = &s[st..en];
    proof {
        assert(kw@ =~= s@.subrange(st as int, en as int));
    }
    if slice_eq_bytes(kw, "auto".as_bytes()) {
        if skip_ws(s, en) == s.len() {
            Some(crate::style::GridPlacement::Auto)
        } else {
            None
        }
    } else if slice_eq_bytes(kw, "span".as_bytes()) {
        match paren_one(s, en) {
            Some(v) => Some(crate::style::GridPlacement::Span(as_u16(v))),
            None => None,
        }
    } else if slice_eq_bytes(kw, "start".as_bytes()) {
        match paren_one(s, en) {
            Some(v) => Some(crate::style::GridPlacement::Start(as_i16(v))),
            None => None,
        }
    } else if slice_eq_bytes(kw, "end".as_bytes()) {
        match paren_one(s, en) {
            Some(v) => Some(crate::style::GridPlacement::End(as_i16(v))),
            None => None,
        }
    } else if slice_eq_bytes(kw, "start_span".as_bytes()) {
        match paren_two(s, en) {
            Some((a, b)) => Some(crate::style::GridPlacement::StartSpan(as_i16(a), as_u16(b))),
            None => None,
        }
    } else if slice_eq_bytes(kw, "end_span".as_bytes()) {
        match paren_two(s, en) {
            Some((a, b)) => Some(crate::style::GridPlacement::EndSpan(as_i16(a), as_u16(b))),
            None => None,
        }
    } else {
        None
    }
}

/// An unsigned whole number starting exactly at `i` that fits `u32`.
pub open spec fn spec_u32_at(s: Seq<u8>, i: int) -> Option<(int, int)> {
    let d = crate::scan::spec_digits_end(s, i);
    if d == i || d - i > 15 {
        Option::None
    } else {
        let v = crate::scan::spec_digits_value(s.subrange(i, d));
        if v > u32::MAX {
            Option::None
        } else {
            Option::Some((v, d))
        }
    }
}

/// Executable counterpart of [`spec_u32_at`].
pub fn u32_at(s: &[u8], i: usize) -> (r: Option<(u32, usize)>)
    requires
        i <= s@.len(),
    ensures
        match r {
            Some((v, j)) => {
                &&& spec_u32_at(s@, i as int) == Option::Some((v as int, j as int))
                &&& i < j <= s@.len()
            },
            None => spec_u32_at(s@, i as int) is None,
        },
{
    match crate::scan::parse_digits(s, i) {
        Some((v, d)) => {
            proof {
                crate::scan::lemma_digits_end_bounds(s@, i as int);
            }
            if v > u32::MAX as u64 {
                None
            } else {
                Some((v as u32, d))
            }
        },
        None => {
            proof {
                crate::scan::lemma_digits_end_bounds(s@, i as int);
            }
            None
        },
    }
}

/// A cell-count pair starting at `i`: `(x, y)`, or one bare number for a
/// square; yields the pair and the position after it.
pub open spec fn spec_dimensions_at(s: Seq<u8>, i: int) -> Option<(crate::style::UVec2, int)> {
    let st = spec_skip_ws(s, i);
    if st < s.len() && s[st] == 40 {
        let xs = spec_skip_ws(s, st + 1);
        match spec_u32_at(s, xs) {
            Option::Some((x, j1)) => {
                let c = spec_skip_ws(s, j1);
                if c < s.len() && s[c] == 44 {
                    let ys = spec_skip_ws(s, c + 1);
                    match spec_u32_at(s, ys) {
                        Option::Some((y, j2)) => {
                            let e = spec_skip_ws(s, j2);
                            if e < s.len() && s[e] == 41 {
                                Option::Some(
                                    (crate::style::UVec2 { x: x as u32, y: y as u32 }, e + 1),
                                )
                            } else {
                                Option::None
                            }
                        },
                        Option::None => Option::None,
                    }
                } else {
                    Option::None
                }
            },
            Option::None => Option::None,
        }
    } else {
        match spec_u32_at(s, st) {
            Option::Some((v, j)) => Option::Some(
                (crate::style::UVec2 { x: v as u32, y: v as u32 }, j),
            ),
            Option::None => Option::None,
        }
    }
}

/// Executable counterpart of [`spec_dimensions_at`].
pub fn dimensions_at(s: &[u8], i: usize) -> (r: Option<(crate::style::UVec2, usize)>)
    requires
        i <= s@.len(),
    ensures
        match r {
            Some((d, j)) => {
                &&& spec_dimensions_at(s@, i as int) == Option::Some((d, j as int))
                &&& i <= j <= s@.len()
            },
            None => spec_dimensions_at(s@, i as int) is None,
        },
{
    let st = skip_ws(s, i);
    if st < s.len() && s[st] == 40 {
        let xs = skip_ws(s, st + 1);
        match u32_at(s, xs) {
            Some((x, j1)) => {
                let c = skip_ws(s, j1);
                if c < s.len() && s[c] == 44 {
                    let ys = skip_ws(s, c + 1);
                    match u32_at(s, ys) {
                        Some((y, j2)) => {
                            let e = skip_ws(s, j2);
                            if e < s.len() && s[e] == 41 {
                                Some((crate::style::UVec2 { x, y }, e + 1))
                            } else {
                                None
                            }
                        },
                        None => None,
                    }
                } else {
                    None
                }
            },
            None => None,
        }
    } else {
        match u32_at(s, st) {
            Some((v, j)) => Some((crate::style::UVec2 { x: v, y: v }, j)),
            None => None,
        }
    }
}

/// The atlas grammar: cell dimensions, column and row counts, then an
/// optional `p` padding pair and an optional `o` offset pair, in that
/// order.
pub open spec fn spec_parse_atlas(s: Seq<u8>) -> Option<crate::style::Atlas> {
    match spec_dimensions_at(s, 0) {
        Option::Some((size, j0)) => {
            let cs = spec_skip_ws(s, j0);
            match spec_u32_at(s, cs) {
                Option::Some((columns, j1)) => {
                    let rs = spec_skip_ws(s, j1);
                    match spec_u32_at(s, rs) {
                        Option::Some((rows, j2)) => {
                            let ps = spec_skip_ws(s, j2);
                            if ps < s.len() && s[ps] == 112 {
                                match spec_dimensions_at(s, ps + 1) {
                                    Option::Some((pad, j3)) => {
                                        let os = spec_skip_ws(s, j3);
                                        if os < s.len() && s[os] == 111 {
                                            match spec_dimensions_at(s, os + 1) {
                                                Option::Some((off, j4)) => {
                                                    if spec_skip_ws(s, j4) == s.len() {
                                                        Option::Some(
                                                            crate::style::Atlas {
                                                                size,
                                                                columns: columns as u32,
                                                                rows: rows as u32,
                                                                padding: Option::Some(pad),
                                                                offset: Option::Some(off),
                                                            },
                                                        )
                                                    } else {
                                                        Option::None
                                                    }
                                                },
                                                Option::None => Option::None,
                                            }
                                        } else if os == s.len() {
                                            Option::Some(
                                                crate::style::Atlas {
                                                    size,
                                                    columns: columns as u32,
                                                    rows: rows as u32,
                                                    padding: Option::Some(pad),
                                                    offset: Option::None,
                                                },
                                            )
                                        } else {
                                            Option::None
                                        }
                                    },
                                    Option::None => Option::None,
                                }
                            } else if ps < s.len() && s[ps] == 111 {
                                match spec_dimensions_at(s, ps + 1) {
                                    Option::Some((off, j3)) => {
                                        if spec_skip_ws(s, j3) == s.len() {
                                            Option::Some(
                                                crate::style::Atlas {
                                                    size,
                                                    columns: columns as u32,
                                                    rows: rows as u32,
                                                    padding: Option::None,
                                                    offset: Option::Some(off),
                                                },
                                            )
                                        } else {
                                            Option::None
                                        }
                                    },
                                    Option::None => Option::None,
                                }
                            } else if ps == s.len() {
                                Option::Some(
                                    crate::style::Atlas {
                                        size,
                                        columns: columns as u32,
                                        rows: rows as u32,
                                        padding: Option::None,
                                        offset: Option::None,
                                    },
                                )
                            } else {
                                Option::None
                            }
                        },
                        Option::None => Option::None,
                    }
                },
                Option::None => Option::None,
            }
        },
        Option::None => Option::None,
    }
}

/// Parses an atlas descriptor; accepts exactly what [`spec_parse_atlas`]
/// accepts.
pub fn parse_atlas(s: &[u8]) -> (r: Option<crate::style::Atlas>)
    ensures
        r == spec_parse_atlas(s@),
{
    let (size, j0) = match dimensions_at(s, 0) {
        Some(p) => p,
        None => {
            return None;
        },
    };
    let cs = skip_ws(s, j0);
    let (columns, j1) = match u32_at(s, cs) {
        Some(p) => p,
        None => {
            return None;
        },
    };
    let rs = skip_ws(s, j1);
    let (rows, j2) = match u32_at(s, rs) {
        Some(p) => p,
        None => {
            return None;
        },
    };
    let ps = skip_ws(s, j2);
    if ps < s.len() && s[ps] == 112 {
        let (pad, j3) = match dimensions_at(s, ps + 1) {
            Some(p) => p,
            None => {
                return None;
            },
        };
        let os = skip_ws(s, j3);
        if os < s.len() && s[os] == 111 {
            let (off, j4) = match dimensions_at(s, os + 1) {
                Some(p) => p,
                None => {
                    return None;
                },
            };
            if skip_ws(s, j4) == s.len() {
                Some(
                    crate::style::Atlas {
                        size,
                        columns,
                        rows,
                        padding: Some(pad),
                        offset: Some(off),
                    },
                )
            } else {
                None
            }
        } else if os == s.len() {
            Some(crate::style::Atlas { size, columns, rows, padding: Some(pad), offset: None })
        } else {
            None
        }
    } else if ps < s.len() && s[ps] == 111 {
        let (off, j3) = match dimensions_at(s, ps + 1) {
            Some(p) => p,
            None => {
                return None;
            },
        };
        if skip_ws(s, j3) == s.len() {
            Some(crate::style::Atlas { size, columns, rows, padding: None, offset: Some(off) })
        } else {
            None
        }
    } else if ps == s.len() {
        Some(crate::style::Atlas { size, columns, rows, padding: None, offset: None })
    } else {
        None
    }
}

/// A scalar pair starting at `i`: `(x, y)` with decimal numbers; yields
/// the pair and the position after it.
pub open spec fn spec_vec2_at(s: Seq<u8>, i: int) -> Option<(crate::style::Vec2n, int)> {
    let st = spec_skip_ws(s, i);
    if st < s.len() && s[st] == 40 {
        let xs = spec_skip_ws(s, st + 1);
        match spec_parse_number_at(s, xs) {
            Option::Some((x, j1)) => {
                let c = spec_skip_ws(s, j1);
                if c < s.len() && s[c] == 44 {
                    let ys = spec_skip_ws(s, c + 1);
                    match spec_parse_number_at(s, ys) {
                        Option::Some((y, j2)) => {
                            let e = spec_skip_ws(s, j2);
                            if e < s.len() && s[e] == 41 {
                                Option::Some(
                                    (
                                        crate::style::Vec2n {
                                            x: Num { milli: x as i64 },
                                            y: Num { milli: y as i64 },
                                        },
                                        e + 1,
                                    ),
                                )
                            } else {
                                Option::None
                            }
                        },
                        Option::None => Option::None,
                    }
                } else {
                    Option::None
                }
            },
            Option::None => Option::None,
        }
    } else {
        Option::None
    }
}

/// Executable counterpart of [`spec_vec2_at`].
pub fn vec2_at(s: &[u8], i: usize) -> (r: Option<(crate::style::Vec2n, usize)>)
    requires
        i <= s@.len(),
    ensures
        match r {
            Some((v, j)) => {
                &&& spec_vec2_at(s@, i as int) == Option::Some((v, j as int))
                &&& i <= j <= s@.len()
            },
            None => spec_vec2_at(s@, i as int) is None,
        },
{
    let st = skip_ws(s, i);
    if st < s.len() && s[st] == 40 {
        let xs = skip_ws(s, st + 1);
        match parse_number_at(s, xs) {
            Some(xt) => {
                let c = skip_ws(s, xt.end);
                if c < s.len() && s[c] == 44 {
                    let ys = skip_ws(s, c + 1);
                    match parse_number_at(s, ys) {
                        Some(yt) => {
                            let e = skip_ws(s, yt.end);
                            if e < s.len() && s[e] == 41 {
                                Some(
                                    (
                                        crate::style::Vec2n {
                                            x: Num { milli: xt.milli },
                                            y: Num { milli: yt.milli },
                                        },
                                        e + 1,
                                    ),
                                )
                            } else {
                                None
                            }
                        },
                        None => None,
                    }
                } else {
                    None
                }
            },
            None => None,
        }
    } else {
        None
    }
}

/// The smaller of two scalars.
pub open spec fn spec_num_min(a: Num, b: Num) -> Num {
    if a.milli <= b.milli {
        a
    } else {
        b
    }
}

/// The larger of two scalars.
pub open spec fn spec_num_max(a: Num, b: Num) -> Num {
    if a.milli >= b.milli {
        a
    } else {
        b
    }
}

/// The image region grammar: two corner pairs; the region is normalized
/// so `min` holds the smaller coordinates component-wise.
pub open spec fn spec_parse_rect_region(s: Seq<u8>) -> Option<crate::style::RectRegion> {
    match spec_vec2_at(s, 0) {
        Option::Some((a, j1)) => {
            match spec_vec2_at(s, j1) {
                Option::Some((b, j2)) => {
                    if spec_skip_ws(s, j2) == s.len() {
                        Option::Some(
                            crate::style::RectRegion {
                                min: crate::style::Vec2n {
                                    x: spec_num_min(a.x, b.x),
                                    y: spec_num_min(a.y, b.y),
                                },
                                max: crate::style::Vec2n {
                                    x: spec_num_max(a.x, b.x),
                                    y: spec_num_max(a.y, b.y),
                                },
                            },
                        )
                    } else {
                        Option::None
                    }
                },
                Option::None => Option::None,
            }
        },
        Option::None => Option::None,
    }
}

/// Parses an image region; accepts exactly what
/// [`spec_parse_rect_region`] accepts.
pub fn parse_rect_region(s: &[u8]) -> (r: Option<crate::style::RectRegion>)
    ensures
        r == spec_parse_rect_region(s@),
{
    match vec2_at(s, 0) {
        Some((a, j1)) => {
            match vec2_at(s, j1) {
                Some((b, j2)) => {
                    if skip_ws(s, j2) == s.len() {
                        let min_x = if a.x.milli <= b.x.milli {
                            a.x
                        } else {
                            b.x
                        };
                        let min_y = if a.y.milli <= b.y.milli {
                            a.y
                        } else {
                            b.y
                        };
                        let max_x = if a.x.milli >= b.x.milli {
                            a.x
                        } else {
                            b.x
                        };
                        let max_y = if a.y.milli >= b.y.milli {
                            a.y
                        } else {
                            b.y
                        };
                        Some(
                            crate::style::RectRegion {
                                min: crate::style::Vec2n { x: min_x, y: min_y },
                                max: crate::style::Vec2n { x: max_x, y: max_y },
                            },
                        )
                    } else {
                        None
                    }
                },
                None => None,
            }
        },
        None => None,
    }
}

/// The text shadow grammar: an offset pair, then a color.
pub open spec fn spec_parse_text_shadow(s: Seq<u8>) -> Option<crate::style::TextShadowStyle> {
    match spec_vec2_at(s, 0) {
        Option::Some((offset, j)) => {
            match spec_color_at(s, j) {
                Option::Some(color) => Option::Some(
                    crate::style::TextShadowStyle { offset, color },
                ),
                Option::None => Option::None,
            }
        },
        Option::None => Option::None,
    }
}

/// Parses a text shadow; accepts exactly what
/// [`spec_parse_text_shadow`] accepts.
pub fn parse_text_shadow(s: &[u8]) -> (r: Option<crate::style::TextShadowStyle>)
    ensures
        r == spec_parse_text_shadow(s@),
{
    match vec2_at(s, 0) {
        Some((offset, j)) => {
            match parse_color_at(s, j) {
                Some(color) => Some(crate::style::TextShadowStyle { offset, color }),
                None => None,
            }
        },
        None => None,
    }
}

/// A length starting at `i`, as one non-whitespace token.
pub open spec fn spec_val_at(s: Seq<u8>, i: int) -> Option<(Val, int)> {
    let st = spec_skip_ws(s, i);
    let en = spec_nonws_end(s, st);
    if st < en {
        match spec_val_token(s.subrange(st, en)) {
            Option::Some(v) => Option::Some((v, en)),
            Option::None => Option::None,
        }
    } else {
        Option::None
    }
}

/// Executable counterpart of [`spec_val_at`].
pub fn val_at(s: &[u8], i: usize) -> (r: Option<(Val, usize)>)
    requires
        i <= s@.len(),
    ensures
        match r {
            Some((v, j)) => {
                &&& spec_val_at(s@, i as int) == Option::Some((v, j as int))
                &&& i <= j <= s@.len()
            },
            None => spec_val_at(s@, i as int) is None,
        },
{
    let st = skip_ws(s, i);
    let en = nonws_end(s, st);
    if st < en {
        match val_token(&s[st..en]) {
            Some(v) => Some((v, en)),
            None => None,
        }
    } else {
        None
    }
}

/// The outline grammar: a width length, an offset length, then a color.
pub open spec fn spec_parse_outline(s: Seq<u8>) -> Option<crate::style::Outline> {
    match spec_val_at(s, 0) {
        Option::Some((width, j1)) => {
            match spec_val_at(s, j1) {
                Option::Some((offset, j2)) => {
                    match spec_color_at(s, j2) {
                        Option::Some(color) => Option::Some(
                            crate::style::Outline { width, offset, color },
                        ),
                        Option::None => Option::None,
                    }
                },
                Option::None => Option::None,
            }
        },
        Option::None => Option::None,
    }
}

/// Parses an outline; accepts exactly what [`spec_parse_outline`]
/// accepts.
pub fn parse_outline(s: &[u8]) -> (r: Option<crate::style::Outline>)
    ensures
        r == spec_parse_outline(s@),
{
    match val_at(s, 0) {
        Some((width, j1)) => {
            match val_at(s, j1) {
                Some((offset, j2)) => {
                    match parse_color_at(s, j2) {
                        Some(color) => Some(crate::style::Outline { width, offset, color }),
                        None => None,
                    }
                },
                None => None,
            }
        },
        None => None,
    }
}

/// A slice scale mode on one bare token: `stretch` or `tile(number)`.
pub open spec fn spec_slice_scale_token(t: Seq<u8>) -> Option<crate::style::SliceScaleMode> {
    if t == "stretch".spec_bytes() {
        Option::Some(crate::style::SliceScaleMode::Stretch)
    } else if t.len() >= 6 && t.subrange(0, 5) == "tile(".spec_bytes() && t[t.len() - 1] == 41 {
        match spec_parse_number_at(t, 5) {
            Option::Some((m, j)) => {
                if j == t.len() - 1 {
                    Option::Some(crate::style::SliceScaleMode::Tile(Num { milli: m as i64 }))
                } else {
                    Option::None
                }
            },
            Option::None => Option::None,
        }
    } else {
        Option::None
    }
}

/// Executable counterpart of [`spec_slice_scale_token`].
pub fn slice_scale_token(t: &[u8]) -> (r: Option<crate::style::SliceScaleMode>)
    ensures
        r == spec_slice_scale_token(t@),
{
    if slice_eq_bytes(t, "stretch".as_bytes()) {
        return Some(crate::style::SliceScaleMode::Stretch);
    }
    if t.len() >= 6 && slice_eq_bytes(&t[0..5], "tile(".as_bytes()) && t[t.len() - 1] == 41 {
        match parse_number_at(t, 5) {
            Some(tok) => {
                if tok.end == t.len() - 1 {
                    Some(crate::style::SliceScaleMode::Tile(Num { milli: tok.milli }))
                } else {
                    None
                }
            },
            None => None,
        }
    } else {
        None
    }
}

/// The pixel border of a nine-slice from one, two, or four `px` tokens of
/// the token list.
pub open spec fn spec_slice_border(s: Seq<u8>, toks: Seq<(int, int)>, n: int) -> Option<
    crate::style::BorderRect,
> {
    if n == 1 {
        match spec_px_token(s.subrange(toks[0].0, toks[0].1)) {
            Option::Some(v) => Option::Some(
                crate::style::BorderRect { left: v, right: v, top: v, bottom: v },
            ),
            Option::None => Option::None,
        }
    } else if n == 2 {
        match (
            spec_px_token(s.subrange(toks[0].0, toks[0].1)),
            spec_px_token(s.subrange(toks[1].0, toks[1].1)),
        ) {
            (Option::Some(x), Option::Some(y)) => Option::Some(
                crate::style::BorderRect { left: x, right: x, top: y, bottom: y },
            ),
            _ => Option::None,
        }
    } else if n == 4 {
        match (
            spec_px_token(s.subrange(toks[0].0, toks[0].1)),
            spec_px_token(s.subrange(toks[1].0, toks[1].1)),
            spec_px_token(s.subrange(toks[2].0, toks[2].1)),
            spec_px_token(s.subrange(toks[3].0, toks[3].1)),
        ) {
            (
                Option::Some(top),
                Option::Some(right),
                Option::Some(bottom),
                Option::Some(left),
            ) => Option::Some(crate::style::BorderRect { left, right, top, bottom }),
            _ => Option::None,
        }
    } else {
        Option::None
    }
}

/// The image mode grammar: `auto`, `stretch`, a tiled triple
/// `bool bool number`, or a nine-slice: a pixel border (one, two, or four
/// `px` tokens), two slice scale modes, and a corner scale number.
pub open spec fn spec_parse_image_mode(s: Seq<u8>) -> Option<crate::style::NodeImageMode> {
    let toks = spec_ws_tokens(s, 0);
    let n = toks.len() as int;
    if n == 1 {
        let t = s.subrange(toks[0].0, toks[0].1);
        if t == "auto".spec_bytes() {
            Option::Some(crate::style::NodeImageMode::Auto)
        } else if t == "stretch".spec_bytes() {
            Option::Some(crate::style::NodeImageMode::Stretch)
        } else {
            Option::None
        }
    } else if n == 3 {
        match (
            crate::keywords::spec_kw_bool(s.subrange(toks[0].0, toks[0].1)),
            crate::keywords::spec_kw_bool(s.subrange(toks[1].0, toks[1].1)),
            spec_num_token(s.subrange(toks[2].0, toks[2].1)),
        ) {
            (Option::Some(tile_x), Option::Some(tile_y), Option::Some(stretch_value)) =>
                Option::Some(
                crate::style::NodeImageMode::Tiled { tile_x, tile_y, stretch_value },
            ),
            _ => Option::None,
        }
    } else if n == 4 || n == 5 || n == 7 {
        match (
            spec_slice_border(s, toks, n - 3),
            spec_slice_scale_token(s.subrange(toks[n - 3].0, toks[n - 3].1)),
            spec_slice_scale_token(s.subrange(toks[n - 2].0, toks[n - 2].1)),
            spec_num_token(s.subrange(toks[n - 1].0, toks[n - 1].1)),
        ) {
            (
                Option::Some(border),
                Option::Some(center_scale_mode),
                Option::Some(sides_scale_mode),
                Option::Some(max_corner_scale),
            ) => Option::Some(
                crate::style::NodeImageMode::Sliced(
                    crate::style::TextureSlice {
                        border,
                        center_scale_mode,
                        sides_scale_mode,
                        max_corner_scale,
                    },
                ),
            ),
            _ => Option::None,
        }
    } else {
        Option::None
    }
}

/// Parses an image mode; accepts exactly what [`spec_parse_image_mode`]
/// accepts.
pub fn parse_image_mode(s: &[u8]) -> (r: Option<crate::style::NodeImageMode>)
    ensures
        r == spec_parse_image_mode(s@),
{
    let toks = ws_tokens(s);
    let n = toks.len();
    if n == 1 {
        let (a, b) = toks[0];
        proof {
            assert(tokens_view(toks@)[0] == (a as int, b as int));
        }
        let t: &[u8] = &s[a..b];
        if slice_eq_bytes(t, "auto".as_bytes()) {
            Some(crate::style::NodeImageMode::Auto)
        } else if slice_eq_bytes(t, "stretch".as_bytes()) {
            Some(crate::style::NodeImageMode::Stretch)
        } else {
            None
        }
    } else if n == 3 {
        let (a0, b0) = toks[0];
        let (a1, b1) = toks[1];
        let (a2, b2) = toks[2];
        proof {
            assert(tokens_view(toks@)[0] == (a0 as int, b0 as int));
            assert(tokens_view(toks@)[1] == (a1 as int, b1 as int));
            assert(tokens_view(toks@)[2] == (a2 as int, b2 as int));
        }
        match (crate::keywords::kw_bool(&s[a0..b0]), crate::keywords::kw_bool(&s[a1..b1]),
        num_token(&s[a2..b2])) {
            (Some(tile_x), Some(tile_y), Some(stretch_value)) => Some(
                crate::style::NodeImageMode::Tiled { tile_x, tile_y, stretch_value },
            ),
            _ => None,
        }
    } else if n == 4 || n == 5 || n == 7 {
        let border = if n == 4 {
            let (a, b) = toks[0];
            proof {
                assert(tokens_view(toks@)[0] == (a as int, b as int));
            }
            match px_token(&s[a..b]) {
                Some(v) => Some(crate::style::BorderRect { left: v, right: v, top: v, bottom: v }),
                None => None,
            }
        } else if n == 5 {
            let (a0, b0) = toks[0];
            let (a1, b1) = toks[1];
            proof {
                assert(tokens_view(toks@)[0] == (a0 as int, b0 as int));
                assert(tokens_view(toks@)[1] == (a1 as int, b1 as int));
            }
            match (px_token(&s[a0..b0]), px_token(&s[a1..b1])) {
                (Some(x), Some(y)) => Some(
                    crate::style::BorderRect { left: x, right: x, top: y, bottom: y },
                ),
                _ => None,
            }
        } else {
            let (a0, b0) = toks[0];
            let (a1, b1) = toks[1];
            let (a2, b2) = toks[2];
            let (a3, b3) = toks[3];
            proof {
                assert(tokens_view(toks@)[0] == (a0 as int, b0 as int));
                assert(tokens_view(toks@)[1] == (a1 as int, b1 as int));
                assert(tokens_view(toks@)[2] == (a2 as int, b2 as int));
                assert(tokens_view(toks@)[3] == (a3 as int, b3 as int));
            }
            match (px_token(&s[a0..b0]), px_token(&s[a1..b1]), px_token(&s[a2..b2]), px_token(
                &s[a3..b3],
            )) {
                (Some(top), Some(right), Some(bottom), Some(left)) => Some(
                    crate::style::BorderRect { left, right, top, bottom },
                ),
                _ => None,
            }
        };
        let (ac, bc) = toks[n - 3];
        let (as2, bs2) = toks[n - 2];
        let (af, bf) = toks[n - 1];
        proof {
            assert(tokens_view(toks@)[n - 3] == (ac as int, bc as int));
            assert(tokens_view(toks@)[n - 2] == (as2 as int, bs2 as int));
            assert(tokens_view(toks@)[n - 1] == (af as int, bf as int));
        }
        match (border, slice_scale_token(&s[ac..bc]), slice_scale_token(&s[as2..bs2]), num_token(
            &s[af..bf],
        )) {
            (
                Some(border),
                Some(center_scale_mode),
                Some(sides_scale_mode),
                Some(max_corner_scale),
            ) => Some(
                crate::style::NodeImageMode::Sliced(
                    crate::style::TextureSlice {
                        border,
                        center_scale_mode,
                        sides_scale_mode,
                        max_corner_scale,
                    },
                ),
            ),
            _ => None,
        }
    } else {
        None
    }
}

/// One `(repeat, track)` group read from `a .. c` (between the
/// parentheses): a repeat count (counts beyond `u16` read as zero), a
/// comma, and one track token.
pub open spec fn spec_group_track(s: Seq<u8>, a: int, c: int) -> Option<
    crate::style::RepeatedGridTrack,
> {
    let rs = crate::scan::spec_ltrim_at(s, a, c);
    let d = crate::scan::spec_digits_end(s, rs);
    if d == rs || d - rs > 15 || d > c {
        Option::None
    } else {
        let v = crate::scan::spec_digits_value(s.subrange(rs, d));
        let repeat: u16 = if v > u16::MAX {
            0
        } else {
            v as u16
        };
        let cm = crate::scan::spec_ltrim_at(s, d, c);
        if cm < c && s[cm] == 44 {
            let lt = crate::scan::spec_ltrim_at(s, cm + 1, c);
            let rt = crate::scan::spec_rtrim_at(s, lt, c);
            match spec_track_token(s.subrange(lt, rt)) {
                Option::Some(track) => Option::Some(
                    crate::style::RepeatedGridTrack { repeat, track },
                ),
                Option::None => Option::None,
            }
        } else {
            Option::None
        }
    }
}

/// Executable counterpart of [`spec_group_track`].
fn group_track(s: &[u8], a: usize, c: usize) -> (r: Option<crate::style::RepeatedGridTrack>)
    requires
        a <= c <= s@.len(),
    ensures
        r == spec_group_track(s@, a as int, c as int),
{
    let rs = crate::scan::ltrim_at(s, a, c);
    match crate::scan::parse_digits(s, rs) {
        Some((v, d)) => {
            proof {
                crate::scan::lemma_digits_end_bounds(s@, rs as int);
            }
            if d > c {
                return None;
            }
            let repeat: u16 = if v > u16::MAX as u64 {
                0
            } else {
                v as u16
            };
            let cm = crate::scan::ltrim_at(s, d, c);
            if cm < c && s[cm] == 44 {
                let lt = crate::scan::ltrim_at(s, cm + 1, c);
                let rt = crate::scan::rtrim_at(s, lt, c);
                match track_token(&s[lt..rt]) {
                    Some(track) => Some(crate::style::RepeatedGridTrack { repeat, track }),
                    None => None,
                }
            } else {
                None
            }
        },
        None => {
            proof {
                crate::scan::lemma_digits_end_bounds(s@, rs as int);
            }
            None
        },
    }
}

/// The repeated-track list from position `i` on: zero or more
/// parenthesized `(repeat, track)` groups separated by optional
/// whitespace.
pub open spec fn spec_repeated_from(s: Seq<u8>, i: int) -> Option<
    Seq<crate::style::RepeatedGridTrack>,
>
    decreases s.len() - i when 0 <= i <= s.len() via spec_repeated_from_dec
{
    let st = spec_skip_ws(s, i);
    if st >= s.len() {
        Option::Some(Seq::empty())
    } else if s[st] != 40 {
        Option::None
    } else {
        match crate::scan::spec_find(s, st + 1, seq![41u8]) {
            Option::Some(c) => {
                match (spec_group_track(s, st + 1, c), spec_repeated_from(s, c + 1)) {
                    (Option::Some(g), Option::Some(rest)) => Option::Some(seq![g] + rest),
                    _ => Option::None,
                }
            },
            Option::None => Option::None,
        }
    }
}

#[via_fn]
proof fn spec_repeated_from_dec(s: Seq<u8>, i: int) {
    crate::scan::lemma_skip_ws_bounds(s, i);
    let st = spec_skip_ws(s, i);
    if st < s.len() && s[st] == 40 {
        crate::scan::lemma_find_bounds(s, st + 1, seq![41u8]);
    }
}

/// The repeated-track grammar on a whole attribute value.
pub open spec fn spec_parse_repeated_tracks(s: Seq<u8>) -> Option<
    Seq<crate::style::RepeatedGridTrack>,
> {
    spec_repeated_from(s, 0)
}

/// Parses a repeated-track list; accepts exactly what
/// [`spec_parse_repeated_tracks`] accepts.
pub fn parse_repeated_tracks(s: &[u8]) -> (r: Option<Vec<crate::style::RepeatedGridTrack>>)
    ensures
        match r {
            Some(v) => spec_parse_repeated_tracks(s@) == Option::Some(v@),
            None => spec_parse_repeated_tracks(s@) is None,
        },
{
    let mut acc: Vec<crate::style::RepeatedGridTrack> = Vec::new();
    let mut i: usize = 0;
    proof {
        assert(s@.len() <= usize::MAX) by {
            let n = s.len();
        }
    }
    loop
        invariant
            i <= s@.len(),
            s@.len() <= usize::MAX,
            match spec_repeated_from(s@, i as int) {
                Option::Some(rest) => spec_parse_repeated_tracks(s@) == Option::Some(acc@ + rest),
                Option::None => spec_parse_repeated_tracks(s@) is None,
            },
        ensures
            match spec_parse_repeated_tracks(s@) {
                Option::Some(v) => v == acc@,
                Option::None => false,
            },
        decreases s@.len() - i,
    {
        let st = skip_ws(s, i);
        if st >= s.len() {
            proof {
                assert(spec_repeated_from(s@, i as int) == Option::Some(
                    Seq::<crate::style::RepeatedGridTrack>::empty(),
                ));
                assert(acc@ + Seq::<crate::style::RepeatedGridTrack>::empty() =~= acc@);
            }
            break ;
        }
        if s[st] != 40 {
            return None;
        }
        let c = match crate::scan::find_byte(s, st + 1, 41) {
            Some(c) => c,
            None => {
                return None;
            },
        };
        match group_track(s, st + 1, c) {
            Some(g) => {
                let ghost old_acc = acc@;
                acc.push(g);
                proof {
                    if spec_repeated_from(s@, c as int + 1) is Some {
                        let rest1 = spec_repeated_from(s@, c as int + 1).unwrap();
                        assert(old_acc + (seq![g] + rest1) =~= acc@ + rest1);
                    }
                }
            },
            None => {
                return None;
            },
        }
        i = c + 1;
    }
    Some(acc)
}

/// The comma-separated frame list from position `i` on. Every entry is
/// trimmed; entries that are not whole numbers are dropped.
pub open spec fn spec_frames_from(s: Seq<u8>, i: int) -> Seq<i64>
    decreases s.len() - i when 0 <= i <= s.len() via spec_frames_from_dec
{
    match crate::scan::spec_find(s, i, seq![44u8]) {
        Option::Some(c) => {
            let lt = crate::scan::spec_ltrim_at(s, i, c);
            let rt = crate::scan::spec_rtrim_at(s, lt, c);
            let rest = spec_frames_from(s, c + 1);
            match spec_i64_token(s.subrange(lt, rt)) {
                Option::Some(v) => seq![v] + rest,
                Option::None => rest,
            }
        },
        Option::None => {
            let lt = crate::scan::spec_ltrim_at(s, i, s.len() as int);
            let rt = crate::scan::spec_rtrim_at(s, lt, s.len() as int);
            match spec_i64_token(s.subrange(lt, rt)) {
                Option::Some(v) => seq![v],
                Option::None => Seq::empty(),
            }
        },
    }
}

#[via_fn]
proof fn spec_frames_from_dec(s: Seq<u8>, i: int) {
    crate::scan::lemma_find_bounds(s, i, seq![44u8]);
}

/// The frame list grammar on a whole attribute value.
pub open spec fn spec_parse_frames(s: Seq<u8>) -> Seq<i64> {
    spec_frames_from(s, 0)
}

/// Parses a frame list; yields exactly [`spec_parse_frames`].
pub fn parse_frames(s: &[u8]) -> (r: Vec<i64>)
    ensures
        r@ == spec_parse_frames(s@),
{
    let mut acc: Vec<i64> = Vec::new();
    let mut i: usize = 0;
    proof {
        assert(s@.len() <= usize::MAX) by {
            let n = s.len();
        }
    }
    loop
        invariant_except_break
            spec_parse_frames(s@) == acc@ + spec_frames_from(s@, i as int),
        invariant
            i <= s@.len(),
            s@.len() <= usize::MAX,
        ensures
            acc@ == spec_parse_frames(s@),
        decreases s@.len() - i,
    {
        match crate::scan::find_byte(s, i, 44) {
            Some(c) => {
                let lt = crate::scan::ltrim_at(s, i, c);
                let rt = crate::scan::rtrim_at(s, lt, c);
                let ghost old_acc = acc@;
                match i64_token(&s[lt..rt]) {
                    Some(v) => {
                        acc.push(v);
                        proof {
                            assert(old_acc + (seq![v] + spec_frames_from(s@, c as int + 1)) =~= acc@
                                + spec_frames_from(s@, c as int + 1));
                        }
                    },
                    None => {},
                }
                i = c + 1;
            },
            None => {
                let lt = crate::scan::ltrim_at(s, i, s.len());
                let rt = crate::scan::rtrim_at(s, lt, s.len());
                let ghost old_acc = acc@;
                match i64_token(&s[lt..rt]) {
                    Some(v) => {
                        acc.push(v);
                        proof {
                            assert(old_acc + seq![v] =~= acc@);
                        }
                    },
                    None => {
                        proof {
                            assert(acc@ + Seq::<i64>::empty() =~= acc@);
                        }
                    },
                }
                break ;
            },
        }
    }
    acc
}

/// The comma-separated name list from position `i` on: every entry is
/// trimmed, empty entries are dropped.
pub open spec fn spec_names_from(s: Seq<u8>, i: int) -> Seq<Seq<u8>>
    decreases s.len() - i when 0 <= i <= s.len() via spec_names_from_dec
{
    match crate::scan::spec_find(s, i, seq![44u8]) {
        Option::Some(c) => {
            let lt = crate::scan::spec_ltrim_at(s, i, c);
            let rt = crate::scan::spec_rtrim_at(s, lt, c);
            let rest = spec_names_from(s, c + 1);
            if lt < rt {
                seq![s.subrange(lt, rt)] + rest
            } else {
                rest
            }
        },
        Option::None => {
            let lt = crate::scan::spec_ltrim_at(s, i, s.len() as int);
            let rt = crate::scan::spec_rtrim_at(s, lt, s.len() as int);
            if lt < rt {
                seq![s.subrange(lt, rt)]
            } else {
                Seq::empty()
            }
        },
    }
}

#[via_fn]
proof fn spec_names_from_dec(s: Seq<u8>, i: int) {
    crate::scan::lemma_find_bounds(s, i, seq![44u8]);
}

/// The handler name list grammar on a whole attribute value.
pub open spec fn spec_parse_names(s: Seq<u8>) -> Seq<Seq<u8>> {
    spec_names_from(s, 0)
}

/// The byte-sequence view of a list of owned byte strings.
pub open spec fn names_view(r: Seq<Vec<u8>>) -> Seq<Seq<u8>> {
    r.map_values(|v: Vec<u8>| v@)
}

/// Parses a comma-separated name list; yields exactly
/// [`spec_parse_names`].
pub fn parse_names(s: &[u8]) -> (r: Vec<Vec<u8>>)
    ensures
        names_view(r@) == spec_parse_names(s@),
{
    let mut acc: Vec<Vec<u8>> = Vec::new();
    let mut i: usize = 0;
    proof {
        assert(s@.len() <= usize::MAX) by {
            let n = s.len();
        }
    }
    loop
        invariant_except_break
            spec_parse_names(s@) == names_view(acc@) + spec_names_from(s@, i as int),
        invariant
            i <= s@.len(),
            s@.len() <= usize::MAX,
        ensures
            names_view(acc@) == spec_parse_names(s@),
        decreases s@.len() - i,
    {
        match crate::scan::find_byte(s, i, 44) {
            Some(c) => {
                let lt = crate::scan::ltrim_at(s, i, c);
                let rt = crate::scan::rtrim_at(s, lt, c);
                let ghost old_acc = acc@;
                if lt < rt {
                    acc.push(crate::util::bytes_range_to_vec(s, lt, rt));
                    proof {
                        assert(names_view(acc@) =~= names_view(old_acc) + seq![
                            s@.subrange(lt as int, rt as int),
                        ]);
                        assert(names_view(old_acc) + (seq![s@.subrange(lt as int, rt as int)]
                            + spec_names_from(s@, c as int + 1)) =~= names_view(acc@)
                            + spec_names_from(s@, c as int + 1));
                    }
                }
                i = c + 1;
            },
            None => {
                let lt = crate::scan::ltrim_at(s, i, s.len());
                let rt = crate::scan::rtrim_at(s, lt, s.len());
                let ghost old_acc = acc@;
                if lt < rt {
                    acc.push(crate::util::bytes_range_to_vec(s, lt, rt));
                    proof {
                        assert(names_view(acc@) =~= names_view(old_acc) + seq![
                            s@.subrange(lt as int, rt as int),
                        ]);
                    }
                } else {
                    proof {
                        assert(names_view(acc@) + Seq::<Seq<u8>>::empty() =~= names_view(acc@));
                    }
                }
                break ;
            },
        }
    }
    acc
}

} // verus!
