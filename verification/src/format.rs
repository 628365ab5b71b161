//! Decimal numbers, human-readable sizes, label truncation and per-sender
//! colors.

use vstd::prelude::*;
use crate::text::{chars_of, string_from_chars, to_owned_string};

verus! {

/// The ASCII digit for `d` (`0 <= d < 10`).
pub open spec fn digit_char(d: int) -> char {
    ((d + 48) as u32) as char
}

/// Decimal digits of `n`, most significant first, no leading zeros.
pub open spec fn nat_str(n: nat) -> Seq<char>
    decreases n,
{
    if n < 10 {
        seq![digit_char(n as int)]
    } else {
        nat_str(n / 10).push(digit_char((n % 10) as int))
    }
}

/// Decimal form of a signed integer (`-` for negatives), as `format!("{}")`.
pub open spec fn int_str(v: int) -> Seq<char> {
    if v < 0 {
        seq!['-'] + nat_str((-v) as nat)
    } else {
        nat_str(v as nat)
    }
}

pub open spec fn is_digit(c: char) -> bool {
    '0' <= c && c <= '9'
}

/// Value of a sequence of ASCII digits (most significant first).
pub open spec fn digits_value(cs: Seq<char>) -> int
    decreases cs.len(),
{
    if cs.len() == 0 {
        0
    } else {
        digits_value(cs.drop_last()) * 10 + ((cs.last() as u32) - 48)
    }
}

/// Length of the optional leading sign of `cs`.
pub open spec fn sign_len(cs: Seq<char>) -> int {
    if cs.len() > 0 && (cs[0] == '-' || cs[0] == '+') {
        1
    } else {
        0
    }
}

/// Every character of `cs` is an ASCII digit.
pub open spec fn all_digits(cs: Seq<char>) -> bool {
    forall|k: int| 0 <= k < cs.len() ==> is_digit(#[trigger] cs[k])
}

/// The integer denoted by `cs` as Rust's integer `parse` reads it: an
/// optional `+`/`-` sign followed by at least one ASCII digit, nothing else.
pub open spec fn spec_parse_int(cs: Seq<char>) -> Option<int> {
    let body = cs.subrange(sign_len(cs), cs.len() as int);
    if body.len() > 0 && all_digits(body) {
        Some(if cs[0] == '-' { -digits_value(body) } else { digits_value(body) })
    } else {
        None
    }
}

proof fn lemma_nat_str_digits(n: nat)
    ensures
        nat_str(n).len() > 0,
        forall|k: int| 0 <= k < nat_str(n).len() ==> is_digit(#[trigger] nat_str(n)[k]),
        digits_value(nat_str(n)) == n,
        nat_str(n)[0] != '-' && nat_str(n)[0] != '+',
    decreases n,
{
    if n >= 10 {
        lemma_nat_str_digits(n / 10);
        let s = nat_str(n);
        let d = digit_char((n % 10) as int);
        assert(s == nat_str(n / 10).push(d));
        assert(s.drop_last() =~= nat_str(n / 10));
        assert(d as u32 == (n % 10) + 48);
        assert(digits_value(s) == digits_value(nat_str(n / 10)) * 10 + (n % 10));
        assert forall|k: int| 0 <= k < s.len() implies is_digit(#[trigger] s[k]) by {
            if k < s.len() - 1 {
                assert(s[k] == nat_str(n / 10)[k]);
            }
        }
    } else {
        let s = nat_str(n);
        assert(s.drop_last() =~= Seq::<char>::empty());
        assert(digits_value(s) == digits_value(s.drop_last()) * 10 + ((s.last() as u32) - 48));
    }
}

/// Reading back the decimal form of an integer gives the integer.
pub proof fn lemma_parse_int_str(v: int)
    ensures
        spec_parse_int(int_str(v)) == Some(v),
{
    if v < 0 {
        let m = (-v) as nat;
        lemma_nat_str_digits(m);
        let cs = int_str(v);
        assert(cs.subrange(1, cs.len() as int) =~= nat_str(m));
    } else {
        lemma_nat_str_digits(v as nat);
        let cs = int_str(v);
        assert(cs.subrange(0, cs.len() as int) =~= cs);
    }
}

/// The decimal form of an integer is non-empty, starts with `-` or a
/// digit and ends with a digit (so it has no surrounding whitespace).
pub proof fn lemma_int_str_edges(v: int)
    ensures
        int_str(v).len() > 0,
        int_str(v)[0] == '-' || is_digit(int_str(v)[0]),
        is_digit(int_str(v)[int_str(v).len() - 1]),
{
    if v < 0 {
        lemma_nat_str_digits((-v) as nat);
        let t = nat_str((-v) as nat);
        assert(int_str(v)[int_str(v).len() - 1] == t[t.len() - 1]);
    } else {
        lemma_nat_str_digits(v as nat);
    }
}

/// Decimal digits of an unsigned value, as characters.
pub fn u64_digits(n: u64) -> (cs: Vec<char>)
    ensures
        cs@ == nat_str(n as nat),
{
    // Collect digits least significant first, then reverse.
    let mut rev: Vec<char> = Vec::new();
    let mut m = n;
    while m >= 10
        invariant
            nat_str(n as nat) == nat_str(m as nat) + rev@.reverse(),
        decreases m,
    {
        let c = ((m % 10 + 48) as u8) as char;
        rev.push(c);
        proof {
            assert(nat_str(m as nat) == nat_str((m / 10) as nat).push(digit_char((m % 10) as int)));
            assert(rev@.reverse() =~= seq![c] + rev@.drop_last().reverse());
            assert(nat_str((m / 10) as nat).push(c) + rev@.drop_last().reverse() =~= nat_str(
                (m / 10) as nat,
            ) + rev@.reverse());
        }
        m = m / 10;
    }
    let c = ((m + 48) as u8) as char;
    rev.push(c);
    proof {
        assert(nat_str(m as nat) =~= seq![c]);
        assert(rev@.reverse() =~= seq![c] + rev@.drop_last().reverse());
    }
    let mut cs: Vec<char> = Vec::new();
    let mut k = rev.len();
    while k > 0
        invariant
            k <= rev.len(),
            cs@ == rev@.reverse().take((rev.len() - k) as int),
        decreases k,
    {
        k = k - 1;
        cs.push(rev[k]);
        proof {
            assert(cs@ =~= rev@.reverse().take((rev.len() - k) as int));
        }
    }
    proof {
        assert(rev@.reverse().take(rev.len() as int) =~= rev@.reverse());
    }
    cs
}

/// Decimal digits of a signed value, with a leading `-` for negatives.
pub fn i64_digits(v: i64) -> (cs: Vec<char>)
    ensures
        cs@ == int_str(v as int),
{
    if v < 0 {
        let mag: u64 = ((-(v + 1)) as u64) + 1;
        let ds = u64_digits(mag);
        let mut cs: Vec<char> = Vec::new();
        cs.push('-');
        let mut k: usize = 0;
        while k < ds.len()
            invariant
                k <= ds.len(),
                cs@ == seq!['-'] + ds@.take(k as int),
            decreases ds.len() - k,
        {
            cs.push(ds[k]);
            k = k + 1;
            proof {
                assert(cs@ =~= seq!['-'] + ds@.take(k as int));
            }
        }
        proof {
            assert(ds@.take(ds.len() as int) =~= ds@);
        }
        cs
    } else {
        u64_digits(v as u64)
    }
}

/// Decimal form of `v` (what `v.to_string()` gives).
pub fn i64_to_string(v: i64) -> (s: String)
    ensures
        s@ == int_str(v as int),
{
    string_from_chars(&i64_digits(v))
}

proof fn lemma_parse_rejects_non_digit(cs: Seq<char>, i: int)
    requires
        sign_len(cs) <= i < cs.len(),
        !is_digit(cs[i]),
    ensures
        spec_parse_int(cs) is None,
{
    let body = cs.subrange(sign_len(cs), cs.len() as int);
    assert(body[i - sign_len(cs)] == cs[i]);
}

proof fn lemma_digits_value_grows(cs: Seq<char>, k: int)
    requires
        0 <= k <= cs.len(),
        forall|i: int| 0 <= i < cs.len() ==> is_digit(#[trigger] cs[i]),
    ensures
        digits_value(cs.take(k)) <= digits_value(cs),
        0 <= digits_value(cs.take(k)),
    decreases cs.len() - k,
{
    if k < cs.len() {
        lemma_digits_value_grows(cs, k + 1);
        assert(cs.take(k + 1).drop_last() =~= cs.take(k));
        assert(cs.take(k + 1).last() == cs[k]);
        lemma_digits_value_nonneg(cs.take(k));
    } else {
        assert(cs.take(k) =~= cs);
        lemma_digits_value_nonneg(cs);
    }
}

proof fn lemma_digits_value_nonneg(cs: Seq<char>)
    requires
        forall|i: int| 0 <= i < cs.len() ==> is_digit(#[trigger] cs[i]),
    ensures
        0 <= digits_value(cs),
    decreases cs.len(),
{
    if cs.len() > 0 {
        lemma_digits_value_nonneg(cs.drop_last());
        assert(is_digit(cs[cs.len() - 1]));
    }
}

/// Sign and magnitude of the integer written in `cs`, when it is well
/// formed and its magnitude fits in 64 bits.
pub fn parse_sign_magnitude(cs: &Vec<char>) -> (r: Option<(bool, u64)>)
    ensures
        match r {
            Some((neg, mag)) => spec_parse_int(cs@) == Some(
                if neg { -(mag as int) } else { mag as int },
            ),
            None => match spec_parse_int(cs@) {
                Some(v) => v > u64::MAX || v < -(u64::MAX as int),
                None => true,
            },
        },
{
    let n = cs.len();
    let neg = n > 0 && cs[0] == '-';
    let start: usize = if n > 0 && (cs[0] == '-' || cs[0] == '+') { 1 } else { 0 };
    let ghost body = cs@.subrange(start as int, n as int);
    if start >= n {
        return None;
    }
    let mut k = start;
    let mut mag: u64 = 0;
    while k < n
        invariant
            start <= k <= n,
            n == cs.len(),
            start < n,
            start == sign_len(cs@),
            neg == (cs@.len() > 0 && cs@[0] == '-'),
            body == cs@.subrange(start as int, n as int),
            forall|i: int| start <= i < k ==> is_digit(#[trigger] cs@[i]),
            mag == digits_value(body.take(k - start)),
        decreases n - k,
    {
        let c = cs[k];
        if !('0' <= c && c <= '9') {
            proof {
                lemma_parse_rejects_non_digit(cs@, k as int);
            }
            return None;
        }
        let d = (c as u32 - 48) as u64;
        proof {
            assert(body.take(k + 1 - start).drop_last() =~= body.take(k - start));
            assert(body.take(k + 1 - start).last() == c);
        }
        if mag > (u64::MAX - d) / 10 {
            proof {
                if forall|j: int| 0 <= j < body.len() ==> is_digit(#[trigger] body[j]) {
                    lemma_digits_value_grows(body, k + 1 - start);
                    assert(digits_value(body.take(k + 1 - start)) == mag * 10 + d);
                    assert(mag * 10 + d > u64::MAX) by (nonlinear_arith)
                        requires
                            mag > (u64::MAX - d) / 10,
                            d <= 9,
                    ;
                }
            }
            return None;
        }
        proof {
            assert(mag * 10 + d <= u64::MAX) by (nonlinear_arith)
                requires
                    mag <= (u64::MAX - d) / 10,
                    d <= 9,
            ;
        }
        mag = mag * 10 + d;
        k = k + 1;
    }
    proof {
        assert(body.take(n - start) =~= body);
        assert forall|i: int| 0 <= i < body.len() implies is_digit(#[trigger] body[i]) by {
            assert(body[i] == cs@[start + i]);
        }
    }
    Some((neg, mag))
}

/// `v` parsed as an `i64`, as `str::parse::<i64>` reads it.
pub open spec fn spec_parse_i64(cs: Seq<char>) -> Option<i64> {
    match spec_parse_int(cs) {
        Some(v) => if i64::MIN <= v <= i64::MAX { Some(v as i64) } else { None },
        None => None,
    }
}

/// `v` parsed as an `i32`, as `str::parse::<i32>` reads it.
pub open spec fn spec_parse_i32(cs: Seq<char>) -> Option<i32> {
    match spec_parse_int(cs) {
        Some(v) => if i32::MIN <= v <= i32::MAX { Some(v as i32) } else { None },
        None => None,
    }
}

/// Parses a decimal `i64` (optional sign, digits only).
pub fn parse_i64(cs: &Vec<char>) -> (r: Option<i64>)
    ensures
        r == spec_parse_i64(cs@),
{
    match parse_sign_magnitude(cs) {
        Some((neg, mag)) => {
            if neg {
                if mag <= 0x8000_0000_0000_0000 {
                    if mag == 0x8000_0000_0000_0000 {
                        Some(i64::MIN)
                    } else {
                        Some(-(mag as i64))
                    }
                } else {
                    None
                }
            } else if mag <= i64::MAX as u64 {
                Some(mag as i64)
            } else {
                None
            }
        },
        None => None,
    }
}

/// Parses a decimal `i32` (optional sign, digits only).
pub fn parse_i32(cs: &Vec<char>) -> (r: Option<i32>)
    ensures
        r == spec_parse_i32(cs@),
{
    match parse_sign_magnitude(cs) {
        Some((neg, mag)) => {
            if neg {
                if mag <= 0x8000_0000 {
                    Some((-(mag as i64)) as i32)
                } else {
                    None
                }
            } else if mag <= i32::MAX as u64 {
                Some(mag as i32)
            } else {
                None
            }
        },
        None => None,
    }
}

/// `s` cut to at most `max` characters: unchanged when it fits, otherwise
/// its first `max - 1` characters followed by an ellipsis (nothing at all
/// when `max` is zero).
pub open spec fn spec_ellipsize(s: Seq<char>, max: nat) -> Seq<char> {
    if s.len() <= max {
        s
    } else if max == 0 {
        Seq::empty()
    } else {
        s.take(max - 1) + seq!['…']
    }
}

/// Truncates `s` to at most `max` chars, adding an ellipsis when clipped
/// (single-line chat rows).
pub fn ellipsize(s: &str, max: usize) -> (r: String)
    ensures
        r@ == spec_ellipsize(s@, max as nat),
{
    let cs = chars_of(s);
    if cs.len() <= max {
        return to_owned_string(s);
    }
    if max == 0 {
        return String::new();
    }
    let keep = max - 1;
    let mut out: Vec<char> = Vec::new();
    let mut k: usize = 0;
    while k < keep
        invariant
            k <= keep,
            keep < cs.len(),
            out@ == cs@.take(k as int),
        decreases keep - k,
    {
        out.push(cs[k]);
        k = k + 1;
        proof {
            assert(out@ =~= cs@.take(k as int));
        }
    }
    out.push('…');
    string_from_chars(&out)
}

/// An ellipsized label never exceeds `max` characters and is the original
/// when it fits; a clipped one is a prefix of the original followed by one
/// ellipsis (empty when `max` is zero).
pub proof fn lemma_ellipsize_bounded(s: Seq<char>, max: nat)
    ensures
        spec_ellipsize(s, max).len() <= max,
        s.len() <= max ==> spec_ellipsize(s, max) == s,
        s.len() > max && max >= 1 ==> spec_ellipsize(s, max).len() == max && spec_ellipsize(s, max).last()
            == '…' && spec_ellipsize(s, max).drop_last() == s.take(max - 1),
{
    if s.len() > max && max >= 1 {
        assert((s.take(max - 1) + seq!['…']).drop_last() =~= s.take(max - 1));
    }
}

/// Telegram's group sender palette (7 hues), picked deterministically from
/// the sender id so a given author always gets the same color.
pub const SENDER_COLORS: [(u8, u8, u8); 7] = [
    (228, 105, 98),
    (230, 145, 56),
    (119, 156, 62),
    (46, 174, 176),
    (124, 132, 219),
    (214, 96, 178),
    (240, 122, 90),
];

/// Palette slot of a sender id (`None` counts as 0): the Euclidean
/// remainder modulo the palette size.
pub open spec fn sender_slot(id: Option<i64>) -> int {
    match id {
        Some(v) => (v as int) % 7,
        None => 0,
    }
}

/// Color of a sender's display name (by bot-api id).
pub fn sender_color(id: Option<i64>) -> (c: (u8, u8, u8))
    ensures
        0 <= sender_slot(id) < 7,
        c == SENDER_COLORS@[sender_slot(id)],
{
    let v: i64 = match id {
        Some(v) => v,
        None => 0,
    };
    let r = v % 7;
    let i: usize = if r < 0 { (r + 7) as usize } else { r as usize };
    SENDER_COLORS[i]
}

/// Spacing of the `f64` values around a non-negative integer `b`: `1`
/// below 2^53, doubling with each further binary digit.
pub open spec fn f64_spacing(b: nat) -> nat
    decreases b,
{
    if b < 0x20_0000_0000_0000 {
        1
    } else {
        2 * f64_spacing(b / 2)
    }
}

/// `n / d` rounded to the nearest integer, ties to even.
pub open spec fn round_half_even(n: nat, d: nat) -> nat {
    let q = n / d;
    let r = n % d;
    if 2 * r > d || (2 * r == d && q % 2 == 1) {
        q + 1
    } else {
        q
    }
}

/// The integer-valued `f64` nearest to `b` (what `b as f64` holds).
pub open spec fn f64_of(b: nat) -> nat {
    round_half_even(b, f64_spacing(b)) * f64_spacing(b)
}

/// A number of tenths `q` written with one decimal: `12` is "1.2".
pub open spec fn one_decimal(q: nat) -> Seq<char> {
    nat_str(q / 10) + seq!['.', digit_char((q % 10) as int)]
}

pub open spec fn kib() -> nat {
    1024
}

pub open spec fn mib() -> nat {
    1024 * 1024
}

pub open spec fn gib() -> nat {
    1024 * 1024 * 1024
}

/// Human-readable size ("1.5 MB" style): gigabytes and megabytes with one
/// decimal, kilobytes with none, plain bytes below 1 KB. The value is the
/// `f64` nearest to the (non-negative part of the) byte count, rounded to
/// the shown precision with ties to even.
pub open spec fn spec_fmt_size(bytes: int) -> Seq<char> {
    let b: nat = if bytes > 0 { bytes as nat } else { 0 };
    let x = f64_of(b);
    if x >= gib() {
        one_decimal(round_half_even(10 * x, gib())) + " GB"@
    } else if x >= mib() {
        one_decimal(round_half_even(10 * x, mib())) + " MB"@
    } else if x >= kib() {
        nat_str(round_half_even(x, kib())) + " KB"@
    } else {
        int_str(bytes) + " B"@
    }
}

/// `round_half_even(n, d)`, computed.
fn div_round_half_even(n: u128, d: u128) -> (q: u128)
    requires
        d > 0,
        n / d < u128::MAX,
    ensures
        q == round_half_even(n as nat, d as nat),
        q <= n / d + 1,
{
    let q = n / d;
    let r = n % d;
    if r > d - r || (r == d - r && q % 2 == 1) {
        q + 1
    } else {
        q
    }
}

proof fn lemma_spacing_step(b: nat, u: nat, t: nat)
    requires
        u >= 1,
        t == b / u,
        t >= 0x20_0000_0000_0000,
        f64_spacing(b) == u * f64_spacing(t),
    ensures
        t / 2 == b / (u * 2),
        f64_spacing(b) == (u * 2) * f64_spacing(t / 2),
{
    vstd::arithmetic::div_mod::lemma_div_denominator(b as int, u as int, 2);
    assert(f64_spacing(t) == 2 * f64_spacing(t / 2));
    vstd::arithmetic::mul::lemma_mul_is_associative(u as int, 2, f64_spacing(t / 2) as int);
}

proof fn lemma_spacing_bound(b: nat, u: nat, t: nat)
    requires
        u >= 1,
        t == b / u,
        t >= 0x20_0000_0000_0000,
        b < 0x8000_0000_0000_0000,
    ensures
        u < 1024,
{
    vstd::arithmetic::div_mod::lemma_fundamental_div_mod(b as int, u as int);
    assert(u * t >= u * 0x20_0000_0000_0000) by (nonlinear_arith)
        requires
            t >= 0x20_0000_0000_0000,
            u >= 1,
    ;
    assert(u * (b / u) <= b) by {
        vstd::arithmetic::div_mod::lemma_mod_pos_bound(b as int, u as int);
    }
    assert(u < 1024) by (nonlinear_arith)
        requires
            u * 0x20_0000_0000_0000 <= b,
            b < 0x8000_0000_0000_0000,
    ;
}

/// The integer-valued `f64` nearest to `b`.
fn nearest_f64(b: u64) -> (x: u128)
    requires
        b < 0x8000_0000_0000_0000,
    ensures
        x == f64_of(b as nat),
        x <= b as nat + 2048,
        (b as nat) < 0x20_0000_0000_0000 ==> x == b,
{
    let mut t: u64 = b;
    let mut u: u64 = 1;
    while t >= 0x20_0000_0000_0000
        invariant
            f64_spacing(b as nat) == u * f64_spacing(t as nat),
            t == b as nat / u as nat,
            1 <= u < 2048,
            b < 0x8000_0000_0000_0000,
        decreases t,
    {
        proof {
            lemma_spacing_step(b as nat, u as nat, t as nat);
            lemma_spacing_bound(b as nat, u as nat, t as nat);
        }
        t = t / 2;
        u = u * 2;
    }
    proof {
        assert(f64_spacing(t as nat) == 1);
        assert(u == f64_spacing(b as nat)) by (nonlinear_arith)
            requires
                f64_spacing(b as nat) == u * f64_spacing(t as nat),
                f64_spacing(t as nat) == 1,
        ;
        if (b as nat) < 0x20_0000_0000_0000 {
            assert(u == 1);
        }
    }
    let q = div_round_half_even(b as u128, u as u128);
    proof {
        vstd::arithmetic::div_mod::lemma_fundamental_div_mod(b as int, u as int);
        vstd::arithmetic::div_mod::lemma_mod_pos_bound(b as int, u as int);
        assert(q * u <= b as nat + u) by (nonlinear_arith)
            requires
                q <= b as nat / u as nat + 1,
                u * (b as nat / u as nat) + b as nat % u as nat == b,
                u >= 1,
        ;
    }
    q * (u as u128)
}

/// Human-readable byte size ("1.5 MB" style).
pub fn fmt_size(bytes: i64) -> (s: String)
    ensures
        s@ == spec_fmt_size(bytes as int),
{
    let b: u64 = if bytes > 0 { bytes as u64 } else { 0 };
    let x = nearest_f64(b);
    proof {
        assert((10 * x) as int / (1024 * 1024) as int <= 0x100_0000_0000_0000) by (nonlinear_arith)
            requires
                x <= 0x8000_0000_0000_0000 + 2048,
        ;
        assert((10 * x) as int / (1024 * 1024 * 1024) as int <= 0x100_0000_0000_0000) by (nonlinear_arith)
            requires
                x <= 0x8000_0000_0000_0000 + 2048,
        ;
    }
    let mut out: Vec<char>;
    if x >= 1024 * 1024 * 1024 {
        let q = div_round_half_even(10 * x, 1024 * 1024 * 1024);
        out = tenths_digits(q);
        out.push(' ');
        out.push('G');
        out.push('B');
        proof {
            assert(out@ =~= one_decimal(q as nat) + " GB"@) by {
                reveal_strlit(" GB");
            }
        }
    } else if x >= 1024 * 1024 {
        let q = div_round_half_even(10 * x, 1024 * 1024);
        out = tenths_digits(q);
        out.push(' ');
        out.push('M');
        out.push('B');
        proof {
            assert(out@ =~= one_decimal(q as nat) + " MB"@) by {
                reveal_strlit(" MB");
            }
        }
    } else if x >= 1024 {
        let q = div_round_half_even(x, 1024);
        out = u64_digits(q as u64);
        out.push(' ');
        out.push('K');
        out.push('B');
        proof {
            assert(out@ =~= nat_str(q as nat) + " KB"@) by {
                reveal_strlit(" KB");
            }
        }
    } else {
        out = i64_digits(bytes);
        out.push(' ');
        out.push('B');
        proof {
            assert(out@ =~= int_str(bytes as int) + " B"@) by {
                reveal_strlit(" B");
            }
        }
    }
    string_from_chars(&out)
}

/// `one_decimal(q)`, computed.
fn tenths_digits(q: u128) -> (cs: Vec<char>)
    requires
        q <= u64::MAX,
    ensures
        cs@ == one_decimal(q as nat),
{
    let mut cs = u64_digits((q / 10) as u64);
    cs.push('.');
    cs.push(((q % 10 + 48) as u8) as char);
    cs
}

/// `m:ss` for a media length of `secs` whole seconds when it reaches a
/// minute, `Ns` below that (negative lengths count as zero).
pub open spec fn spec_duration_fmt(secs: int) -> Seq<char> {
    let s = if secs < 0 { 0 } else { secs };
    if s >= 60 {
        nat_str((s / 60) as nat) + seq![':'] + crate::theme::two_digits((s % 60) as nat)
    } else {
        nat_str(s as nat) + seq!['s']
    }
}

/// A media length of a minute or more reads `m:ss`, where `m` is the whole
/// minutes elapsed and `ss` the two-digit leftover seconds: `m * 60 + ss`
/// gives back the length (90 s reads "1:30"). A negative length reads as
/// zero.
pub proof fn lemma_duration_minutes_seconds(secs: int)
    ensures
        secs >= 60 ==> exists|m: nat, ss: nat|
            #![trigger nat_str(m), crate::theme::two_digits(ss)]
            ss < 60 && m * 60 + ss == secs && spec_duration_fmt(secs) == nat_str(m) + seq![':']
                + crate::theme::two_digits(ss),
        secs < 0 ==> spec_duration_fmt(secs) == spec_duration_fmt(0),
        0 <= secs < 60 ==> spec_duration_fmt(secs) == nat_str(secs as nat) + seq!['s'],
{
    if secs >= 60 {
        let m = (secs / 60) as nat;
        let ss = (secs % 60) as nat;
        assert(m * 60 + ss == secs);
        assert(spec_duration_fmt(secs) == nat_str(m) + seq![':'] + crate::theme::two_digits(ss));
    }
}

/// Formats a media length given in whole seconds (the shell rounds the
/// decoder's fractional seconds first).
pub fn duration_fmt(secs: i64) -> (r: String)
    ensures
        r@ == spec_duration_fmt(secs as int),
{
    let s: u64 = if secs < 0 { 0 } else { secs as u64 };
    let mut cs: Vec<char>;
    if s >= 60 {
        cs = u64_digits(s / 60);
        cs.push(':');
        let ss = s % 60;
        cs.push(((ss / 10 + 48) as u8) as char);
        cs.push(((ss % 10 + 48) as u8) as char);
        proof {
            assert(cs@ =~= nat_str((s / 60) as nat) + seq![':'] + crate::theme::two_digits(ss as nat));
        }
    } else {
        cs = u64_digits(s);
        cs.push('s');
    }
    string_from_chars(&cs)
}

} // verus!
