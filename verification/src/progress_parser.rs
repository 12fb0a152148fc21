//! The progress-line grammar and its parser, and the human-readable
//! renderings of sizes and durations.
//!
//! A progress line is handled token by token: the line is split on
//! whitespace, the first token ending in `%` carries the mandatory percent,
//! and the `of`, `at` and `ETA` clauses are each optional. All numeric
//! values are held as integers: percent in thousandths of a percent, sizes
//! and speeds in whole bytes, durations in whole seconds.

use vstd::prelude::*;

use crate::error::YtdlError;
use crate::text::{
    all_digits, chars_of, contains_chars, dec_digits, digit_val, digits_nat, digits_value_sat,
    eq_str, has_substring, is_digit, is_digit_char, is_space_char, push_decimal, push_two_digits,
    subvec, two_digits,
};

verus! {

/// Index of the first whitespace character at or after `i`, or the length.
pub open spec fn token_end(s: Seq<char>, i: int) -> int
    decreases s.len() - i,
    when 0 <= i <= s.len()
{
    if i >= s.len() || is_space_char(s[i]) {
        i
    } else {
        token_end(s, i + 1)
    }
}

/// `token_end` stays between its start and the end of the sequence, and
/// moves forward when it starts on a non-space character.
pub proof fn lemma_token_end_bounds(s: Seq<char>, i: int)
    requires
        0 <= i <= s.len(),
    ensures
        i <= token_end(s, i) <= s.len(),
        i < s.len() && !is_space_char(s[i]) ==> token_end(s, i) > i,
    decreases s.len() - i,
{
    if i < s.len() && !is_space_char(s[i]) {
        lemma_token_end_bounds(s, i + 1);
    }
}

/// The whitespace-separated tokens of the suffix of `s` starting at `i`.
pub open spec fn tokens_from(s: Seq<char>, i: int) -> Seq<Seq<char>>
    decreases s.len() - i,
    when 0 <= i <= s.len()
    via tokens_from_dec
{
    if i >= s.len() {
        Seq::empty()
    } else if is_space_char(s[i]) {
        tokens_from(s, i + 1)
    } else {
        seq![s.subrange(i, token_end(s, i))] + tokens_from(s, token_end(s, i))
    }
}

#[via_fn]
proof fn tokens_from_dec(s: Seq<char>, i: int) {
    if 0 <= i && i < s.len() && !is_space_char(s[i]) {
        lemma_token_end_bounds(s, i);
    }
}

/// The whitespace-separated tokens of a line.
pub open spec fn spec_tokens(s: Seq<char>) -> Seq<Seq<char>> {
    tokens_from(s, 0)
}

/// Whether a character is whitespace for the tokenizer.
pub fn is_space(c: char) -> (r: bool)
    ensures
        r == is_space_char(c),
{
    c == ' ' || c == '\t' || c == '\r' || c == '\n'
}

/// Index of the first whitespace character at or after `start`.
fn scan_token_end(s: &[char], start: usize) -> (e: usize)
    requires
        start <= s@.len(),
    ensures
        e == token_end(s@, start as int),
        start <= e <= s@.len(),
{
    let mut j = start;
    loop
        invariant
            start <= j <= s@.len(),
            token_end(s@, start as int) == token_end(s@, j as int),
        ensures
            j == token_end(s@, start as int),
            start <= j <= s@.len(),
        decreases s@.len() - j,
    {
        if j == s.len() {
            break ;
        }
        if is_space(s[j]) {
            break ;
        }
        j = j + 1;
    }
    j
}

/// Splits a line into its whitespace-separated tokens.
pub fn tokenize(s: &[char]) -> (ts: Vec<Vec<char>>)
    ensures
        ts.deep_view() == spec_tokens(s@),
{
    let mut ts: Vec<Vec<char>> = Vec::new();
    let mut i: usize = 0;
    while i < s.len()
        invariant
            i <= s@.len(),
            spec_tokens(s@) == ts.deep_view() + tokens_from(s@, i as int),
        decreases s@.len() - i,
    {
        if is_space(s[i]) {
            i = i + 1;
        } else {
            proof {
                lemma_token_end_bounds(s@, i as int);
            }
            let e = scan_token_end(s, i);
            let tok = subvec(s, i, e);
            let ghost old_dv = ts.deep_view();
            ts.push(tok);
            proof {
                assert(ts.deep_view() =~~= old_dv + seq![tok@]);
                assert(spec_tokens(s@) =~~= ts.deep_view() + tokens_from(s@, e as int));
            }
            i = e;
        }
    }
    proof {
        assert(ts.deep_view() =~~= ts.deep_view() + tokens_from(s@, i as int));
    }
    ts
}

/// Index of the first `.` at or after `i`, or the length.
pub open spec fn dot_from(s: Seq<char>, i: int) -> int
    decreases s.len() - i,
    when 0 <= i <= s.len()
{
    if i >= s.len() {
        i
    } else if s[i] == '.' {
        i
    } else {
        dot_from(s, i + 1)
    }
}

/// `dot_from` stays between its start and the end of the sequence.
pub proof fn lemma_dot_from_bounds(s: Seq<char>, i: int)
    requires
        0 <= i <= s.len(),
    ensures
        i <= dot_from(s, i) <= s.len(),
    decreases s.len() - i,
{
    if i < s.len() && s[i] != '.' {
        lemma_dot_from_bounds(s, i + 1);
    }
}

/// The digits before the first dot of a numeral.
pub open spec fn int_part(t: Seq<char>) -> Seq<char> {
    t.subrange(0, dot_from(t, 0))
}

/// The digits after the first dot of a numeral (empty when there is none).
pub open spec fn frac_part(t: Seq<char>) -> Seq<char> {
    if dot_from(t, 0) == t.len() {
        Seq::empty()
    } else {
        t.subrange(dot_from(t, 0) + 1, t.len() as int)
    }
}

/// A decimal numeral: digits, at most one dot, and at least one digit.
pub open spec fn is_dec_num(t: Seq<char>) -> bool {
    all_digits(int_part(t)) && all_digits(frac_part(t)) && int_part(t).len() + frac_part(t).len()
        >= 1
}

/// Ten to the power `k`.
pub open spec fn pow10(k: nat) -> nat
    decreases k,
{
    if k == 0 {
        1
    } else {
        10 * pow10((k - 1) as nat)
    }
}

/// A digit sequence reads below ten to the power of its length.
pub proof fn lemma_digits_nat_lt_pow10(s: Seq<char>)
    requires
        all_digits(s),
    ensures
        digits_nat(s) < pow10(s.len()),
    decreases s.len(),
{
    if s.len() > 0 {
        assert(all_digits(s.drop_last()));
        lemma_digits_nat_lt_pow10(s.drop_last());
        assert(digit_val(s.last()) <= 9);
    }
}

/// Ten to the power `k`, for the exponents the parser needs.
pub fn pow10_u64(k: usize) -> (r: u64)
    requires
        k <= 10,
    ensures
        r == pow10(k as nat),
        1 <= r <= 10000000000,
{
    proof {
        reveal_with_fuel(pow10, 11);
    }
    if k == 0 { 1 }
    else if k == 1 { 10 }
    else if k == 2 { 100 }
    else if k == 3 { 1000 }
    else if k == 4 { 10000 }
    else if k == 5 { 100000 }
    else if k == 6 { 1000000 }
    else if k == 7 { 10000000 }
    else if k == 8 { 100000000 }
    else if k == 9 { 1000000000 }
    else { 10000000000 }
}

/// Whether every character in `t[a..b]` is a digit.
fn check_digits(t: &[char], a: usize, b: usize) -> (r: bool)
    requires
        a <= b <= t@.len(),
    ensures
        r == all_digits(t@.subrange(a as int, b as int)),
{
    let mut i = a;
    while i < b
        invariant
            a <= i <= b <= t@.len(),
            forall|k: int| a <= k < i ==> is_digit_char(#[trigger] t@[k]),
        decreases b - i,
    {
        if !is_digit(t[i]) {
            proof {
                assert(t@.subrange(a as int, b as int)[i - a] == t@[i as int]);
            }
            return false;
        }
        i = i + 1;
    }
    proof {
        assert(forall|k: int|
            0 <= k < b - a ==> #[trigger] t@.subrange(a as int, b as int)[k] == t@[a + k]);
    }
    true
}

/// Index of the first `.` in the run, or its length.
fn scan_dot(t: &[char]) -> (d: usize)
    ensures
        d == dot_from(t@, 0),
        d <= t@.len(),
{
    let mut j: usize = 0;
    loop
        invariant
            j <= t@.len(),
            dot_from(t@, 0) == dot_from(t@, j as int),
        ensures
            j == dot_from(t@, 0),
            j <= t@.len(),
        decreases t@.len() - j,
    {
        if j == t.len() {
            break ;
        }
        if t[j] == '.' {
            break ;
        }
        j = j + 1;
    }
    j
}

/// Whether the run is a decimal numeral.
pub fn is_decimal(t: &[char]) -> (r: bool)
    ensures
        r == is_dec_num(t@),
{
    let d = scan_dot(t);
    let len = t.len();
    if len == 0 {
        return false;
    }
    if d == len {
        check_digits(t, 0, len)
    } else {
        if len == 1 {
            // the lone character is the dot
            proof {
                assert(int_part(t@).len() + frac_part(t@).len() == 0);
            }
            return false;
        }
        check_digits(t, 0, d) && check_digits(t, d + 1, len)
    }
}

/// The value of a fractional digit run in thousandths, using its first
/// three digits (finer digits are below the parser's resolution).
pub open spec fn frac_milli(f: Seq<char>) -> nat {
    if f.len() >= 3 {
        digits_nat(f.subrange(0, 3))
    } else {
        digits_nat(f) * pow10((3 - f.len()) as nat)
    }
}

/// A percent numeral in thousandths of a percent, capped at one hundred
/// percent.
pub open spec fn spec_percent_milli(t: Seq<char>) -> nat {
    let v = digits_nat(int_part(t)) * 1000 + frac_milli(frac_part(t));
    if v > 100000 {
        100000
    } else {
        v
    }
}

/// Reads a fractional digit run into thousandths.
fn frac_milli_value(fp: &[char]) -> (r: u64)
    requires
        all_digits(fp@),
    ensures
        r == frac_milli(fp@),
        r < 1000,
{
    let k = if fp.len() >= 3 {
        3
    } else {
        fp.len()
    };
    let f3v = subvec(fp, 0, k);
    proof {
        if fp@.len() < 3 {
            assert(f3v@ =~= fp@);
        }
    }
    let fv = digits_value_sat(f3v.as_slice());
    let fm: u64;
    if k == 0 {
        proof {
            reveal_with_fuel(pow10, 4);
            lemma_digits_nat_lt_pow10(f3v@);
        }
        fm = 0;
        proof {
            assert(fv == 0);
            assert(digits_nat(fp@) * pow10(3) == 0) by (nonlinear_arith)
                requires
                    digits_nat(fp@) == 0,
            ;
        }
    } else if k == 1 {
        proof {
            reveal_with_fuel(pow10, 4);
            lemma_digits_nat_lt_pow10(f3v@);
            assert(fv < 10);
        }
        fm = fv * 100;
        proof {
            assert(digits_nat(fp@) * pow10(2) == fv * 100) by (nonlinear_arith)
                requires
                    digits_nat(fp@) == fv,
                    pow10(2) == 100,
            ;
        }
    } else if k == 2 {
        proof {
            reveal_with_fuel(pow10, 4);
            lemma_digits_nat_lt_pow10(f3v@);
            assert(fv < 100);
        }
        fm = fv * 10;
        proof {
            assert(digits_nat(fp@) * pow10(1) == fv * 10) by (nonlinear_arith)
                requires
                    digits_nat(fp@) == fv,
                    pow10(1) == 10,
            ;
        }
    } else {
        proof {
            reveal_with_fuel(pow10, 4);
            lemma_digits_nat_lt_pow10(f3v@);
            assert(fv < 1000);
        }
        fm = fv;
    }
    fm
}

/// Reads a percent numeral into thousandths of a percent, capping at one
/// hundred percent.
pub fn percent_milli(t: &[char]) -> (r: u64)
    requires
        is_dec_num(t@),
    ensures
        r == spec_percent_milli(t@),
        r <= 100000,
{
    proof {
        lemma_dot_from_bounds(t@, 0);
    }
    let d = scan_dot(t);
    let len = t.len();
    let ip = subvec(t, 0, d);
    let fp = if d == len {
        Vec::new()
    } else {
        subvec(t, d + 1, len)
    };
    proof {
        assert(ip@ == int_part(t@));
        assert(fp@ =~= frac_part(t@));
    }
    let isat = digits_value_sat(ip.as_slice());
    if isat > 100 {
        return 100000;
    }
    let fm = frac_milli_value(fp.as_slice());
    let v = isat * 1000 + fm;
    if v > 100000 {
        100000
    } else {
        v
    }
}

/// A size magnitude in whole bytes: the numeral scaled by a unit
/// multiplier, truncated to an integer and saturating at the largest
/// 64-bit value. Fractional digits beyond the tenth are ignored; each is
/// worth less than one byte for every supported unit.
pub open spec fn spec_size_bytes(num: Seq<char>, mult: nat) -> nat {
    let i = digits_nat(int_part(num));
    let f = frac_part(num);
    let k = if f.len() >= 10 {
        10
    } else {
        f.len()
    };
    let fv = digits_nat(f.subrange(0, k as int));
    let v = (i * pow10(k as nat) + fv) * mult / pow10(k as nat);
    if v > u64::MAX {
        u64::MAX as nat
    } else {
        v
    }
}

/// The scaled numeral is at least its integer part.
proof fn lemma_size_at_least_int(i: nat, fv: nat, k: nat, mult: nat)
    requires
        mult >= 1,
    ensures
        (i * pow10(k) + fv) * mult / pow10(k) >= i,
{
    let p = pow10(k) as int;
    assert(p >= 1) by {
        lemma_pow10_positive(k);
    }
    let a = i * pow10(k) + fv;
    vstd::arithmetic::mul::lemma_mul_inequality(1, mult as int, a as int);
    assert(a * 1 == a) by {
        vstd::arithmetic::mul::lemma_mul_basics(a as int);
    }
    vstd::arithmetic::div_mod::lemma_div_is_ordered((i * pow10(k)) as int, (a * mult) as int, p);
    vstd::arithmetic::div_mod::lemma_div_by_multiple(i as int, p);
}

/// Ten to any power is positive.
pub proof fn lemma_pow10_positive(k: nat)
    ensures
        pow10(k) >= 1,
    decreases k,
{
    if k > 0 {
        lemma_pow10_positive((k - 1) as nat);
    }
}

/// Reads a size numeral into whole bytes under a unit multiplier,
/// saturating at the largest 64-bit value.
pub fn size_bytes(num: &[char], mult: u64) -> (r: u64)
    requires
        is_dec_num(num@),
        1 <= mult <= 0x40000000,
    ensures
        r == spec_size_bytes(num@, mult as nat),
{
    proof {
        lemma_dot_from_bounds(num@, 0);
    }
    let d = scan_dot(num);
    let len = num.len();
    let ip = subvec(num, 0, d);
    let fp = if d == len {
        Vec::new()
    } else {
        subvec(num, d + 1, len)
    };
    proof {
        assert(ip@ == int_part(num@));
        assert(fp@ =~= frac_part(num@));
    }
    let isat = digits_value_sat(ip.as_slice());
    let k = if fp.len() >= 10 {
        10
    } else {
        fp.len()
    };
    let fk = subvec(fp.as_slice(), 0, k);
    proof {
        if fp@.len() < 10 {
            assert(fk@ =~= fp@);
        }
        lemma_digits_nat_lt_pow10(fk@);
    }
    let fv = digits_value_sat(fk.as_slice());
    let p = pow10_u64(k);
    proof {
        assert(fv < p) by {
            reveal_with_fuel(pow10, 11);
        }
    }
    if isat == u64::MAX {
        proof {
            lemma_size_at_least_int(
                digits_nat(int_part(num@)),
                digits_nat(fk@),
                k as nat,
                mult as nat,
            );
        }
        return u64::MAX;
    }
    proof {
        let i = isat as int;
        let pi = p as int;
        let mi = mult as int;
        vstd::arithmetic::mul::lemma_mul_upper_bound(i, u64::MAX - 1, pi, 10000000000);
        assert(i * pi <= (u64::MAX - 1) * 10000000000);
        vstd::arithmetic::mul::lemma_mul_upper_bound(
            i * pi + fv,
            (u64::MAX - 1) * 10000000000 + 10000000000,
            mi,
            0x40000000,
        );
        assert((i * pi + fv) * mi <= ((u64::MAX - 1) * 10000000000 + 10000000000) * 0x40000000);
    }
    let wide: u128 = ((isat as u128) * (p as u128) + (fv as u128)) * (mult as u128) / (p as u128);
    if wide > u64::MAX as u128 {
        u64::MAX
    } else {
        wide as u64
    }
}

/// A longer digit run never reads as a smaller value.
proof fn lemma_digits_prefix_le(s: Seq<char>, i: int)
    requires
        0 <= i <= s.len(),
    ensures
        digits_nat(s.subrange(0, i)) <= digits_nat(s),
    decreases s.len() - i,
{
    if i == s.len() {
        assert(s.subrange(0, i) =~= s);
    } else {
        assert(s.subrange(0, i + 1).drop_last() =~= s.subrange(0, i));
        lemma_digits_prefix_le(s, i + 1);
    }
}

/// The exact value of a digit run, or nothing when it does not fit in 64
/// bits.
pub fn digits_value_checked(s: &[char]) -> (r: Option<u64>)
    requires
        all_digits(s@),
    ensures
        digits_nat(s@) <= u64::MAX ==> r == Some(digits_nat(s@) as u64),
        digits_nat(s@) > u64::MAX ==> r is None,
{
    let len = s.len();
    let mut acc: u64 = 0;
    let mut i: usize = 0;
    while i < len
        invariant
            i <= len,
            len == s@.len(),
            all_digits(s@),
            acc == digits_nat(s@.subrange(0, i as int)),
        decreases len - i,
    {
        let c = s[i];
        let d: u64 = (c as u32 - '0' as u32) as u64;
        proof {
            assert(s@.subrange(0, i + 1).drop_last() =~= s@.subrange(0, i as int));
            assert(s@.subrange(0, i + 1).last() == s@[i as int]);
            assert(d == digit_val(s@[i as int]));
        }
        if acc <= (u64::MAX - d) / 10 {
            acc = acc * 10 + d;
        } else {
            proof {
                lemma_digits_prefix_le(s@, i + 1);
            }
            return None;
        }
        i = i + 1;
    }
    proof {
        assert(s@.subrange(0, len as int) =~= s@);
    }
    Some(acc)
}

/// Index of the first `:` at or after `i`, or the length.
pub open spec fn colon_from(s: Seq<char>, i: int) -> int
    decreases s.len() - i,
    when 0 <= i <= s.len()
{
    if i >= s.len() {
        i
    } else if s[i] == ':' {
        i
    } else {
        colon_from(s, i + 1)
    }
}

/// A duration of the shape `minutes:seconds`, in whole seconds. Anything
/// else — no colon, two colons, empty or non-digit parts, or a value that
/// does not fit in 64 bits — reads as unknown.
pub open spec fn spec_parse_time(t: Seq<char>) -> Option<u64> {
    let c = colon_from(t, 0);
    if c == t.len() {
        None
    } else if colon_from(t, c + 1) != t.len() {
        None
    } else {
        let m = t.subrange(0, c);
        let s = t.subrange(c + 1, t.len() as int);
        if m.len() >= 1 && s.len() >= 1 && all_digits(m) && all_digits(s) && digits_nat(m) * 60
            + digits_nat(s) <= u64::MAX {
            Some((digits_nat(m) * 60 + digits_nat(s)) as u64)
        } else {
            None
        }
    }
}

/// Index of the first `:` at or after `start`.
fn scan_colon(t: &[char], start: usize) -> (e: usize)
    requires
        start <= t@.len(),
    ensures
        e == colon_from(t@, start as int),
        start <= e <= t@.len(),
{
    let mut j = start;
    loop
        invariant
            start <= j <= t@.len(),
            colon_from(t@, start as int) == colon_from(t@, j as int),
        ensures
            j == colon_from(t@, start as int),
            start <= j <= t@.len(),
        decreases t@.len() - j,
    {
        if j == t.len() {
            break ;
        }
        if t[j] == ':' {
            break ;
        }
        j = j + 1;
    }
    j
}

/// Reads a `minutes:seconds` run into whole seconds.
pub fn time_from_chars(t: &[char]) -> (r: Option<u64>)
    ensures
        r == spec_parse_time(t@),
{
    let len = t.len();
    let c = scan_colon(t, 0);
    if c == len {
        return None;
    }
    let c2 = scan_colon(t, c + 1);
    if c2 != len {
        return None;
    }
    if c == 0 || c + 1 == len {
        return None;
    }
    let mp = subvec(t, 0, c);
    let sp = subvec(t, c + 1, len);
    if !check_digits(mp.as_slice(), 0, mp.len()) {
        proof {
            assert(mp@.subrange(0, mp@.len() as int) =~= mp@);
        }
        return None;
    }
    if !check_digits(sp.as_slice(), 0, sp.len()) {
        proof {
            assert(sp@.subrange(0, sp@.len() as int) =~= sp@);
        }
        return None;
    }
    proof {
        assert(mp@.subrange(0, mp@.len() as int) =~= mp@);
        assert(sp@.subrange(0, sp@.len() as int) =~= sp@);
    }
    let mv = match digits_value_checked(mp.as_slice()) {
        Some(v) => v,
        None => {
            return None;
        },
    };
    let sv = match digits_value_checked(sp.as_slice()) {
        Some(v) => v,
        None => {
            return None;
        },
    };
    if mv <= (u64::MAX - sv) / 60 {
        Some(mv * 60 + sv)
    } else {
        None
    }
}

/// Index of the first character of a magnitude token that is neither a
/// digit nor a dot, or the length: the boundary between numeral and unit.
pub open spec fn num_end(t: Seq<char>, i: int) -> int
    decreases t.len() - i,
    when 0 <= i <= t.len()
{
    if i >= t.len() {
        i
    } else if is_digit_char(t[i]) || t[i] == '.' {
        num_end(t, i + 1)
    } else {
        i
    }
}

/// The numeral prefix of a magnitude token.
pub open spec fn num_of(t: Seq<char>) -> Seq<char> {
    t.subrange(0, num_end(t, 0))
}

/// The unit suffix of a magnitude token.
pub open spec fn unit_of(t: Seq<char>) -> Seq<char> {
    t.subrange(num_end(t, 0), t.len() as int)
}

/// A magnitude token: a decimal numeral followed by a unit suffix.
pub open spec fn is_magnitude(t: Seq<char>) -> bool {
    is_dec_num(num_of(t))
}

/// The byte multiplier of a size unit; an unrecognized unit counts bytes.
pub open spec fn spec_unit_mult(u: Seq<char>) -> nat {
    if u == "KiB"@ {
        1024
    } else if u == "MiB"@ {
        1048576
    } else if u == "GiB"@ {
        1073741824
    } else {
        1
    }
}

/// The whole-byte value of a magnitude token.
pub open spec fn spec_magnitude_bytes(t: Seq<char>) -> nat {
    spec_size_bytes(num_of(t), spec_unit_mult(unit_of(t)))
}

/// Index of the first character at or after `start` that ends a numeral.
fn scan_num_end(t: &[char], start: usize) -> (e: usize)
    requires
        start <= t@.len(),
    ensures
        e == num_end(t@, start as int),
        start <= e <= t@.len(),
{
    let mut j = start;
    loop
        invariant
            start <= j <= t@.len(),
            num_end(t@, start as int) == num_end(t@, j as int),
        ensures
            j == num_end(t@, start as int),
            start <= j <= t@.len(),
        decreases t@.len() - j,
    {
        if j == t.len() {
            break ;
        }
        if !is_digit(t[j]) && t[j] != '.' {
            break ;
        }
        j = j + 1;
    }
    j
}

/// Whether the run is a magnitude token.
fn is_magnitude_chars(t: &[char]) -> (r: bool)
    ensures
        r == is_magnitude(t@),
{
    let e = scan_num_end(t, 0);
    let num = subvec(t, 0, e);
    is_decimal(num.as_slice())
}

/// The byte multiplier of a unit suffix.
fn unit_multiplier(u: &[char]) -> (r: u64)
    ensures
        r == spec_unit_mult(u@),
        1 <= r <= 0x40000000,
{
    if eq_str(u, "KiB") {
        1024
    } else if eq_str(u, "MiB") {
        1048576
    } else if eq_str(u, "GiB") {
        1073741824
    } else {
        1
    }
}

/// The whole-byte value of a magnitude token.
fn magnitude_bytes(t: &[char]) -> (r: u64)
    requires
        is_magnitude(t@),
    ensures
        r as nat == spec_magnitude_bytes(t@),
{
    let e = scan_num_end(t, 0);
    let num = subvec(t, 0, e);
    let len = t.len();
    let unit = subvec(t, e, len);
    let mult = unit_multiplier(unit.as_slice());
    size_bytes(num.as_slice(), mult)
}

/// The first token ending in `%`: the candidate percent field.
pub open spec fn find_percent_token(ts: Seq<Seq<char>>) -> Option<Seq<char>>
    decreases ts.len(),
{
    if ts.len() == 0 {
        None
    } else if ts[0].len() >= 1 && ts[0].last() == '%' {
        Some(ts[0])
    } else {
        find_percent_token(ts.drop_first())
    }
}

/// The magnitude token of the first well-formed `of SIZE` clause.
pub open spec fn find_total_num(ts: Seq<Seq<char>>) -> Option<Seq<char>>
    decreases ts.len(),
{
    if ts.len() < 2 {
        None
    } else if ts[0] == "of"@ && is_magnitude(ts[1]) {
        Some(ts[1])
    } else {
        find_total_num(ts.drop_first())
    }
}

/// A speed token: a magnitude followed by `/s`.
pub open spec fn is_speed_token(t: Seq<char>) -> bool {
    t.len() >= 2 && t[t.len() - 2] == '/' && t[t.len() - 1] == 's' && is_magnitude(
        t.subrange(0, t.len() - 2),
    )
}

/// The magnitude part of the first well-formed `at SPEED/s` clause.
pub open spec fn find_speed_num(ts: Seq<Seq<char>>) -> Option<Seq<char>>
    decreases ts.len(),
{
    if ts.len() < 2 {
        None
    } else if ts[0] == "at"@ && is_speed_token(ts[1]) {
        Some(ts[1].subrange(0, ts[1].len() - 2))
    } else {
        find_speed_num(ts.drop_first())
    }
}

/// The token after the first `ETA` token that has one.
pub open spec fn find_eta_token(ts: Seq<Seq<char>>) -> Option<Seq<char>>
    decreases ts.len(),
{
    if ts.len() < 2 {
        None
    } else if ts[0] == "ETA"@ {
        Some(ts[1])
    } else {
        find_eta_token(ts.drop_first())
    }
}

/// Finds the index of the percent token, if any.
fn percent_token_index(ts: &Vec<Vec<char>>) -> (r: Option<usize>)
    ensures
        match r {
            Some(i) => i < ts@.len() && find_percent_token(ts.deep_view()) == Some(
                ts.deep_view()[i as int],
            ) && ts.deep_view()[i as int].len() >= 1 && ts.deep_view()[i as int].last() == '%',
            None => find_percent_token(ts.deep_view()) is None,
        },
{
    let n = ts.len();
    let mut j: usize = 0;
    proof {
        assert(ts.deep_view().skip(0) =~~= ts.deep_view());
    }
    while j < n
        invariant
            j <= n,
            n == ts@.len(),
            find_percent_token(ts.deep_view()) == find_percent_token(
                ts.deep_view().skip(j as int),
            ),
        decreases n - j,
    {
        let tok: &Vec<char> = &ts[j];
        proof {
            assert(ts.deep_view().skip(j as int)[0] == ts.deep_view()[j as int]);
            assert(ts.deep_view()[j as int] == tok@);
        }
        if tok.len() >= 1 && tok[tok.len() - 1] == '%' {
            return Some(j);
        }
        proof {
            assert(ts.deep_view().skip(j as int).drop_first() =~~= ts.deep_view().skip(j + 1));
        }
        j = j + 1;
    }
    proof {
        assert(ts.deep_view().skip(n as int) =~~= Seq::<Seq<char>>::empty());
    }
    None
}

/// Finds the total-size clause and reads it into whole bytes.
fn find_total_bytes(ts: &Vec<Vec<char>>) -> (r: Option<u64>)
    ensures
        match find_total_num(ts.deep_view()) {
            Some(m) => r matches Some(b) && b as nat == spec_magnitude_bytes(m),
            None => r is None,
        },
{
    let n = ts.len();
    if n < 2 {
        return None;
    }
    let mut j: usize = 0;
    proof {
        assert(ts.deep_view().skip(0) =~~= ts.deep_view());
    }
    while j < n - 1
        invariant
            j <= n,
            n == ts@.len(),
            n >= 2,
            find_total_num(ts.deep_view()) == find_total_num(ts.deep_view().skip(j as int)),
        decreases n - j,
    {
        let tok: &Vec<char> = &ts[j];
        let next: &Vec<char> = &ts[j + 1];
        proof {
            assert(ts.deep_view().skip(j as int)[0] == ts.deep_view()[j as int]);
            assert(ts.deep_view().skip(j as int)[1] == ts.deep_view()[j + 1]);
            assert(ts.deep_view()[j as int] == tok@);
            assert(ts.deep_view()[j + 1] == next@);
        }
        if eq_str(tok.as_slice(), "of") && is_magnitude_chars(next.as_slice()) {
            let b = magnitude_bytes(next.as_slice());
            return Some(b);
        }
        proof {
            assert(ts.deep_view().skip(j as int).drop_first() =~~= ts.deep_view().skip(j + 1));
        }
        j = j + 1;
    }
    proof {
        assert(ts.deep_view().skip(j as int).len() < 2);
    }
    None
}

/// Finds the speed clause and reads it into whole bytes per second.
fn find_speed_bytes(ts: &Vec<Vec<char>>) -> (r: Option<u64>)
    ensures
        match find_speed_num(ts.deep_view()) {
            Some(m) => r matches Some(b) && b as nat == spec_magnitude_bytes(m),
            None => r is None,
        },
{
    let n = ts.len();
    if n < 2 {
        return None;
    }
    let mut j: usize = 0;
    proof {
        assert(ts.deep_view().skip(0) =~~= ts.deep_view());
    }
    while j < n - 1
        invariant
            j <= n,
            n == ts@.len(),
            n >= 2,
            find_speed_num(ts.deep_view()) == find_speed_num(ts.deep_view().skip(j as int)),
        decreases n - j,
    {
        let tok: &Vec<char> = &ts[j];
        let next: &Vec<char> = &ts[j + 1];
        proof {
            assert(ts.deep_view().skip(j as int)[0] == ts.deep_view()[j as int]);
            assert(ts.deep_view().skip(j as int)[1] == ts.deep_view()[j + 1]);
            assert(ts.deep_view()[j as int] == tok@);
            assert(ts.deep_view()[j + 1] == next@);
        }
        if eq_str(tok.as_slice(), "at") && next.len() >= 2 {
            let nl = next.len();
            if next[nl - 2] == '/' && next[nl - 1] == 's' {
                let base = subvec(next.as_slice(), 0, nl - 2);
                if is_magnitude_chars(base.as_slice()) {
                    let b = magnitude_bytes(base.as_slice());
                    return Some(b);
                }
            }
        }
        proof {
            assert(ts.deep_view().skip(j as int).drop_first() =~~= ts.deep_view().skip(j + 1));
        }
        j = j + 1;
    }
    proof {
        assert(ts.deep_view().skip(j as int).len() < 2);
    }
    None
}

/// Finds the `ETA` clause and reads it into whole seconds.
fn find_eta_seconds(ts: &Vec<Vec<char>>) -> (r: Option<u64>)
    ensures
        match find_eta_token(ts.deep_view()) {
            Some(t) => r == spec_parse_time(t),
            None => r is None,
        },
{
    let n = ts.len();
    if n < 2 {
        return None;
    }
    let mut j: usize = 0;
    proof {
        assert(ts.deep_view().skip(0) =~~= ts.deep_view());
    }
    while j < n - 1
        invariant
            j <= n,
            n == ts@.len(),
            n >= 2,
            find_eta_token(ts.deep_view()) == find_eta_token(ts.deep_view().skip(j as int)),
        decreases n - j,
    {
        let tok: &Vec<char> = &ts[j];
        proof {
            assert(ts.deep_view().skip(j as int)[0] == ts.deep_view()[j as int]);
            assert(ts.deep_view().skip(j as int)[1] == ts.deep_view()[j + 1]);
            assert(ts.deep_view()[j as int] == tok@);
            assert(ts.deep_view()[j + 1] == ts@[j + 1]@);
        }
        if eq_str(tok.as_slice(), "ETA") {
            let next: &Vec<char> = &ts[j + 1];
            return time_from_chars(next.as_slice());
        }
        proof {
            assert(ts.deep_view().skip(j as int).drop_first() =~~= ts.deep_view().skip(j + 1));
        }
        j = j + 1;
    }
    proof {
        assert(ts.deep_view().skip(j as int).len() < 2);
    }
    None
}

/// Downloaded bytes derived from a total and a percent in thousandths:
/// the total scaled by the percent, truncated to whole bytes.
pub open spec fn spec_downloaded_bytes(total: u64, pm: u64) -> nat {
    (total as nat) * (pm as nat) / 100000
}

/// Computes downloaded bytes from a total and a percent in thousandths.
/// The result never exceeds the total.
pub fn downloaded_bytes(total: u64, pm: u64) -> (r: u64)
    requires
        pm <= 100000,
    ensures
        r as nat == spec_downloaded_bytes(total, pm),
        r <= total,
{
    proof {
        lemma_downloaded_le_total(total, pm);
        vstd::arithmetic::mul::lemma_mul_upper_bound(
            total as int,
            u64::MAX as int,
            pm as int,
            100000,
        );
    }
    let wide: u128 = (total as u128) * (pm as u128) / 100000;
    wide as u64
}

/// The derived downloaded-byte count never exceeds the total it was
/// derived from, for any percent up to one hundred.
pub proof fn lemma_downloaded_le_total(total: u64, pm: u64)
    requires
        pm <= 100000,
    ensures
        spec_downloaded_bytes(total, pm) <= total,
{
    let t = total as int;
    let p = pm as int;
    vstd::arithmetic::mul::lemma_mul_inequality(p, 100000, t);
    vstd::arithmetic::mul::lemma_mul_is_commutative(t, p);
    vstd::arithmetic::div_mod::lemma_div_is_ordered(t * p, 100000 * t, 100000);
    vstd::arithmetic::div_mod::lemma_div_multiples_vanish(t, 100000);
}

/// One structured snapshot of download completion state, derived from a
/// single progress line.
#[derive(Debug, Clone, Copy, PartialEq, Eq)]
pub struct ProgressInfo {
    /// Completion in thousandths of a percent, between 0 and 100000.
    pub percent_milli: u64,
    /// Bytes downloaded so far, derived from the total and the percent.
    pub downloaded_bytes: Option<u64>,
    /// Total size in bytes, when the line carried an `of SIZE` clause.
    pub total_bytes: Option<u64>,
    /// Download speed in bytes per second, when the line carried an
    /// `at SPEED/s` clause.
    pub speed: Option<u64>,
    /// Estimated seconds remaining, when the line carried a readable
    /// `ETA` clause.
    pub eta: Option<u64>,
}

impl ProgressInfo {
    /// The invariant of a parsed event: the percent is within range, and
    /// the derived downloaded-byte count accompanies the total and never
    /// exceeds it.
    pub open spec fn wf(self) -> bool {
        &&& self.percent_milli <= 100000
        &&& (self.downloaded_bytes is Some <==> self.total_bytes is Some)
        &&& (self.downloaded_bytes matches Some(d) ==> self.total_bytes matches Some(t)
            && d as nat == spec_downloaded_bytes(t, self.percent_milli) && d <= t)
    }
}

/// Whether the line carries the download marker at all.
pub open spec fn spec_has_marker(line: Seq<char>) -> bool {
    has_substring(line, "[download]"@)
}

/// The digits of the percent field, when a candidate token exists.
pub open spec fn spec_percent_digits(line: Seq<char>) -> Seq<char> {
    match find_percent_token(spec_tokens(line)) {
        Some(t) => t.drop_last(),
        None => Seq::empty(),
    }
}

/// Whether the line carries a readable percent field.
pub open spec fn spec_percent_ok(line: Seq<char>) -> bool {
    match find_percent_token(spec_tokens(line)) {
        Some(t) => is_dec_num(t.drop_last()),
        None => false,
    }
}

/// The event a well-formed progress line parses to.
pub open spec fn spec_progress_info(line: Seq<char>) -> ProgressInfo {
    let ts = spec_tokens(line);
    let pm = spec_percent_milli(spec_percent_digits(line));
    ProgressInfo {
        percent_milli: pm as u64,
        downloaded_bytes: match find_total_num(ts) {
            Some(m) => Some((spec_magnitude_bytes(m) * pm / 100000) as u64),
            None => None,
        },
        total_bytes: match find_total_num(ts) {
            Some(m) => Some(spec_magnitude_bytes(m) as u64),
            None => None,
        },
        speed: match find_speed_num(ts) {
            Some(m) => Some(spec_magnitude_bytes(m) as u64),
            None => None,
        },
        eta: match find_eta_token(ts) {
            Some(t) => spec_parse_time(t),
            None => None,
        },
    }
}

/// The stateless progress-line parser.
pub struct ProgressParser {}

impl Default for ProgressParser {
    /// A parser equal to any other: it holds no state.
    fn default() -> (r: Self)
        ensures
            r == (ProgressParser {  }),
    {
        Self::new()
    }
}

impl ProgressParser {
    /// Creates a parser. It holds no state; parsing is a pure function of
    /// the line.
    pub fn new() -> (r: Self)
        ensures
            r == (ProgressParser {  }),
    {
        ProgressParser {  }
    }

    /// Parses one line of the external tool's output.
    ///
    /// A line without the download marker is no progress line at all. A
    /// line with the marker but no readable percent is malformed. Any
    /// other marked line yields an event; its optional clauses are each
    /// read independently.
    pub fn parse(&self, line: &str) -> (r: Result<Option<ProgressInfo>, YtdlError>)
        ensures
            !spec_has_marker(line@) ==> (r matches Ok(o) && o is None),
            spec_has_marker(line@) && find_percent_token(spec_tokens(line@)) is None ==> (
            r matches Err(e) && e matches YtdlError::ProgressParseError(m) && m@
                == "no percent field found"@),
            spec_has_marker(line@) && (find_percent_token(spec_tokens(line@)) matches Some(t)
                && !is_dec_num(t.drop_last())) ==> (r matches Err(e)
                && e matches YtdlError::ProgressParseError(m) && m@
                == "percent field is not a number"@),
            spec_has_marker(line@) && spec_percent_ok(line@) ==> (r matches Ok(o)
                && o matches Some(info) && info == spec_progress_info(line@)),
    {
        let cs = chars_of(line);
        if !contains_chars(cs.as_slice(), "[download]") {
            return Ok(None);
        }
        let ts = tokenize(cs.as_slice());
        let pi = match percent_token_index(&ts) {
            Some(i) => i,
            None => {
                return Err(
                    YtdlError::ProgressParseError(String::from_str("no percent field found")),
                );
            },
        };
        let tok: &Vec<char> = &ts[pi];
        proof {
            assert(tok@ == ts.deep_view()[pi as int]);
        }
        let digits = subvec(tok.as_slice(), 0, tok.len() - 1);
        proof {
            assert(digits@ =~= ts.deep_view()[pi as int].drop_last());
        }
        if !is_decimal(digits.as_slice()) {
            return Err(
                YtdlError::ProgressParseError(String::from_str("percent field is not a number")),
            );
        }
        let pm = percent_milli(digits.as_slice());
        let total = find_total_bytes(&ts);
        let speed = find_speed_bytes(&ts);
        let eta = find_eta_seconds(&ts);
        let downloaded = match total {
            Some(t) => Some(downloaded_bytes(t, pm)),
            None => None,
        };
        Ok(
            Some(
                ProgressInfo {
                    percent_milli: pm,
                    downloaded_bytes: downloaded,
                    total_bytes: total,
                    speed,
                    eta,
                },
            ),
        )
    }
}

/// Parsing is a pure function of the line: two events read from the same
/// line are the same event.
pub proof fn lemma_parse_stateless(line: Seq<char>, e1: ProgressInfo, e2: ProgressInfo)
    requires
        e1 == spec_progress_info(line),
        e2 == spec_progress_info(line),
    ensures
        e1 == e2,
{
}

/// Every parsed event satisfies the event invariant.
pub proof fn lemma_progress_info_wf(line: Seq<char>)
    ensures
        spec_progress_info(line).wf(),
{
    let info = spec_progress_info(line);
    let ts = spec_tokens(line);
    let pm = spec_percent_milli(spec_percent_digits(line));
    assert(pm <= 100000);
    match find_total_num(ts) {
        Some(m) => {
            let tb = spec_magnitude_bytes(m);
            assert(tb <= u64::MAX);
            let t = tb as u64;
            lemma_downloaded_le_total(t, pm as u64);
        },
        None => {},
    }
}

/// Reads the numeral and unit of a size field into whole bytes.
/// A numeral that is not decimal reads as nothing.
pub fn parse_size(num: &str, unit: &str) -> (r: Option<u64>)
    ensures
        is_dec_num(num@) ==> (r matches Some(b) && b as nat == spec_size_bytes(
            num@,
            spec_unit_mult(unit@),
        )),
        !is_dec_num(num@) ==> r is None,
{
    let nv = chars_of(num);
    if !is_decimal(nv.as_slice()) {
        return None;
    }
    let uv = chars_of(unit);
    let mult = unit_multiplier(uv.as_slice());
    Some(size_bytes(nv.as_slice(), mult))
}

/// Reads a `minutes:seconds` string into whole seconds.
pub fn parse_time_str(time_str: &str) -> (r: Option<u64>)
    ensures
        r == spec_parse_time(time_str@),
{
    let tv = chars_of(time_str);
    time_from_chars(tv.as_slice())
}

/// The unit scale a byte count is rendered in: the largest unit that is
/// at most the count, capped at tebibytes.
pub open spec fn spec_unit_index(b: nat) -> nat {
    if b < 1024 {
        0
    } else if b < 1048576 {
        1
    } else if b < 1073741824 {
        2
    } else if b < 1099511627776 {
        3
    } else {
        4
    }
}

/// The divisor of a unit scale.
pub open spec fn spec_unit_divisor(i: nat) -> nat {
    if i == 0 {
        1
    } else if i == 1 {
        1024
    } else if i == 2 {
        1048576
    } else if i == 3 {
        1073741824
    } else {
        1099511627776
    }
}

/// The name of a unit scale.
pub open spec fn spec_unit_name(i: nat) -> Seq<char> {
    if i == 0 {
        "B"@
    } else if i == 1 {
        "KiB"@
    } else if i == 2 {
        "MiB"@
    } else if i == 3 {
        "GiB"@
    } else {
        "TiB"@
    }
}

/// `a / d` rounded to the nearest integer, ties to the even neighbour.
pub open spec fn round_half_even(a: nat, d: nat) -> nat {
    let q = a / d;
    let r = a % d;
    if 2 * r > d {
        q + 1
    } else if 2 * r < d {
        q
    } else if q % 2 == 0 {
        q
    } else {
        q + 1
    }
}

/// A byte count rendered in the largest fitting unit with two decimals:
/// the scaled value rounded to hundredths, ties to even.
pub open spec fn spec_format_bytes(b: nat) -> Seq<char> {
    let i = spec_unit_index(b);
    let h = round_half_even(b * 100, spec_unit_divisor(i));
    dec_digits(h / 100) + "."@ + two_digits(h % 100) + " "@ + spec_unit_name(i)
}

/// Rendering re-scales monotonically: a larger byte count is never
/// shown in a smaller unit.
pub proof fn lemma_unit_index_monotone(b1: nat, b2: nat)
    requires
        b1 <= b2,
    ensures
        spec_unit_index(b1) <= spec_unit_index(b2),
{
}

/// Renders a byte count in the largest fitting unit with two decimals.
pub fn format_bytes(bytes: u64) -> (r: String)
    ensures
        r@ == spec_format_bytes(bytes as nat),
{
    let i: usize;
    let d: u64;
    if bytes < 1024 {
        i = 0;
        d = 1;
    } else if bytes < 1048576 {
        i = 1;
        d = 1024;
    } else if bytes < 1073741824 {
        i = 2;
        d = 1048576;
    } else if bytes < 1099511627776 {
        i = 3;
        d = 1073741824;
    } else {
        i = 4;
        d = 1099511627776;
    }
    let a: u128 = (bytes as u128) * 100;
    let q: u128 = a / (d as u128);
    let rem: u128 = a % (d as u128);
    let h128: u128 = if 2 * rem > d as u128 {
        q + 1
    } else if 2 * rem < d as u128 {
        q
    } else if q % 2 == 0 {
        q
    } else {
        q + 1
    };
    proof {
        assert(h128 == round_half_even((bytes as nat) * 100, spec_unit_divisor(i as nat)));
        assert(q <= a);
        assert(h128 <= a + 1);
    }
    let h: u64 = (h128 / 100) as u64;
    let frac: u64 = (h128 % 100) as u64;
    let mut s = crate::text::u64_to_string(h);
    s.append(".");
    push_two_digits(&mut s, frac);
    s.append(" ");
    match i {
        0 => s.append("B"),
        1 => s.append("KiB"),
        2 => s.append("MiB"),
        3 => s.append("GiB"),
        _ => s.append("TiB"),
    }
    proof {
        assert(s@ =~= spec_format_bytes(bytes as nat));
    }
    s
}

/// A duration in seconds rendered as minutes and seconds, each padded to
/// two digits; the minutes field grows as needed.
pub open spec fn spec_format_duration(s: nat) -> Seq<char> {
    two_digits(s / 60) + ":"@ + two_digits(s % 60)
}

/// Renders a duration in seconds as minutes and seconds.
pub fn format_duration(seconds: u64) -> (r: String)
    ensures
        r@ == spec_format_duration(seconds as nat),
{
    let m = seconds / 60;
    let sec = seconds % 60;
    let mut s = String::new();
    push_two_digits(&mut s, m);
    s.append(":");
    push_two_digits(&mut s, sec);
    proof {
        assert(s@ =~= spec_format_duration(seconds as nat));
    }
    s
}

impl ProgressInfo {
    /// The downloaded size, human-readable, or a placeholder when the
    /// line carried no total.
    pub fn downloaded_size_str(&self) -> (r: String)
        ensures
            match self.downloaded_bytes {
                Some(b) => r@ == spec_format_bytes(b as nat),
                None => r@ == "unknown"@,
            },
    {
        match self.downloaded_bytes {
            Some(b) => format_bytes(b),
            None => String::from_str("unknown"),
        }
    }

    /// The total size, human-readable, or a placeholder.
    pub fn total_size_str(&self) -> (r: String)
        ensures
            match self.total_bytes {
                Some(b) => r@ == spec_format_bytes(b as nat),
                None => r@ == "unknown"@,
            },
    {
        match self.total_bytes {
            Some(b) => format_bytes(b),
            None => String::from_str("unknown"),
        }
    }

    /// The download speed, human-readable, or a placeholder.
    pub fn speed_str(&self) -> (r: String)
        ensures
            match self.speed {
                Some(b) => r@ == spec_format_bytes(b as nat) + "/s"@,
                None => r@ == "unknown"@,
            },
    {
        match self.speed {
            Some(b) => {
                let mut s = format_bytes(b);
                s.append("/s");
                s
            },
            None => String::from_str("unknown"),
        }
    }

    /// The estimated time remaining, human-readable, or a placeholder.
    pub fn eta_str(&self) -> (r: String)
        ensures
            match self.eta {
                Some(e) => r@ == spec_format_duration(e as nat),
                None => r@ == "unknown"@,
            },
    {
        match self.eta {
            Some(e) => format_duration(e),
            None => String::from_str("unknown"),
        }
    }
}

} // verus!
