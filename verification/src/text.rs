//! Verified text utilities shared by the parser and the formatters:
//! character classes, decimal digits, substring search, and decimal
//! rendering of integers.

use vstd::prelude::*;

verus! {

/// Characters the tokenizer treats as whitespace.
pub open spec fn is_space_char(c: char) -> bool {
    c == ' ' || c == '\t' || c == '\r' || c == '\n'
}

/// An ASCII decimal digit.
pub open spec fn is_digit_char(c: char) -> bool {
    '0' <= c && c <= '9'
}

/// Numeric value of an ASCII decimal digit.
pub open spec fn digit_val(c: char) -> nat {
    ((c as int) - ('0' as int)) as nat
}

/// Every character of the sequence is an ASCII decimal digit.
pub open spec fn all_digits(s: Seq<char>) -> bool {
    forall|k: int| 0 <= k < s.len() ==> is_digit_char(#[trigger] s[k])
}

/// Value of a digit sequence read as a base-10 numeral (empty reads as 0).
pub open spec fn digits_nat(s: Seq<char>) -> nat
    decreases s.len(),
{
    if s.len() == 0 {
        0
    } else {
        digits_nat(s.drop_last()) * 10 + digit_val(s.last())
    }
}

/// The digit character for a value below ten.
pub open spec fn digit_char(d: nat) -> char {
    if d == 0 { '0' }
    else if d == 1 { '1' }
    else if d == 2 { '2' }
    else if d == 3 { '3' }
    else if d == 4 { '4' }
    else if d == 5 { '5' }
    else if d == 6 { '6' }
    else if d == 7 { '7' }
    else if d == 8 { '8' }
    else { '9' }
}

/// Decimal rendering of a natural number, most significant digit first.
pub open spec fn dec_digits(n: nat) -> Seq<char>
    decreases n,
{
    if n < 10 {
        seq![digit_char(n)]
    } else {
        dec_digits(n / 10) + seq![digit_char(n % 10)]
    }
}

/// Decimal rendering padded with a leading zero to at least two digits.
pub open spec fn two_digits(n: nat) -> Seq<char> {
    if n < 10 {
        seq!['0'] + dec_digits(n)
    } else {
        dec_digits(n)
    }
}

/// The characters of a string, in order.
pub fn chars_of(s: &str) -> (v: Vec<char>)
    ensures
        v@ == s@,
{
    let len = s.unicode_len();
    let mut v: Vec<char> = Vec::new();
    let mut i: usize = 0;
    while i < len
        invariant
            i <= len,
            len == s@.len(),
            v@ == s@.subrange(0, i as int),
        decreases len - i,
    {
        let c = s.get_char(i);
        v.push(c);
        i = i + 1;
        proof {
            assert(v@ =~= s@.subrange(0, i as int));
        }
    }
    proof {
        assert(v@ =~= s@);
    }
    v
}

/// Whether a run of characters equals the characters of a string.
pub fn eq_str(t: &[char], s: &str) -> (r: bool)
    ensures
        r == (t@ == s@),
{
    let n = s.unicode_len();
    if t.len() != n {
        proof {
            assert(t@.len() != s@.len());
        }
        return false;
    }
    let mut i: usize = 0;
    while i < n
        invariant
            i <= n,
            n == s@.len(),
            t@.len() == n,
            forall|k: int| 0 <= k < i ==> t@[k] == s@[k],
        decreases n - i,
    {
        if t[i] != s.get_char(i) {
            return false;
        }
        i = i + 1;
    }
    proof {
        assert(t@ =~= s@);
    }
    true
}

/// The needle occurs as a contiguous run inside the haystack.
pub open spec fn has_substring(h: Seq<char>, n: Seq<char>) -> bool {
    exists|i: int| 0 <= i && i + n.len() <= h.len() && #[trigger] h.subrange(i, i + n.len()) == n
}

/// Substring search over character runs.
pub fn contains_chars(h: &[char], n: &str) -> (r: bool)
    ensures
        r == has_substring(h@, n@),
{
    let nlen = n.unicode_len();
    let hlen = h.len();
    if nlen > hlen {
        return false;
    }
    if nlen == 0 {
        proof {
            assert(h@.subrange(0, 0 + n@.len() as int) =~= n@);
        }
        return true;
    }
    let mut i: usize = 0;
    while i <= hlen - nlen
        invariant
            0 < nlen <= hlen,
            i <= hlen - nlen + 1,
            nlen == n@.len(),
            hlen == h@.len(),
            forall|t: int| 0 <= t < i ==> #[trigger] h@.subrange(t, t + n@.len()) != n@,
        decreases hlen - i,
    {
        let mut j: usize = 0;
        let mut mismatch = false;
        while j < nlen
            invariant
                j <= nlen,
                i + nlen <= hlen,
                nlen == n@.len(),
                hlen == h@.len(),
                !mismatch ==> forall|k: int| 0 <= k < j ==> h@[i + k] == n@[k],
                mismatch ==> h@.subrange(i as int, i + n@.len()) != n@,
            decreases nlen - j,
        {
            if h[i + j] != n.get_char(j) {
                proof {
                    assert(h@.subrange(i as int, i + n@.len())[j as int] != n@[j as int]);
                }
                mismatch = true;
                j = nlen;
            } else {
                j = j + 1;
            }
        }
        if !mismatch {
            proof {
                assert(h@.subrange(i as int, i + n@.len()) =~= n@);
            }
            return true;
        }
        i = i + 1;
    }
    proof {
        assert(forall|t: int|
            0 <= t && t + n@.len() <= h@.len() ==> #[trigger] h@.subrange(t, t + n@.len())
                != n@);
    }
    false
}

/// Substring search over strings.
pub fn str_contains(h: &str, n: &str) -> (r: bool)
    ensures
        r == has_substring(h@, n@),
{
    let hv = chars_of(h);
    contains_chars(hv.as_slice(), n)
}

/// A copy of the characters between two positions.
pub fn subvec(s: &[char], a: usize, b: usize) -> (r: Vec<char>)
    requires
        a <= b <= s@.len(),
    ensures
        r@ == s@.subrange(a as int, b as int),
{
    let mut r: Vec<char> = Vec::new();
    let mut i: usize = a;
    while i < b
        invariant
            a <= i <= b <= s@.len(),
            r@ == s@.subrange(a as int, i as int),
        decreases b - i,
    {
        r.push(s[i]);
        i = i + 1;
        proof {
            assert(r@ =~= s@.subrange(a as int, i as int));
        }
    }
    r
}

/// Whether a character is an ASCII decimal digit.
pub fn is_digit(c: char) -> (r: bool)
    ensures
        r == is_digit_char(c),
{
    '0' <= c && c <= '9'
}

/// The value of a digit sequence, saturating at the largest 64-bit value.
pub fn digits_value_sat(s: &[char]) -> (r: u64)
    requires
        all_digits(s@),
    ensures
        digits_nat(s@) <= u64::MAX ==> r == digits_nat(s@),
        digits_nat(s@) > u64::MAX ==> r == u64::MAX,
{
    let len = s.len();
    let mut acc: u64 = 0;
    let mut i: usize = 0;
    while i < len
        invariant
            i <= len,
            len == s@.len(),
            all_digits(s@),
            digits_nat(s@.subrange(0, i as int)) <= u64::MAX ==> acc == digits_nat(
                s@.subrange(0, i as int),
            ),
            digits_nat(s@.subrange(0, i as int)) > u64::MAX ==> acc == u64::MAX,
        decreases len - i,
    {
        let c = s[i];
        let d: u64 = (c as u32 - '0' as u32) as u64;
        proof {
            assert(s@.subrange(0, i + 1).drop_last() =~= s@.subrange(0, i as int));
            assert(s@.subrange(0, i + 1).last() == s@[i as int]);
            assert(d == digit_val(s@[i as int]));
        }
        if acc <= (u64::MAX - d) / 10 {
            acc = acc * 10 + d;
        } else {
            acc = u64::MAX;
        }
        i = i + 1;
    }
    proof {
        assert(s@.subrange(0, len as int) =~= s@);
    }
    acc
}

/// Appends the digit character for a value below ten.
pub fn push_digit(s: &mut String, d: u64)
    requires
        d < 10,
    ensures
        final(s)@ == old(s)@ + seq![digit_char(d as nat)],
{
    match d {
        0 => {
            proof {
                reveal_strlit("0");
            }
            s.append("0");
        },
        1 => {
            proof {
                reveal_strlit("1");
            }
            s.append("1");
        },
        2 => {
            proof {
                reveal_strlit("2");
            }
            s.append("2");
        },
        3 => {
            proof {
                reveal_strlit("3");
            }
            s.append("3");
        },
        4 => {
            proof {
                reveal_strlit("4");
            }
            s.append("4");
        },
        5 => {
            proof {
                reveal_strlit("5");
            }
            s.append("5");
        },
        6 => {
            proof {
                reveal_strlit("6");
            }
            s.append("6");
        },
        7 => {
            proof {
                reveal_strlit("7");
            }
            s.append("7");
        },
        8 => {
            proof {
                reveal_strlit("8");
            }
            s.append("8");
        },
        _ => {
            proof {
                reveal_strlit("9");
            }
            s.append("9");
        },
    }
    proof {
        assert(s@ =~= old(s)@ + seq![digit_char(d as nat)]);
    }
}

/// Appends the decimal rendering of a number.
pub fn push_decimal(s: &mut String, n: u64)
    ensures
        final(s)@ == old(s)@ + dec_digits(n as nat),
    decreases n,
{
    if n < 10 {
        push_digit(s, n);
    } else {
        push_decimal(s, n / 10);
        push_digit(s, n % 10);
        proof {
            assert(s@ =~= old(s)@ + dec_digits(n as nat));
        }
    }
}

/// Appends the decimal rendering padded to at least two digits.
pub fn push_two_digits(s: &mut String, n: u64)
    ensures
        final(s)@ == old(s)@ + two_digits(n as nat),
{
    if n < 10 {
        proof {
            reveal_strlit("0");
        }
        s.append("0");
        push_digit(s, n);
        proof {
            assert(s@ =~= old(s)@ + two_digits(n as nat));
        }
    } else {
        push_decimal(s, n);
    }
}

/// The decimal rendering of a number as a fresh string.
pub fn u64_to_string(n: u64) -> (r: String)
    ensures
        r@ == dec_digits(n as nat),
{
    let mut s = String::new();
    push_decimal(&mut s, n);
    proof {
        assert(s@ =~= dec_digits(n as nat));
    }
    s
}

} // verus!
