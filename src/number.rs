use vstd::prelude::*;

use crate::text::{chars_of, string_of};
use crate::types::PRICE_ONE;

verus! {

pub open spec fn is_digit(c: char) -> bool {
    '0' <= c && c <= '9'
}

/// The value of a decimal digit character.
pub open spec fn digit_value(c: char) -> nat {
    if c == '1' {
        1
    } else if c == '2' {
        2
    } else if c == '3' {
        3
    } else if c == '4' {
        4
    } else if c == '5' {
        5
    } else if c == '6' {
        6
    } else if c == '7' {
        7
    } else if c == '8' {
        8
    } else if c == '9' {
        9
    } else {
        0
    }
}

/// The digit character for `d < 10`.
pub open spec fn digit_char(d: nat) -> char {
    if d == 1 {
        '1'
    } else if d == 2 {
        '2'
    } else if d == 3 {
        '3'
    } else if d == 4 {
        '4'
    } else if d == 5 {
        '5'
    } else if d == 6 {
        '6'
    } else if d == 7 {
        '7'
    } else if d == 8 {
        '8'
    } else if d == 9 {
        '9'
    } else {
        '0'
    }
}

/// The number written by a sequence of decimal digits.
pub open spec fn digits_value(s: Seq<char>) -> nat
    decreases s.len(),
{
    if s.len() == 0 {
        0
    } else {
        digits_value(s.drop_last()) * 10 + digit_value(s.last())
    }
}

/// The decimal notation of `n`, without leading zeros.
pub open spec fn decimal(n: nat) -> Seq<char>
    decreases n,
{
    if n < 10 {
        seq![digit_char(n)]
    } else {
        decimal(n / 10).push(digit_char(n % 10))
    }
}

fn digit_of(d: u64) -> (c: char)
    requires
        d < 10,
    ensures
        c == digit_char(d as nat),
        is_digit(c),
{
    match d {
        0 => '0',
        1 => '1',
        2 => '2',
        3 => '3',
        4 => '4',
        5 => '5',
        6 => '6',
        7 => '7',
        8 => '8',
        _ => '9',
    }
}

fn value_of_digit(c: char) -> (d: u64)
    ensures
        d == digit_value(c),
        d < 10,
{
    match c {
        '1' => 1,
        '2' => 2,
        '3' => 3,
        '4' => 4,
        '5' => 5,
        '6' => 6,
        '7' => 7,
        '8' => 8,
        '9' => 9,
        _ => 0,
    }
}

/// Whether an edit buffer for a number admits `c`: ASCII digits and `.`.
pub fn accepts_numeric_char(c: char) -> (r: bool)
    ensures
        r == (is_digit(c) || c == '.'),
{
    ('0' <= c && c <= '9') || c == '.'
}

pub fn decimal_chars(n: u64) -> (r: Vec<char>)
    ensures
        r@ == decimal(n as nat),
    decreases n,
{
    if n < 10 {
        vec![digit_of(n)]
    } else {
        let mut v = decimal_chars(n / 10);
        v.push(digit_of(n % 10));
        v
    }
}

/// `n` in decimal notation.
pub fn decimal_string(n: u64) -> (r: String)
    ensures
        r@ == decimal(n as nat),
{
    let v = decimal_chars(n);
    string_of(&v)
}

// ---------------------------------------------------------------------------
// Fixed-point decimals
// ---------------------------------------------------------------------------

/// Position of the first `.` at or after `k`, or the length if none.
pub open spec fn find_dot(s: Seq<char>, k: int) -> int
    decreases s.len() - k,
{
    if k >= s.len() || k < 0 {
        s.len() as int
    } else if s[k] == '.' {
        k
    } else {
        find_dot(s, k + 1)
    }
}

/// Digits with at most one `.`, and at least one digit.
pub open spec fn valid_decimal(s: Seq<char>) -> bool {
    &&& forall|i: int| 0 <= i < s.len() ==> is_digit(#[trigger] s[i]) || s[i] == '.'
    &&& forall|i: int, j: int| 0 <= i < j < s.len() ==> !(#[trigger] s[i] == '.' && #[trigger] s[j] == '.')
    &&& exists|i: int| 0 <= i < s.len() && is_digit(#[trigger] s[i])
}

pub open spec fn integer_part(s: Seq<char>) -> Seq<char> {
    s.subrange(0, find_dot(s, 0))
}

pub open spec fn fraction_part(s: Seq<char>) -> Seq<char> {
    if find_dot(s, 0) < s.len() {
        s.subrange(find_dot(s, 0) + 1, s.len() as int)
    } else {
        Seq::empty()
    }
}

/// The first eight fractional digits, padded with zeros.
pub open spec fn fraction_digits(s: Seq<char>) -> Seq<char> {
    Seq::new(
        8,
        |j: int|
            if j < fraction_part(s).len() {
                fraction_part(s)[j]
            } else {
                '0'
            },
    )
}

/// The fixed-point value written by `s`; fractional digits past the eighth
/// are dropped.
pub open spec fn fixed_value(s: Seq<char>) -> nat {
    digits_value(integer_part(s)) * (PRICE_ONE as nat) + digits_value(fraction_digits(s))
}

/// What a numeric edit buffer submits: the fixed-point value of a valid
/// decimal that fits in 64 bits, or nothing.
pub open spec fn parsed_fixed(s: Seq<char>) -> Option<u64> {
    if valid_decimal(s) && fixed_value(s) <= u64::MAX {
        Some(fixed_value(s) as u64)
    } else {
        None
    }
}

proof fn lemma_find_dot(s: Seq<char>, k: int)
    requires
        0 <= k <= s.len(),
        forall|i: int| 0 <= i < k ==> s[i] != '.',
    ensures
        find_dot(s, 0) == find_dot(s, k),
    decreases k,
{
    if k > 0 {
        lemma_find_dot_step(s, 0, k);
    }
}

proof fn lemma_find_dot_step(s: Seq<char>, j: int, k: int)
    requires
        0 <= j <= k <= s.len(),
        forall|i: int| j <= i < k ==> s[i] != '.',
    ensures
        find_dot(s, j) == find_dot(s, k),
    decreases k - j,
{
    if j < k {
        lemma_find_dot_step(s, j + 1, k);
    }
}

proof fn lemma_digits_value_monotone(a: Seq<char>, k: int)
    requires
        0 <= k <= a.len(),
    ensures
        digits_value(a.subrange(0, k)) <= digits_value(a),
    decreases a.len() - k,
{
    if k < a.len() {
        lemma_digits_value_monotone(a, k + 1);
        assert(a.subrange(0, k + 1).drop_last() =~= a.subrange(0, k));
    } else {
        assert(a.subrange(0, k) =~= a);
    }
}

/// Parses a numeric edit buffer into a fixed-point value.
pub fn parse_fixed(s: &String) -> (r: Option<u64>)
    ensures
        r == parsed_fixed(s@),
{
    let cs = chars_of(s.as_str());
    let n = cs.len();
    // Validate and locate the decimal point.
    let mut dot = n;
    let mut any_digit = false;
    let mut k: usize = 0;
    while k < n
        invariant
            n == cs@.len(),
            cs@ == s@,
            k <= n,
            dot <= n,
            forall|i: int| 0 <= i < k ==> is_digit(#[trigger] cs@[i]) || cs@[i] == '.',
            forall|i: int, j: int| 0 <= i < j < k ==> !(#[trigger] cs@[i] == '.' && #[trigger] cs@[j] == '.'),
            dot == n ==> forall|i: int| 0 <= i < k ==> cs@[i] != '.',
            dot < n ==> dot < k && cs@[dot as int] == '.' && forall|i: int| 0 <= i < dot ==> cs@[i] != '.',
            any_digit == exists|i: int| 0 <= i < k && is_digit(#[trigger] cs@[i]),
        decreases n - k,
    {
        let c = cs[k];
        if c == '.' {
            if dot < n {
                proof {
                    assert(cs@[dot as int] == '.' && cs@[k as int] == '.');
                    assert(!valid_decimal(s@));
                }
                return None;
            }
            proof {
                assert forall|i: int, j: int| 0 <= i < j < k + 1 implies !(#[trigger] cs@[i] == '.' && #[trigger] cs@[j] == '.') by {
                    if j < k {
                    } else {
                        assert(cs@[i] != '.');
                    }
                }
            }
            dot = k;
        } else if !('0' <= c && c <= '9') {
            proof {
                assert(!(is_digit(cs@[k as int]) || cs@[k as int] == '.'));
            }
            return None;
        } else {
            any_digit = true;
            proof {
                assert(is_digit(cs@[k as int]));
                assert forall|i: int, j: int| 0 <= i < j < k + 1 implies !(#[trigger] cs@[i] == '.' && #[trigger] cs@[j] == '.') by {
                    if j == k {
                        assert(cs@[j] != '.');
                    }
                }
            }
        }
        k = k + 1;
    }
    if !any_digit {
        return None;
    }
    proof {
        if dot == n {
            lemma_find_dot(cs@, n as int);
        } else {
            lemma_find_dot(cs@, dot as int);
        }
        assert(find_dot(cs@, 0) == dot);
        assert(valid_decimal(s@));
    }
    // Integer part.
    let cap: u64 = u64::MAX / PRICE_ONE;
    let mut iv: u64 = 0;
    let mut k: usize = 0;
    let ghost ip = integer_part(s@);
    while k < dot
        invariant
            n == cs@.len(),
            cs@ == s@,
            dot <= n,
            k <= dot,
            ip == cs@.subrange(0, dot as int),
            iv == digits_value(ip.subrange(0, k as int)),
            iv <= cap,
            cap == u64::MAX / PRICE_ONE,
            valid_decimal(s@),
            find_dot(s@, 0) == dot,
        decreases dot - k,
    {
        assert(ip.subrange(0, k + 1).drop_last() =~= ip.subrange(0, k as int));
        assert(ip.subrange(0, k + 1).last() == cs@[k as int]);
        let d = value_of_digit(cs[k]);
        if iv > (cap - d) / 10 {
            proof {
                assert(digits_value(ip.subrange(0, k + 1)) > cap);
                lemma_digits_value_monotone(ip, k + 1);
                assert(digits_value(ip) * (PRICE_ONE as nat) > u64::MAX) by (nonlinear_arith)
                    requires
                        digits_value(ip) > cap,
                        cap == u64::MAX / PRICE_ONE,
                        PRICE_ONE > 0,
                ;
            }
            return None;
        }
        iv = iv * 10 + d;
        k = k + 1;
    }
    assert(ip.subrange(0, dot as int) =~= ip);
    // Fractional digits (eight, zero-padded).
    let ghost fd = fraction_digits(s@);
    let mut fv: u64 = 0;
    let mut j: usize = 0;
    while j < 8
        invariant
            n == cs@.len(),
            cs@ == s@,
            dot <= n,
            j <= 8,
            find_dot(s@, 0) == dot,
            fd == fraction_digits(s@),
            fv == digits_value(fd.subrange(0, j as int)),
            fv <= 99_999_999,
            fv as int <= pow10(j as nat) - 1,
        decreases 8 - j,
    {
        assert(fd.subrange(0, j + 1).drop_last() =~= fd.subrange(0, j as int));
        let d: u64 = if dot < n && j < n - dot - 1 {
            assert(fraction_part(s@)[j as int] == cs@[dot + 1 + j]);
            value_of_digit(cs[dot + 1 + j])
        } else {
            0
        };
        assert(d == digit_value(fd[j as int]));
        proof {
            lemma_pow10_step(j as nat);
        }
        fv = fv * 10 + d;
        j = j + 1;
    }
    assert(fd.subrange(0, 8) =~= fd);
    if iv > (u64::MAX - fv) / PRICE_ONE {
        proof {
            assert((iv as int) * (PRICE_ONE as int) + fv > u64::MAX) by (nonlinear_arith)
                requires
                    iv > (u64::MAX - fv) as int / PRICE_ONE as int,
                    PRICE_ONE > 0,
                    fv <= u64::MAX,
            ;
        }
        return None;
    }
    proof {
        assert((iv as int) * (PRICE_ONE as int) + fv <= u64::MAX) by (nonlinear_arith)
            requires
                iv <= (u64::MAX - fv) as int / PRICE_ONE as int,
                PRICE_ONE > 0,
                fv <= u64::MAX,
        ;
    }
    Some(iv * PRICE_ONE + fv)
}

pub open spec fn pow10(k: nat) -> int
    decreases k,
{
    if k == 0 {
        1
    } else {
        10 * pow10((k - 1) as nat)
    }
}

proof fn lemma_pow10_step(k: nat)
    ensures
        pow10(k + 1) == 10 * pow10(k),
        k <= 7 ==> pow10(k) <= 10_000_000,
{
    if k <= 7 {
        reveal_with_fuel(pow10, 8);
    }
}


/// Drops trailing `'0'` characters.
pub open spec fn trim_zeros(s: Seq<char>) -> Seq<char>
    decreases s.len(),
{
    if s.len() > 0 && s.last() == '0' {
        trim_zeros(s.drop_last())
    } else {
        s
    }
}

/// The eight fractional digits of a fixed-point value.
pub open spec fn fraction_of(v: nat) -> Seq<char> {
    Seq::new(8, |j: int| digit_char((v % (PRICE_ONE as nat)) / (pow10((7 - j) as nat) as nat) % 10))
}

/// Shortest decimal text of a fixed-point value: the whole part, then a
/// point and the fractional digits without trailing zeros, if any.
pub open spec fn fixed_text(v: nat) -> Seq<char> {
    if v % (PRICE_ONE as nat) == 0 {
        decimal(v / (PRICE_ONE as nat))
    } else {
        decimal(v / (PRICE_ONE as nat)) + seq!['.'] + trim_zeros(fraction_of(v))
    }
}

proof fn lemma_pow10_pos(k: nat)
    ensures
        pow10(k) >= 1,
    decreases k,
{
    if k > 0 {
        lemma_pow10_pos((k - 1) as nat);
    }
}

/// Writes a fixed-point value as decimal text (for pre-filling an edit
/// buffer).
pub fn format_fixed(v: u64) -> (r: String)
    ensures
        r@ == fixed_text(v as nat),
{
    let whole = v / PRICE_ONE;
    let frac = v % PRICE_ONE;
    let mut out = decimal_chars(whole);
    if frac == 0 {
        return string_of(&out);
    }
    let ghost full = fraction_of(v as nat);
    let mut digits: Vec<char> = Vec::new();
    let mut p: u64 = 10_000_000;
    let mut j: usize = 0;
    proof {
        reveal_with_fuel(pow10, 8);
    }
    while j < 8
        invariant
            j <= 8,
            frac == v % PRICE_ONE,
            full == fraction_of(v as nat),
            digits@ == full.subrange(0, j as int),
            j < 8 ==> p == pow10((7 - j) as nat),
            p >= 1,
        decreases 8 - j,
    {
        proof {
            reveal_with_fuel(pow10, 8);
        }
        let d = (frac / p) % 10;
        digits.push(digit_of(d));
        assert(digits@ =~= full.subrange(0, j + 1));
        if p >= 10 {
            p = p / 10;
        }
        j = j + 1;
    }
    assert(full.subrange(0, 8) =~= full);
    while digits.len() > 0 && digits[digits.len() - 1] == '0'
        invariant
            trim_zeros(digits@) == trim_zeros(full),
        decreases digits@.len(),
    {
        digits.pop();
    }
    out.push('.');
    let mut k: usize = 0;
    let ghost head = out@;
    while k < digits.len()
        invariant
            k <= digits@.len(),
            out@ == head + digits@.subrange(0, k as int),
        decreases digits@.len() - k,
    {
        out.push(digits[k]);
        assert(out@ =~= head + digits@.subrange(0, k + 1));
        k = k + 1;
    }
    assert(digits@.subrange(0, digits@.len() as int) =~= digits@);
    assert(digits@ == trim_zeros(full));
    string_of(&out)
}

} // verus!
