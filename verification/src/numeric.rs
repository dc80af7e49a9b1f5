//! Exact decimal arithmetic for the value tables.
//!
//! Numeric utility values ("2.5", "-4", "1/3") are parsed as scaled
//! integers (a mantissa and a power-of-ten scale) and rendered back in
//! normalized form: no trailing fraction zeros, no trailing dot, and a
//! bare `0` for zero. A literal is accepted when it is an optional `-`,
//! then digits with at most one inner `.`, twelve digits in all.

use vstd::prelude::*;
use vstd::string::StrSliceExecFns;
use crate::text::{decimal_digits, digit_char, push_char};

verus! {

/// The largest number of digits a literal may carry.
pub open spec fn max_digits() -> nat {
    12
}

/// Ten to the `k`.
pub open spec fn pow10(k: nat) -> nat
    decreases k,
{
    if k == 0 {
        1
    } else {
        10 * pow10((k - 1) as nat)
    }
}

pub proof fn lemma_pow10_pos(k: nat)
    ensures
        pow10(k) >= 1,
    decreases k,
{
    if k > 0 {
        lemma_pow10_pos((k - 1) as nat);
    }
}

pub proof fn lemma_pow10_increases(a: nat, b: nat)
    requires
        a <= b,
    ensures
        pow10(a) <= pow10(b),
        pow10(a) >= 1,
    decreases b,
{
    lemma_pow10_pos(a);
    if a < b {
        lemma_pow10_increases(a, (b - 1) as nat);
        lemma_pow10_pos((b - 1) as nat);
    }
}

/// `pow10` of a small exponent, as a machine word.
pub fn pow10_u64(k: u64) -> (r: u64)
    requires
        k <= 18,
    ensures
        r as nat == pow10(k as nat),
{
    proof {
        reveal_with_fuel(pow10, 20);
    }
    let mut r: u64 = 1;
    let mut i: u64 = 0;
    while i < k
        invariant
            0 <= i <= k <= 18,
            r as nat == pow10(i as nat),
        decreases k - i,
    {
        proof {
            lemma_pow10_increases(i as nat + 1, 18);
            assert(pow10(18) < u64::MAX) by {
                reveal_with_fuel(pow10, 20);
            }
        }
        r = r * 10;
        i = i + 1;
    }
    r
}

/// A decimal digit.
pub open spec fn is_digit(c: char) -> bool {
    '0' <= c && c <= '9'
}

/// The value of a decimal digit.
pub open spec fn digit_value(c: char) -> nat {
    (c as u32 - 48) as nat
}

/// Every character is a digit.
pub open spec fn all_digits(s: Seq<char>) -> bool {
    forall|i: int| 0 <= i < s.len() ==> is_digit(#[trigger] s[i])
}

/// The number the digit string denotes.
pub open spec fn digits_to_nat(s: Seq<char>) -> nat
    decreases s.len(),
{
    if s.len() == 0 {
        0
    } else {
        digits_to_nat(s.drop_last()) * 10 + digit_value(s.last())
    }
}

pub proof fn lemma_digits_to_nat_bound(s: Seq<char>)
    requires
        all_digits(s),
    ensures
        digits_to_nat(s) < pow10(s.len() as nat),
    decreases s.len(),
{
    if s.len() > 0 {
        assert(all_digits(s.drop_last())) by {
            assert(forall|i: int|
                0 <= i < s.drop_last().len() ==> #[trigger] s.drop_last()[i] == s[i]);
        }
        lemma_digits_to_nat_bound(s.drop_last());
        assert(digit_value(s.last()) <= 9);
    }
}

/// The position of the first `c` at or after `pos`, or the end.
pub open spec fn find_char(s: Seq<char>, pos: int, c: char) -> int
    decreases s.len() - pos,
    when 0 <= pos <= s.len()
{
    if pos >= s.len() {
        pos
    } else if s[pos] == c {
        pos
    } else {
        find_char(s, pos + 1, c)
    }
}

pub proof fn lemma_find_char_eq(s: Seq<char>, pos: int, c: char, stop: int)
    requires
        0 <= pos <= stop <= s.len(),
        forall|i: int| pos <= i < stop ==> s[i] != c,
        stop < s.len() ==> s[stop] == c,
    ensures
        find_char(s, pos, c) == stop,
    decreases stop - pos,
{
    if pos < stop {
        lemma_find_char_eq(s, pos + 1, c, stop);
    }
}

/// The parsed form of a decimal literal: its sign, its mantissa, and
/// how many of the mantissa's digits are fraction digits.
pub open spec fn spec_parse_decimal(s: Seq<char>) -> Option<(bool, nat, nat)> {
    let neg = s.len() > 0 && s[0] == '-';
    let body = if neg {
        s.drop_first()
    } else {
        s
    };
    let dot = find_char(body, 0, '.');
    if dot == body.len() {
        if 1 <= body.len() <= max_digits() && all_digits(body) {
            Some((neg, digits_to_nat(body), 0))
        } else {
            None
        }
    } else {
        let int_part = body.take(dot);
        let frac_part = body.skip(dot + 1);
        if int_part.len() >= 1 && frac_part.len() >= 1 && int_part.len() + frac_part.len()
            <= max_digits() && all_digits(int_part) && all_digits(frac_part) {
            Some((neg, digits_to_nat(int_part + frac_part), frac_part.len() as nat))
        } else {
            None
        }
    }
}

/// The sign mark of a rendering.
pub open spec fn sign_seq(neg: bool) -> Seq<char> {
    if neg {
        seq!['-']
    } else {
        Seq::empty()
    }
}

/// `n` as exactly `k` digits, zero-padded at the front.
pub open spec fn pad_digits(n: nat, k: nat) -> Seq<char>
    decreases k,
{
    if k == 0 {
        Seq::empty()
    } else {
        pad_digits(n / 10, (k - 1) as nat).push(digit_char((n % 10) as int))
    }
}

/// The normalized rendering of `(-1)^neg * m / 10^k`: trailing fraction
/// zeros dropped, a dot only when a fraction remains, `0` for zero.
pub open spec fn render_scaled(neg: bool, m: nat, k: nat) -> Seq<char>
    decreases k,
{
    if k > 0 && m % 10 == 0 {
        render_scaled(neg, m / 10, (k - 1) as nat)
    } else if m == 0 {
        seq!['0']
    } else if k == 0 {
        sign_seq(neg) + decimal_digits(m)
    } else {
        sign_seq(neg) + decimal_digits(m / pow10(k)) + seq!['.'] + pad_digits(m % pow10(k), k)
    }
}

// ---------------------------------------------------------------------
// Executable parsing and rendering

/// The value of a run of digits.
pub fn scan_digits(s: &str, from: usize, to: usize) -> (r: u64)
    requires
        from <= to <= s@.len(),
        to - from <= max_digits(),
        forall|i: int| from <= i < to ==> is_digit(s@[i]),
    ensures
        r as nat == digits_to_nat(s@.subrange(from as int, to as int)),
{
    let mut acc: u64 = 0;
    let mut j: usize = from;
    proof {
        assert(s@.subrange(from as int, from as int) =~= Seq::<char>::empty());
    }
    while j < to
        invariant
            from <= j <= to <= s@.len(),
            to - from <= max_digits(),
            forall|i: int| from <= i < to ==> is_digit(s@[i]),
            acc as nat == digits_to_nat(s@.subrange(from as int, j as int)),
            (acc as nat) < pow10((j - from) as nat),
        decreases to - j,
    {
        let c = s.get_char(j);
        let d = (c as u32) - 48;
        proof {
            lemma_pow10_increases((j - from + 1) as nat, max_digits());
            assert(pow10(max_digits()) < u64::MAX) by {
                reveal_with_fuel(pow10, 14);
            }
            assert(s@.subrange(from as int, j + 1).drop_last() =~= s@.subrange(
                from as int,
                j as int,
            ));
            assert(s@.subrange(from as int, j + 1).last() == s@[j as int]);
        }
        acc = acc * 10 + (d as u64);
        j = j + 1;
    }
    acc
}

/// Whether every character of the range is a digit.
pub fn check_digits(s: &str, from: usize, to: usize) -> (r: bool)
    requires
        from <= to <= s@.len(),
    ensures
        r == (forall|i: int| from <= i < to ==> is_digit(#[trigger] s@[i])),
{
    let mut j: usize = from;
    while j < to
        invariant
            from <= j <= to <= s@.len(),
            forall|i: int| from <= i < j ==> is_digit(#[trigger] s@[i]),
        decreases to - j,
    {
        let c = s.get_char(j);
        if !('0' <= c && c <= '9') {
            return false;
        }
        j = j + 1;
    }
    true
}

/// Parse a decimal literal, if the text is one.
#[verifier::rlimit(100)]
pub fn parse_decimal(s: &str) -> (r: Option<(bool, u64, u64)>)
    ensures
        match r {
            Some(p) => spec_parse_decimal(s@) == Some((p.0, p.1 as nat, p.2 as nat)) && p.2
                <= max_digits() && p.1 < pow10(max_digits()),
            None => spec_parse_decimal(s@) == None::<(bool, nat, nat)>,
        },
{
    let len = s.unicode_len();
    let neg = len > 0 && s.get_char(0) == '-';
    let start: usize = if neg {
        1
    } else {
        0
    };
    let ghost body = if neg {
        s@.drop_first()
    } else {
        s@
    };
    proof {
        assert(body.len() == len - start);
        assert(forall|i: int| 0 <= i < body.len() ==> body[i] == s@[i + start]);
    }
    // find the dot inside the body
    let mut dot: usize = start;
    while dot < len && !char_is_dot(s.get_char(dot))
        invariant
            start <= dot <= len,
            len == s@.len(),
            body.len() == len - start,
            forall|i: int| 0 <= i < body.len() ==> body[i] == s@[i + start],
            forall|i: int| start <= i < dot ==> s@[i] != '.',
        decreases len - dot,
    {
        dot = dot + 1;
    }
    proof {
        lemma_find_char_eq(body, 0, '.', dot - start);
    }
    if dot == len {
        // no fraction part
        let digits = len - start;
        if digits < 1 || digits > 12 {
            return None;
        }
        if !check_digits(s, start, len) {
            proof {
                let i = choose|i: int| start <= i < len && !is_digit(s@[i]);
                assert(!is_digit(body[i - start]));
            }
            return None;
        }
        proof {
            assert(all_digits(body)) by {
                assert(forall|i: int|
                    0 <= i < body.len() ==> #[trigger] body[i] == s@[i + start]);
            }
            assert(s@.subrange(start as int, len as int) =~= body);
            lemma_digits_to_nat_bound(body);
            lemma_pow10_increases(body.len() as nat, max_digits());
        }
        let m = scan_digits(s, start, len);
        Some((neg, m, 0))
    } else {
        // integer part, dot, fraction part
        let int_digits = dot - start;
        let frac_digits = len - dot - 1;
        if int_digits < 1 || frac_digits < 1 || int_digits + frac_digits > 12 {
            return None;
        }
        let int_ok = check_digits(s, start, dot);
        let frac_ok = check_digits(s, dot + 1, len);
        proof {
            assert(body.take(dot - start) =~= s@.subrange(start as int, dot as int));
            assert(body.skip(dot - start + 1) =~= s@.subrange(dot + 1, len as int));
        }
        if !int_ok {
            proof {
                let i = choose|i: int| start <= i < dot && !is_digit(s@[i]);
                assert(!is_digit(body.take(dot - start)[i - start]));
            }
            return None;
        }
        if !frac_ok {
            proof {
                let i = choose|i: int| dot + 1 <= i < len && !is_digit(s@[i]);
                assert(!is_digit(body.skip(dot - start + 1)[i - dot - 1]));
            }
            return None;
        }
        proof {
            assert(all_digits(body.take(dot - start)));
            assert(all_digits(body.skip(dot - start + 1)));
            assert(body.take(dot - start) + body.skip(dot - start + 1) =~= s@.subrange(
                start as int,
                dot as int,
            ) + s@.subrange(dot + 1, len as int));
            lemma_digits_to_nat_bound(body.take(dot - start) + body.skip(dot - start + 1));
            lemma_pow10_increases((int_digits + frac_digits) as nat, max_digits());
        }
        let im = scan_digits(s, start, dot);
        let fm = scan_digits(s, dot + 1, len);
        let p = pow10_u64(frac_digits as u64);
        proof {
            lemma_pow10_increases(frac_digits as nat, max_digits());
            assert(pow10(max_digits()) < u64::MAX) by {
                reveal_with_fuel(pow10, 14);
            }
            lemma_digits_concat(
                s@.subrange(start as int, dot as int),
                s@.subrange(dot + 1, len as int),
            );
            lemma_digits_to_nat_bound(s@.subrange(start as int, dot as int));
            lemma_digits_to_nat_bound(s@.subrange(dot + 1, len as int));
            assert((im as nat) * (p as nat) + (fm as nat) < pow10(max_digits())) by {
                lemma_digits_to_nat_bound(
                    s@.subrange(start as int, dot as int) + s@.subrange(dot + 1, len as int),
                );
                lemma_pow10_increases((int_digits + frac_digits) as nat, max_digits());
            }
        }
        let m = im * p + fm;
        Some((neg, m, frac_digits as u64))
    }
}

/// Whether the character is `.`.
fn char_is_dot(c: char) -> (r: bool)
    ensures
        r == (c == '.'),
{
    c == '.'
}

/// Concatenating digit strings multiplies and adds their values.
proof fn lemma_digits_concat(a: Seq<char>, b: Seq<char>)
    ensures
        digits_to_nat(a + b) == digits_to_nat(a) * pow10(b.len() as nat) + digits_to_nat(b),
    decreases b.len(),
{
    if b.len() == 0 {
        assert(a + b =~= a);
        assert(pow10(0) == 1);
        assert(digits_to_nat(b) == 0);
        assert(digits_to_nat(a) * 1 == digits_to_nat(a)) by (nonlinear_arith);
    } else {
        lemma_digits_concat(a, b.drop_last());
        let da = digits_to_nat(a);
        let db = digits_to_nat(b.drop_last());
        let pl = pow10((b.len() - 1) as nat);
        let d = digit_value(b.last());
        assert((a + b).drop_last() =~= a + b.drop_last());
        assert((a + b).last() == b.last());
        assert(digits_to_nat(a + b) == (da * pl + db) * 10 + d);
        assert(pow10(b.len() as nat) == 10 * pl);
        assert((da * pl + db) * 10 + d == da * (10 * pl) + (db * 10 + d)) by (nonlinear_arith);
        assert(digits_to_nat(b) == db * 10 + d);
        assert(digits_to_nat(a + b) == da * pow10(b.len() as nat) + digits_to_nat(b));
    }
}

/// Append `n` as exactly `k` zero-padded digits.
fn push_pad(out: &mut String, n: u64, k: u64)
    requires
        k <= 18,
    ensures
        final(out)@ == old(out)@ + pad_digits(n as nat, k as nat),
    decreases k,
{
    if k == 0 {
        proof {
            assert(old(out)@ + pad_digits(n as nat, 0) =~= old(out)@);
        }
    } else {
        push_pad(out, n / 10, k - 1);
        push_char(out, digit_char_exec_u64(n % 10));
        proof {
            assert(old(out)@ + pad_digits((n / 10) as nat, (k - 1) as nat) + seq![
                digit_char((n % 10) as int),
            ] =~= old(out)@ + pad_digits(n as nat, k as nat));
        }
    }
}

/// The character of one digit.
fn digit_char_exec_u64(d: u64) -> (c: char)
    requires
        d < 10,
    ensures
        c == digit_char(d as int),
{
    match d {
        0 => '0',
        1 => '1',
        2 => '2',
        3 => '3',
        4 => '4',
        5 => '5',
        6 => '6',
        7 => '7',
        8 => '8',
        _ => '9',
    }
}

/// Append the decimal rendering of `n`.
pub fn push_decimal_u64(s: &mut String, n: u64)
    ensures
        final(s)@ == old(s)@ + decimal_digits(n as nat),
    decreases n,
{
    if n < 10 {
        push_char(s, digit_char_exec_u64(n));
    } else {
        push_decimal_u64(s, n / 10);
        push_char(s, digit_char_exec_u64(n % 10));
        proof {
            assert(old(s)@ + decimal_digits((n / 10) as nat) + seq![
                digit_char((n % 10) as int),
            ] =~= old(s)@ + decimal_digits(n as nat));
        }
    }
}

/// Append the normalized rendering of `(-1)^neg * m / 10^k`.
pub fn push_scaled(out: &mut String, neg: bool, m: u64, k: u64)
    requires
        k <= 18,
    ensures
        final(out)@ == old(out)@ + render_scaled(neg, m as nat, k as nat),
    decreases k,
{
    if k > 0 && m % 10 == 0 {
        push_scaled(out, neg, m / 10, k - 1);
    } else if m == 0 {
        push_char(out, '0');
        proof {
            assert(old(out)@ + seq!['0'] =~= old(out)@.push('0'));
        }
    } else if k == 0 {
        if neg {
            push_char(out, '-');
        }
        let ghost mid = out@;
        push_decimal_u64(out, m);
        proof {
            assert(old(out)@ + sign_seq(neg) =~= mid);
            assert(mid + decimal_digits(m as nat) =~= old(out)@ + render_scaled(
                neg,
                m as nat,
                0,
            ));
        }
    } else {
        let p = pow10_u64(k);
        proof {
            lemma_pow10_pos(k as nat);
        }
        if neg {
            push_char(out, '-');
        }
        let ghost s0 = out@;
        push_decimal_u64(out, m / p);
        push_char(out, '.');
        let ghost s1 = out@;
        push_pad(out, m % p, k);
        proof {
            assert(old(out)@ + sign_seq(neg) =~= s0);
            assert(s1 =~= s0 + decimal_digits((m / p) as nat) + seq!['.']);
            assert(s1 + pad_digits((m % p) as nat, k as nat) =~= old(out)@ + render_scaled(
                neg,
                m as nat,
                k as nat,
            ));
        }
    }
}


/// `pow10` of a small exponent, as a double word.
pub fn pow10_u128(k: u64) -> (r: u128)
    requires
        k <= 32,
    ensures
        r as nat == pow10(k as nat),
{
    let mut r: u128 = 1;
    let mut i: u64 = 0;
    while i < k
        invariant
            0 <= i <= k <= 32,
            r as nat == pow10(i as nat),
        decreases k - i,
    {
        proof {
            lemma_pow10_increases(i as nat + 1, 32);
            assert(pow10(32) < u128::MAX) by {
                reveal_with_fuel(pow10, 34);
            }
        }
        r = r * 10;
        i = i + 1;
    }
    r
}

/// Multiplication preserves order on both sides.
pub proof fn lemma_mul_le(a: nat, b: nat, c: nat, d: nat)
    requires
        a <= b,
        c <= d,
    ensures
        a * c <= b * d,
{
    assert(a * c <= b * d) by (nonlinear_arith)
        requires
            a <= b,
            c <= d,
    ;
}

} // verus!
