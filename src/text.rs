use vstd::prelude::*;

verus! {

/// The byte `-`.
pub const MINUS: u8 = 45;

/// The byte `0`.
pub const DIGIT_ZERO: u8 = 48;

/// The byte `9`.
pub const DIGIT_NINE: u8 = 57;

pub open spec fn is_digit(b: u8) -> bool {
    DIGIT_ZERO <= b <= DIGIT_NINE
}

/// A non-empty run of decimal digits.
pub open spec fn all_digits(s: Seq<u8>) -> bool {
    &&& s.len() > 0
    &&& forall|i: int| 0 <= i < s.len() ==> is_digit(#[trigger] s[i])
}

/// The value of a run of decimal digits, most significant first.
pub open spec fn digits_value(s: Seq<u8>) -> nat
    decreases s.len(),
{
    if s.len() == 0 {
        0
    } else {
        digits_value(s.drop_last()) * 10 + (s.last() - DIGIT_ZERO) as nat
    }
}

/// The integer that a decimal text denotes: an optional `-` followed by
/// digits. Leading zeros are accepted.
pub open spec fn text_int(s: Seq<u8>) -> Option<int> {
    if s.len() > 0 && s[0] == MINUS && all_digits(s.skip(1)) {
        Some(-(digits_value(s.skip(1)) as int))
    } else if all_digits(s) {
        Some(digits_value(s) as int)
    } else {
        None
    }
}

/// Decimal digits of a natural number, without leading zeros.
pub open spec fn nat_digits(n: nat) -> Seq<u8>
    decreases n,
{
    if n < 10 {
        seq![(DIGIT_ZERO + n) as u8]
    } else {
        nat_digits(n / 10).push((DIGIT_ZERO + n % 10) as u8)
    }
}

/// Canonical decimal text of an integer: `-` before the digits of a negative one.
pub open spec fn int_text(n: int) -> Seq<u8> {
    if n < 0 {
        seq![MINUS] + nat_digits((-n) as nat)
    } else {
        nat_digits(n as nat)
    }
}

pub open spec fn fits_i64(v: int) -> bool {
    i64::MIN <= v <= i64::MAX
}

/// The digits of a natural number are decimal digits that denote it.
pub proof fn lemma_nat_digits(n: nat)
    ensures
        all_digits(nat_digits(n)),
        digits_value(nat_digits(n)) == n,
    decreases n,
{
    let s = nat_digits(n);
    if n >= 10 {
        lemma_nat_digits(n / 10);
        assert(s.drop_last() =~= nat_digits(n / 10));
        assert(s.last() == DIGIT_ZERO + n % 10);
        assert((n / 10) * 10 + n % 10 == n) by (nonlinear_arith);
        assert forall|i: int| 0 <= i < s.len() implies is_digit(#[trigger] s[i]) by {
            if i < s.len() - 1 {
                assert(s[i] == nat_digits(n / 10)[i]);
            }
        }
    } else {
        assert(s.drop_last() =~= Seq::<u8>::empty());
        assert(s.last() == DIGIT_ZERO + n);
    }
    assert(digits_value(s) == digits_value(s.drop_last()) * 10 + (s.last() - DIGIT_ZERO) as nat);
}

/// Formatting an integer and reading the text back gives the integer.
pub proof fn lemma_int_text_round_trip(n: int)
    ensures
        text_int(int_text(n)) == Some(n),
{
    if n < 0 {
        let m = (-n) as nat;
        lemma_nat_digits(m);
        assert(int_text(n).skip(1) =~= nat_digits(m));
    } else {
        lemma_nat_digits(n as nat);
        assert(is_digit(int_text(n)[0]));
    }
}

proof fn lemma_digits_value_prefix(s: Seq<u8>, k: int)
    requires
        0 <= k <= s.len(),
    ensures
        digits_value(s.take(k)) <= digits_value(s),
    decreases s.len(),
{
    if k < s.len() {
        lemma_digits_value_prefix(s.drop_last(), k);
        assert(s.drop_last().take(k) =~= s.take(k));
    } else {
        assert(s.take(k) =~= s);
    }
}

fn push_nat_digits(n: u64, out: &mut Vec<u8>)
    ensures
        final(out)@ == old(out)@ + nat_digits(n as nat),
    decreases n,
{
    if n >= 10 {
        push_nat_digits(n / 10, out);
    }
    out.push(DIGIT_ZERO + (n % 10) as u8);
    assert(final(out)@ =~= old(out)@ + nat_digits(n as nat));
}

/// Appends the canonical decimal text of `n`.
pub fn push_int_text(out: &mut Vec<u8>, n: i64)
    ensures
        final(out)@ == old(out)@ + int_text(n as int),
{
    if n < 0 {
        out.push(MINUS);
        let magnitude: u64 = (-(n as i128)) as u64;
        push_nat_digits(magnitude, out);
        assert(final(out)@ =~= old(out)@ + int_text(n as int));
    } else {
        push_nat_digits(n as u64, out);
    }
}

/// Canonical decimal text of `n`.
pub fn format_int(n: i64) -> (r: Vec<u8>)
    ensures
        r@ == int_text(n as int),
{
    let mut out: Vec<u8> = Vec::new();
    push_int_text(&mut out, n);
    assert(out@ =~= int_text(n as int));
    out
}

/// Appends every byte of `s`.
pub fn push_bytes(out: &mut Vec<u8>, s: &[u8])
    ensures
        final(out)@ == old(out)@ + s@,
{
    let ghost start = out@;
    let mut i: usize = 0;
    while i < s.len()
        invariant
            i <= s.len(),
            out@ == start + s@.take(i as int),
        decreases s.len() - i,
    {
        out.push(s[i]);
        i = i + 1;
        assert(out@ =~= start + s@.take(i as int));
    }
    assert(s@.take(i as int) =~= s@);
}

/// Reads a decimal integer: an optional `-` followed by at least one digit,
/// whose value fits in an `i64`. Anything else is refused.
pub fn parse_int(s: &[u8]) -> (r: Option<i64>)
    ensures
        r is Some <==> (text_int(s@) is Some && fits_i64(text_int(s@)->0)),
        r matches Some(v) ==> text_int(s@) == Some(v as int),
{
    let n = s.len();
    if n == 0 {
        return None;
    }
    let negative = s[0] == MINUS;
    let start: usize = if negative { 1 } else { 0 };
    if start == n {
        assert(!all_digits(s@.skip(1)));
        assert(!is_digit(s@[0]));
        return None;
    }
    let ghost digits = s@.skip(start as int);
    let mut magnitude: u128 = 0;
    let mut i: usize = start;
    while i < n
        invariant
            n == s.len(),
            start <= i <= n,
            start < n,
            negative == (s@[0] == MINUS),
            start == (if negative { 1usize } else { 0usize }),
            digits == s@.skip(start as int),
            magnitude == digits_value(s@.subrange(start as int, i as int)),
            magnitude <= 0x8000_0000_0000_0000u128,
            forall|j: int| start <= j < i ==> is_digit(#[trigger] s@[j]),
        decreases n - i,
    {
        let b = s[i];
        if b < DIGIT_ZERO || b > DIGIT_NINE {
            proof {
                assert(!is_digit(digits[i - start]));
                assert(!all_digits(digits));
                if !negative {
                    assert(!all_digits(s@));
                } else {
                    assert(!all_digits(s@)) by {
                        assert(!is_digit(s@[0]));
                    }
                }
            }
            return None;
        }
        let next: u128 = magnitude * 10 + (b - DIGIT_ZERO) as u128;
        proof {
            let prev = s@.subrange(start as int, i as int);
            let cur = s@.subrange(start as int, i + 1);
            assert(cur.drop_last() =~= prev);
        }
        if next > 0x8000_0000_0000_0000u128 {
            proof {
                let cur = s@.subrange(start as int, i + 1);
                assert(digits.take(i + 1 - start) =~= cur);
                if all_digits(digits) {
                    lemma_digits_value_prefix(digits, i + 1 - start);
                }
                if !negative {
                    assert(digits =~= s@);
                    assert(!is_digit(MINUS));
                }
            }
            return None;
        }
        magnitude = next;
        i = i + 1;
    }
    proof {
        assert(s@.subrange(start as int, n as int) =~= digits);
        assert(all_digits(digits));
        if !negative {
            assert(digits =~= s@);
        }
    }
    if negative {
        if magnitude == 0x8000_0000_0000_0000u128 {
            Some(i64::MIN)
        } else {
            Some(-(magnitude as i64))
        }
    } else if magnitude > 0x7fff_ffff_ffff_ffffu128 {
        None
    } else {
        Some(magnitude as i64)
    }
}

} // verus!
