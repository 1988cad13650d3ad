//! Small numeric helpers: digit counts and ASCII rendering of numbers.
use vstd::prelude::*;

verus! {

/// The ASCII character of digit `d` (0-9, then lowercase letters).
pub open spec fn digit_char(d: nat) -> u8 {
    if d < 10 {
        (d + 0x30) as u8
    } else {
        (d - 10 + 0x61) as u8
    }
}

/// `n` written in base `base` with ASCII digits, most significant first,
/// without leading zeros (zero itself is one digit).
pub open spec fn digits(n: nat, base: nat) -> Seq<u8>
    decreases n
    via digits_decreases

{
    if base < 2 || n < base {
        seq![digit_char(n)]
    } else {
        digits(n / base, base).push(digit_char(n % base))
    }
}

#[via_fn]
proof fn digits_decreases(n: nat, base: nat) {
    if !(base < 2 || n < base) {
        assert(n / base < n) by (nonlinear_arith)
            requires
                base >= 2,
                n >= base,
        ;
    }
}

/// Decimal rendering of `n`.
pub open spec fn decimal(n: nat) -> Seq<u8> {
    digits(n, 10)
}

/// Appends the decimal digits of `n` to `out`.
pub fn push_decimal(out: &mut Vec<u8>, n: u64)
    ensures
        final(out)@ == old(out)@ + decimal(n as nat),
    decreases n,
{
    if n < 10 {
        out.push((n + 0x30) as u8);
    } else {
        push_decimal(out, n / 10);
        out.push((n % 10 + 0x30) as u8);
    }
}

/// Ten to the power `k`.
pub open spec fn pow10(k: nat) -> nat
    decreases k,
{
    if k == 0 {
        1
    } else {
        10 * pow10((k - 1) as nat)
    }
}

proof fn lemma_decimal_len_bound(m: nat, k: nat)
    requires
        k >= 1,
        m < pow10(k),
    ensures
        decimal(m).len() <= k,
    decreases m,
{
    if m >= 10 {
        let p = pow10((k - 1) as nat);
        if k == 1 {
            assert(pow10(1) == 10) by {
                reveal_with_fuel(pow10, 2);
            }
        } else {
            assert(m / 10 < p) by (nonlinear_arith)
                requires
                    m < 10 * p,
            ;
            lemma_decimal_len_bound(m / 10, (k - 1) as nat);
        }
    }
}

/// Every `u64` has at most twenty decimal digits.
proof fn lemma_decimal_len_u64(m: nat)
    requires
        m <= u64::MAX,
    ensures
        decimal(m).len() <= 20,
{
    assert(pow10(20) == 100000000000000000000) by {
        reveal_with_fuel(pow10, 21);
    }
    lemma_decimal_len_bound(m, 20);
}

proof fn lemma_decimal_len_step(m: nat)
    requires
        m >= 10,
    ensures
        decimal(m).len() == decimal(m / 10).len() + 1,
{
}

/// The number of decimal digits of `n`: 1 for 0 to 9, 2 for 10 to 99, and
/// so on.
pub fn digit_width(n: usize) -> (r: usize)
    ensures
        r == decimal(n as nat).len(),
        1 <= r <= 20,
{
    proof {
        lemma_decimal_len_u64(n as nat);
    }
    let mut digits: usize = 0;
    let mut m: usize = n;
    while m > 0
        invariant
            m <= n,
            digits <= 20,
            m > 0 ==> decimal(n as nat).len() == digits + decimal(m as nat).len(),
            m > 0 ==> digits + decimal(m as nat).len() <= 20,
            m == 0 ==> (n == 0 ==> digits == 0),
            m == 0 && n > 0 ==> decimal(n as nat).len() == digits,
        decreases m,
    {
        if m >= 10 {
            proof {
                lemma_decimal_len_step(m as nat);
            }
        }
        m = m / 10;
        digits = digits + 1;
    }
    if digits > 1 {
        digits
    } else {
        1
    }
}

} // verus!
