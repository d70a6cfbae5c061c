//! Sign-in codes.
use vstd::prelude::*;
use crate::random::{gen_below, thread_rng};
use crate::text::{all_digits, digit_char, digits_value, padded_decimal, push_padded_decimal};

verus! {

/// How many digits a sign-in code has.
pub const CODE_DIGITS: u64 = 6;

/// One more than the largest sign-in code.
pub const CODE_LIMIT: u64 = 1_000_000;

/// A sign-in code: the six-digit, zero-padded decimal notation of a number below a million.
pub open spec fn is_sign_in_code(code: Seq<char>) -> bool {
    exists|n: nat| n < CODE_LIMIT && code == padded_decimal(n, CODE_DIGITS as nat)
}

/// The code for the number `n`: six decimal digits, zero-padded (`format!("{:06}", n)`).
pub fn format_code(n: u64) -> (code: String)
    requires
        n < CODE_LIMIT,
    ensures
        code@ == padded_decimal(n as nat, CODE_DIGITS as nat),
{
    let mut code = String::new();
    push_padded_decimal(&mut code, n, CODE_DIGITS);
    code
}

/// Generate a 6-digit verification code
pub fn generate_code() -> (code: String)
    ensures
        is_sign_in_code(code@),
{
    let mut rng = thread_rng();
    let n: usize = gen_below(&mut rng, CODE_LIMIT as usize);
    let code = format_code(n as u64);
    assert(n < CODE_LIMIT && code@ == padded_decimal(n as nat, CODE_DIGITS as nat));
    code
}

proof fn lemma_padded_decimal(n: nat, width: nat)
    ensures
        padded_decimal(n, width).len() == width,
        all_digits(padded_decimal(n, width)),
        digits_value(padded_decimal(n, width)) == n % pow10(width),
    decreases width,
{
    if width > 0 {
        let w1: nat = (width - 1) as nat;
        lemma_padded_decimal(n / 10, w1);
        let s = padded_decimal(n, width);
        let d: nat = n % 10;
        assert(s.drop_last() =~= padded_decimal(n / 10, w1));
        assert(s.last() == digit_char(d));
        assert((digit_char(d) as nat) == d + 48);
        assert forall|i: int| 0 <= i < s.len() implies crate::text::is_digit(#[trigger] s[i]) by {
            if i < s.len() - 1 {
                assert(s[i] == padded_decimal(n / 10, w1)[i]);
            }
        }
        lemma_pow10_positive(w1);
        lemma_mod_split(n, pow10(w1));
    }
}

proof fn lemma_pow10_positive(k: nat)
    ensures
        pow10(k) > 0,
    decreases k,
{
    if k > 0 {
        lemma_pow10_positive((k - 1) as nat);
    }
}

/// `10` to the power `k`.
pub open spec fn pow10(k: nat) -> nat
    decreases k,
{
    if k == 0 {
        1
    } else {
        10 * pow10((k - 1) as nat)
    }
}

proof fn lemma_mod_split(n: nat, p: nat)
    requires
        p > 0,
    ensures
        (n / 10) % p * 10 + n % 10 == n % (10 * p),
{
    let q: nat = n / 10;
    let r: nat = n % 10;
    let a: nat = q / p;
    let b: nat = q % p;
    vstd::arithmetic::div_mod::lemma_fundamental_div_mod(n as int, 10);
    vstd::arithmetic::div_mod::lemma_fundamental_div_mod(q as int, p as int);
    assert(n == a * (10 * p) + (b * 10 + r)) by (nonlinear_arith)
        requires
            n == 10 * q + r,
            q == p * a + b,
    ;
    assert(0 <= b * 10 + r < 10 * p) by (nonlinear_arith)
        requires
            0 <= b < p,
            0 <= r < 10,
    ;
    vstd::arithmetic::div_mod::lemma_fundamental_div_mod_converse(
        n as int,
        (10 * p) as int,
        a as int,
        (b * 10 + r) as int,
    );
}

/// A sign-in code is six decimal digits, and they denote the number it was made from:
/// the code for `n` reads back as `n`.
pub proof fn lemma_code_round_trip(n: nat)
    requires
        n < CODE_LIMIT,
    ensures
        padded_decimal(n, CODE_DIGITS as nat).len() == CODE_DIGITS,
        all_digits(padded_decimal(n, CODE_DIGITS as nat)),
        digits_value(padded_decimal(n, CODE_DIGITS as nat)) == n,
{
    lemma_padded_decimal(n, CODE_DIGITS as nat);
    reveal_with_fuel(pow10, 7);
    assert(pow10(6) == 1_000_000);
    vstd::arithmetic::div_mod::lemma_small_mod(n, 1_000_000);
}

/// Every sign-in code is six decimal digits denoting a number below a million.
pub proof fn lemma_sign_in_code_shape(code: Seq<char>)
    requires
        is_sign_in_code(code),
    ensures
        code.len() == CODE_DIGITS,
        all_digits(code),
        digits_value(code) < CODE_LIMIT,
{
    let n: nat = choose|n: nat| n < CODE_LIMIT && code == padded_decimal(n, CODE_DIGITS as nat);
    lemma_code_round_trip(n);
}

} // verus!
