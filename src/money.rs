//! Monetary amounts as counts of the smallest currency unit (cents), and rates
//! in basis points (hundredths of a percent).

use vstd::prelude::*;

verus! {

/// One hundred percent, in basis points.
pub const FULL_RATE: u64 = 10000;

/// Largest amount that the ledger accepts for a single figure (ten trillion
/// currency units, in cents).
pub const MAX_AMOUNT: u64 = 1_000_000_000_000_000;

/// `amount * rate / 100%`, rounded to the nearest cent, halves up.
pub open spec fn rate_of(amount: int, rate_bp: int) -> int {
    (amount * rate_bp + 5000) / 10000
}

/// A rate of at most 100% of a non-negative amount lies between zero and the
/// amount.
pub proof fn lemma_rate_bounds(amount: int, rate_bp: int)
    requires
        0 <= amount,
        0 <= rate_bp <= 10000,
    ensures
        0 <= rate_of(amount, rate_bp) <= amount,
{
    assert(0 <= amount * rate_bp <= amount * 10000) by (nonlinear_arith)
        requires 0 <= amount, 0 <= rate_bp <= 10000;
}

/// Applies a rate in basis points to an amount.
pub fn apply_rate(amount: u64, rate_bp: u64) -> (r: u64)
    requires
        rate_bp <= FULL_RATE,
    ensures
        r == rate_of(amount as int, rate_bp as int),
        r <= amount,
{
    proof {
        assert((amount as int) * (rate_bp as int) <= (amount as int) * 10000) by (nonlinear_arith)
            requires rate_bp <= 10000;
    }
    let wide: u128 = (amount as u128) * (rate_bp as u128) + 5000;
    let r = wide / 10000;
    proof {
        assert(r <= amount) by (nonlinear_arith)
            requires r == ((amount as int) * (rate_bp as int) + 5000) / 10000,
                (amount as int) * (rate_bp as int) <= (amount as int) * 10000;
    }
    r as u64
}

/// What `rust_decimal` writes for the decimal `units / 10^scale`.
pub uninterp spec fn decimal_string(units: int, scale: int) -> Seq<char>;

/// The (mantissa, scale) pair that `rust_decimal` parses a text into, if it
/// parses it exactly.
pub uninterp spec fn decimal_parse(s: Seq<char>) -> Option<(i128, u32)>;

/// Relies on `rust_decimal::Decimal::from_i128_with_scale` and its `Display`:
/// the text depends on the two numbers alone. It panics for a scale above
/// 28, which `requires` leaves out; a `u64` always fits its 96-bit mantissa.
#[verifier::external_body]
fn decimal_text(units: u64, scale: u32) -> (r: String)
    requires
        scale <= 28,
    ensures
        r@ == decimal_string(units as int, scale as int),
{
    rust_decimal::Decimal::from_i128_with_scale(units as i128, scale).to_string()
}

/// Relies on `rust_decimal::Decimal::from_str_exact`, `mantissa` and `scale`:
/// the result depends on the text alone, and a scale is at most 28.
#[verifier::external_body]
fn decimal_parts(text: &str) -> (r: Option<(i128, u32)>)
    ensures
        r == decimal_parse(text@),
        r matches Some(p) ==> p.1 <= 28,
{
    rust_decimal::Decimal::from_str_exact(text).ok().map(|d| (d.mantissa(), d.scale()))
}

/// An amount in cents as a decimal string with two places (`130.00`).
pub fn format_amount(cents: u64) -> (r: String)
    ensures
        r@ == decimal_string(cents as int, 2),
{
    decimal_text(cents, 2)
}

pub open spec fn pow10(n: nat) -> int
    decreases n,
{
    if n == 0 { 1 } else { 10 * pow10((n - 1) as nat) }
}

fn pow10_exec(n: u32) -> (r: i128)
    requires
        n <= 28,
    ensures
        r == pow10(n as nat),
        r >= 1,
{
    let mut r: i128 = 1;
    let mut i: u32 = 0;
    while i < n
        invariant
            i <= n <= 28,
            r == pow10(i as nat),
            1 <= r <= pow10(i as nat),
            pow10(i as nat) <= 10000000000000000000000000000i128,
        decreases n - i,
    {
        proof {
            lemma_pow10_bound((i + 1) as nat);
        }
        r = r * 10;
        i += 1;
    }
    r
}

proof fn lemma_pow10_bound(n: nat)
    requires
        n <= 28,
    ensures
        1 <= pow10(n) <= 10000000000000000000000000000i128,
    decreases n,
{
    lemma_pow10_mono(n, 28);
    reveal_with_fuel(pow10, 29);
    assert(pow10(28) == 10000000000000000000000000000int);
}

proof fn lemma_pow10_mono(a: nat, b: nat)
    requires
        a <= b,
    ensures
        1 <= pow10(a) <= pow10(b),
    decreases b,
{
    if b > a {
        lemma_pow10_mono(a, (b - 1) as nat);
    } else if a > 0 {
        lemma_pow10_mono((a - 1) as nat, (a - 1) as nat);
    }
}

/// The amount in cents that the decimal `mantissa / 10^scale` is, when it
/// is non-negative, a whole number of cents, and fits in a `u64`.
pub open spec fn cents_of(mantissa: int, scale: nat) -> Option<u64> {
    if mantissa < 0 {
        None
    } else if scale <= 2 {
        let c = mantissa * pow10((2 - scale) as nat);
        if c <= u64::MAX { Some(c as u64) } else { None }
    } else {
        let d = pow10((scale - 2) as nat);
        if mantissa % d == 0 && mantissa / d <= u64::MAX { Some((mantissa / d) as u64) } else { None }
    }
}

pub fn cents_from_parts(mantissa: i128, scale: u32) -> (r: Option<u64>)
    requires
        scale <= 28,
    ensures
        r == cents_of(mantissa as int, scale as nat),
{
    if mantissa < 0 {
        return None;
    }
    if scale <= 2 {
        if mantissa > u64::MAX as i128 {
            proof {
                lemma_pow10_mono(0, (2 - scale) as nat);
                assert(mantissa * pow10((2 - scale) as nat) >= mantissa) by (nonlinear_arith)
                    requires mantissa >= 0, pow10((2 - scale) as nat) >= 1;
            }
            return None;
        }
        let f = pow10_exec(2 - scale);
        proof {
            lemma_pow10_mono((2 - scale) as nat, 2);
            assert(pow10(0) == 1);
            assert(pow10(1) == 10);
            assert(pow10(2) == 100);
            assert(mantissa * f <= 0xffff_ffff_ffff_ffff * 100) by (nonlinear_arith)
                requires 0 <= mantissa <= 0xffff_ffff_ffff_ffff, 1 <= f <= 100;
        }
        let c = mantissa * f;
        if c > u64::MAX as i128 { None } else { Some(c as u64) }
    } else {
        let d = pow10_exec(scale - 2);
        if mantissa % d == 0 && mantissa / d <= u64::MAX as i128 {
            Some((mantissa / d) as u64)
        } else {
            None
        }
    }
}

/// Parses a decimal amount into cents; `None` unless the text is a decimal
/// that is a non-negative whole number of cents fitting in a `u64`.
pub fn parse_amount(text: &str) -> (r: Option<u64>)
    ensures
        r == (match decimal_parse(text@) {
            Some(p) => cents_of(p.0 as int, p.1 as nat),
            None => None,
        }),
{
    match decimal_parts(text) {
        Some((mantissa, scale)) => cents_from_parts(mantissa, scale),
        None => None,
    }
}

} // verus!
