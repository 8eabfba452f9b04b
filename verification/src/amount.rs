use vstd::prelude::*;
use rust_decimal::prelude::ToPrimitive;
use rust_decimal::Decimal;

verus! {

/// Largest magnitude of a `rust_decimal::Decimal` mantissa: 2^96 - 1.
pub const MAX_MANTISSA: i128 = 79228162514264337593543950335;

/// Largest scale (number of fractional digits) of a `rust_decimal::Decimal`.
pub const MAX_SCALE: u32 = 28;

pub open spec fn pow10(n: nat) -> int
    decreases n,
{
    if n == 0 {
        1
    } else {
        10 * pow10((n - 1) as nat)
    }
}

pub proof fn lemma_pow10_positive(n: nat)
    ensures
        pow10(n) >= 1,
    decreases n,
{
    if n > 0 {
        lemma_pow10_positive((n - 1) as nat);
    }
}

pub proof fn lemma_pow10_monotonic(m: nat, n: nat)
    requires
        m <= n,
    ensures
        pow10(m) <= pow10(n),
    decreases n,
{
    if m < n {
        lemma_pow10_monotonic(m, (n - 1) as nat);
        lemma_pow10_positive((n - 1) as nat);
    }
}

pub proof fn lemma_pow10_add(a: nat, b: nat)
    ensures
        pow10(a + b) == pow10(a) * pow10(b),
    decreases a,
{
    if a > 0 {
        lemma_pow10_add((a - 1) as nat, b);
        assert((a - 1 + b) as nat == (a + b - 1) as nat);
        assert(pow10(a + b) == 10 * pow10((a + b - 1) as nat));
        assert(10 * (pow10((a - 1) as nat) * pow10(b)) == (10 * pow10((a - 1) as nat)) * pow10(b))
            by (nonlinear_arith);
    }
}

/// An amount of money as `rust_decimal::Decimal` holds it: the value is
/// `mantissa / 10^scale`.
#[derive(Debug, Clone, Copy, PartialEq, Eq, Structural)]
pub struct Amount {
    pub mantissa: i128,
    pub scale: u32,
}

/// The larger of two scales: the scale at which Decimal adds two amounts.
pub open spec fn max_scale(a: u32, b: u32) -> u32 {
    if a >= b {
        a
    } else {
        b
    }
}

/// A value, counted in units of 10^-28, that a Decimal of the given scale can hold
/// without rounding away digits (its mantissa at that scale stays within 96 bits).
pub open spec fn fits_at(units: int, scale: u32) -> bool {
    &&& -(MAX_MANTISSA * pow10((MAX_SCALE - scale) as nat)) <= units
    &&& units <= MAX_MANTISSA * pow10((MAX_SCALE - scale) as nat)
}

impl Amount {
    /// The values a Decimal can take.
    pub open spec fn wf(self) -> bool {
        &&& -MAX_MANTISSA <= self.mantissa <= MAX_MANTISSA
        &&& self.scale <= MAX_SCALE
    }

    /// The value counted in units of 10^-28, so that amounts of any scale compare and
    /// add as integers.
    pub open spec fn units(self) -> int {
        self.mantissa * pow10((MAX_SCALE - self.scale) as nat)
    }

    pub open spec fn parts(self) -> (i128, u32) {
        (self.mantissa, self.scale)
    }

    pub open spec fn from_pair(p: (i128, u32)) -> Amount {
        Amount { mantissa: p.0, scale: p.1 }
    }

    /// `num / 10^scale`, as `Decimal::new` builds it.
    pub fn new(num: i64, scale: u32) -> (r: Amount)
        requires
            scale <= MAX_SCALE,
        ensures
            r.mantissa == num,
            r.scale == scale,
            r.wf(),
    {
        Amount { mantissa: num as i128, scale }
    }

    /// Zero, as `Decimal::ZERO`.
    pub fn zero() -> (r: Amount)
        ensures
            r.mantissa == 0,
            r.scale == 0,
            r.wf(),
    {
        Amount { mantissa: 0, scale: 0 }
    }

    /// The amount with the given mantissa and scale, as `Decimal::try_from_i128_with_scale`
    /// gives it: `None` where no Decimal has those parts.
    pub fn from_parts(mantissa: i128, scale: u32) -> (r: Option<Amount>)
        ensures
            r matches Some(a) ==> a.mantissa == mantissa && a.scale == scale && a.wf(),
            r is None <==> !(Amount { mantissa, scale }).wf(),
    {
        if scale > MAX_SCALE || mantissa > MAX_MANTISSA || mantissa < -MAX_MANTISSA {
            None
        } else {
            Some(Amount { mantissa, scale })
        }
    }
}

/// The parts of an optional amount.
pub open spec fn opt_parts(r: Option<Amount>) -> Option<(i128, u32)> {
    match r {
        Some(a) => Some(a.parts()),
        None => None,
    }
}

/// What `Decimal::checked_add` returns for the Decimals with the given (mantissa, scale).
pub uninterp spec fn decimal_sum(a: (i128, u32), b: (i128, u32)) -> Option<(i128, u32)>;

/// What `Decimal::checked_sub` returns for the Decimals with the given (mantissa, scale).
pub uninterp spec fn decimal_difference(a: (i128, u32), b: (i128, u32)) -> Option<(i128, u32)>;

/// What `Decimal::checked_mul` returns for the Decimals with the given (mantissa, scale).
pub uninterp spec fn decimal_product(a: (i128, u32), b: (i128, u32)) -> Option<(i128, u32)>;

/// Calls `rust_decimal::Decimal::checked_add`. Claimed of it: the result is named by
/// `decimal_sum`; it is a Decimal whose scale is at most the larger operand scale; and
/// where the exact sum fits a Decimal at that larger scale, the result is that exact sum.
/// (Where it does not fit, the crate rounds or gives `None`; which, is left to the name.)
#[verifier::external_body]
fn decimal_checked_add(a: Amount, b: Amount) -> (r: Option<Amount>)
    requires
        a.wf(),
        b.wf(),
    ensures
        opt_parts(r) == decimal_sum(a.parts(), b.parts()),
        r matches Some(x) ==> x.wf() && x.scale <= max_scale(a.scale, b.scale),
        fits_at(a.units() + b.units(), max_scale(a.scale, b.scale)) ==> r is Some,
        r matches Some(x) ==> (fits_at(a.units() + b.units(), max_scale(a.scale, b.scale)) ==> x.units() == a.units() + b.units()),
{
    let x = Decimal::from_i128_with_scale(a.mantissa, a.scale);
    let y = Decimal::from_i128_with_scale(b.mantissa, b.scale);
    match x.checked_add(y) {
        Some(d) => Some(Amount { mantissa: d.mantissa(), scale: d.scale() }),
        None => None,
    }
}

/// Calls `rust_decimal::Decimal::checked_sub`; claimed of it what `decimal_checked_add`
/// claims of addition, for the difference.
#[verifier::external_body]
fn decimal_checked_sub(a: Amount, b: Amount) -> (r: Option<Amount>)
    requires
        a.wf(),
        b.wf(),
    ensures
        opt_parts(r) == decimal_difference(a.parts(), b.parts()),
        r matches Some(x) ==> x.wf() && x.scale <= max_scale(a.scale, b.scale),
        fits_at(a.units() - b.units(), max_scale(a.scale, b.scale)) ==> r is Some,
        r matches Some(x) ==> (fits_at(a.units() - b.units(), max_scale(a.scale, b.scale)) ==> x.units() == a.units() - b.units()),
{
    let x = Decimal::from_i128_with_scale(a.mantissa, a.scale);
    let y = Decimal::from_i128_with_scale(b.mantissa, b.scale);
    match x.checked_sub(y) {
        Some(d) => Some(Amount { mantissa: d.mantissa(), scale: d.scale() }),
        None => None,
    }
}

/// The product `p` of two mantissas, of scale `s`, is exactly a Decimal once its last `k`
/// digits (all zeros) are dropped: `k <= s`, and what is left fits 96 bits.
pub open spec fn exact_after_dropping(p: int, s: nat, k: nat) -> bool {
    &&& k <= s
    &&& p % pow10(k) == 0
    &&& -MAX_MANTISSA <= p / pow10(k) <= MAX_MANTISSA
}

/// The exact product of the two Decimals is a Decimal at a scale no larger than the sum of
/// their scales.
pub open spec fn product_is_exact(a: Amount, b: Amount) -> bool {
    exists|k: nat|
        #[trigger] exact_after_dropping(a.mantissa * b.mantissa, (a.scale + b.scale) as nat, k)
}

/// Calls `rust_decimal::Decimal::checked_mul`. Claimed of it: the result is named by
/// `decimal_product` and is a Decimal. With the scales adding up to at most 28: where the
/// exact product is a Decimal at some scale no larger than that sum, the result is that
/// exact product (the crate drops trailing digits only until the mantissa fits 96 bits,
/// and drops zeros exactly); where the integer part of the exact product is beyond the
/// largest Decimal, there is no result.
#[verifier::external_body]
fn decimal_checked_mul(a: Amount, b: Amount) -> (r: Option<Amount>)
    requires
        a.wf(),
        b.wf(),
    ensures
        opt_parts(r) == decimal_product(a.parts(), b.parts()),
        r matches Some(x) ==> x.wf(),
        (a.scale + b.scale <= MAX_SCALE && product_is_exact(a, b)) ==> r is Some,
        r matches Some(x) ==> ((a.scale + b.scale <= MAX_SCALE && product_is_exact(a, b)) ==> x.mantissa * pow10((a.scale + b.scale) as nat) == a.mantissa * b.mantissa * pow10(x.scale as nat)),
        (a.scale + b.scale <= MAX_SCALE && (MAX_MANTISSA + 1) * pow10((a.scale + b.scale) as nat)
            <= vstd::math::abs(a.mantissa * b.mantissa)) ==> r is None,
{
    let x = Decimal::from_i128_with_scale(a.mantissa, a.scale);
    let y = Decimal::from_i128_with_scale(b.mantissa, b.scale);
    match x.checked_mul(y) {
        Some(d) => Some(Amount { mantissa: d.mantissa(), scale: d.scale() }),
        None => None,
    }
}

/// Calls `<Decimal as PartialOrd>::le`: Decimals compare by value.
#[verifier::external_body]
fn decimal_le(a: Amount, b: Amount) -> (r: bool)
    requires
        a.wf(),
        b.wf(),
    ensures
        r == (a.units() <= b.units()),
{
    Decimal::from_i128_with_scale(a.mantissa, a.scale) <= Decimal::from_i128_with_scale(
        b.mantissa,
        b.scale,
    )
}

/// The integer part of an amount, rounded toward zero.
pub open spec fn truncated(a: Amount) -> int {
    if a.mantissa >= 0 {
        a.mantissa as int / pow10(a.scale as nat)
    } else {
        -((-a.mantissa) / pow10(a.scale as nat))
    }
}

/// Calls `<Decimal as ToPrimitive>::to_i64`: the value truncated toward zero, where it
/// fits an `i64`.
#[verifier::external_body]
fn decimal_to_i64(a: Amount) -> (r: Option<i64>)
    requires
        a.wf(),
    ensures
        r == (if i64::MIN <= truncated(a) <= i64::MAX {
            Some(truncated(a) as i64)
        } else {
            None
        }),
{
    Decimal::from_i128_with_scale(a.mantissa, a.scale).to_i64()
}

/// The sum of two amounts, as Decimal's checked addition gives it.
pub fn add_amounts(a: Amount, b: Amount) -> (r: Option<Amount>)
    requires
        a.wf(),
        b.wf(),
    ensures
        opt_parts(r) == decimal_sum(a.parts(), b.parts()),
        r matches Some(x) ==> x.wf() && x.scale <= max_scale(a.scale, b.scale),
        fits_at(a.units() + b.units(), max_scale(a.scale, b.scale)) ==> (r matches Some(x)
            && x.units() == a.units() + b.units()),
{
    decimal_checked_add(a, b)
}

/// The difference of two amounts, as Decimal's checked subtraction gives it.
pub fn subtract_amounts(a: Amount, b: Amount) -> (r: Option<Amount>)
    requires
        a.wf(),
        b.wf(),
    ensures
        opt_parts(r) == decimal_difference(a.parts(), b.parts()),
        r matches Some(x) ==> x.wf() && x.scale <= max_scale(a.scale, b.scale),
        fits_at(a.units() - b.units(), max_scale(a.scale, b.scale)) ==> (r matches Some(x)
            && x.units() == a.units() - b.units()),
{
    decimal_checked_sub(a, b)
}

/// The product of two amounts, as Decimal's checked multiplication gives it.
pub fn multiply_amounts(a: Amount, b: Amount) -> (r: Option<Amount>)
    requires
        a.wf(),
        b.wf(),
    ensures
        opt_parts(r) == decimal_product(a.parts(), b.parts()),
        r matches Some(x) ==> x.wf(),
        (a.scale + b.scale <= MAX_SCALE && product_is_exact(a, b)) ==> (r matches Some(x)
            && x.mantissa * pow10((a.scale + b.scale) as nat)
            == a.mantissa * b.mantissa * pow10(x.scale as nat)),
        (a.scale + b.scale <= MAX_SCALE && (MAX_MANTISSA + 1) * pow10((a.scale + b.scale) as nat)
            <= vstd::math::abs(a.mantissa * b.mantissa)) ==> r is None,
{
    decimal_checked_mul(a, b)
}

/// The integer part of an amount (truncated toward zero), where it fits an `i64`.
pub fn amount_to_i64(a: Amount) -> (r: Option<i64>)
    requires
        a.wf(),
    ensures
        r == (if i64::MIN <= truncated(a) <= i64::MAX {
            Some(truncated(a) as i64)
        } else {
            None
        }),
{
    decimal_to_i64(a)
}

/// Whether an amount is at most another, comparing values (so 1.0 equals 1).
pub fn amount_le(a: Amount, b: Amount) -> (r: bool)
    requires
        a.wf(),
        b.wf(),
    ensures
        r == (a.units() <= b.units()),
{
    decimal_le(a, b)
}

} // verus!
