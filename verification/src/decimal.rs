use vstd::prelude::*;
use vstd::arithmetic::div_mod::lemma_div_denominator;
use std::str::FromStr;
use crate::text::{digit_chars, digits};

verus! {

/// The largest mantissa magnitude a decimal can hold (96 bits).
pub const MAX_MANTISSA: u128 = 79228162514264337593543950335u128;

/// The largest number of fractional digits a decimal can hold.
pub const MAX_SCALE: u32 = 28u32;

/// A decimal number `(-1)^negative * mantissa / 10^scale`: the plain-value
/// form of a `rust_decimal::Decimal` (its sign flag, 96-bit magnitude and
/// scale). A zero may carry the negative sign, as in `rust_decimal`.
#[derive(Clone, Copy, Debug, PartialEq, Eq, Structural)]
pub struct Dec {
    pub negative: bool,
    pub mantissa: u128,
    pub scale: u32,
}

/// `10^n`.
pub open spec fn pow10(n: nat) -> int
    decreases n,
{
    if n == 0 {
        1
    } else {
        10 * pow10((n - 1) as nat)
    }
}

pub proof fn lemma_pow10_positive(n: nat)
    ensures
        pow10(n) >= 1,
    decreases n,
{
    if n > 0 {
        lemma_pow10_positive((n - 1) as nat);
    }
}

/// The name of what `rust_decimal` parses from a text (`Decimal::from_str`).
pub uninterp spec fn decimal_from_str(s: Seq<char>) -> Option<Dec>;

/// The name of `Decimal::checked_add` on two decimals.
pub uninterp spec fn decimal_add(a: Dec, b: Dec) -> Option<Dec>;

/// The name of `Decimal::checked_sub` on two decimals.
pub uninterp spec fn decimal_sub(a: Dec, b: Dec) -> Option<Dec>;

/// The name of `Decimal::checked_mul` on two decimals.
pub uninterp spec fn decimal_mul(a: Dec, b: Dec) -> Option<Dec>;

/// The name of `Decimal::checked_div` on two decimals.
pub uninterp spec fn decimal_div(a: Dec, b: Dec) -> Option<Dec>;

impl Dec {
    /// The range of values a `rust_decimal::Decimal` can represent.
    pub open spec fn wf(self) -> bool {
        &&& self.scale <= MAX_SCALE
        &&& self.mantissa <= MAX_MANTISSA
    }

    /// The mantissa with its sign.
    pub open spec fn signed(self) -> int {
        if self.negative {
            -(self.mantissa as int)
        } else {
            self.mantissa as int
        }
    }

    /// `self < other` as numbers.
    pub open spec fn less_than(self, other: Dec) -> bool {
        self.signed() * pow10(other.scale as nat) < other.signed() * pow10(self.scale as nat)
    }

    /// `self > 0` as a number.
    pub open spec fn positive(self) -> bool {
        self.signed() > 0
    }

    /// A decimal from its sign, magnitude and scale, if they are in range.
    pub fn from_parts(negative: bool, mantissa: u128, scale: u32) -> (r: Option<Dec>)
        ensures
            r matches Some(d) ==> d == (Dec { negative, mantissa, scale }),
            r is Some <==> (Dec { negative, mantissa, scale }).wf(),
    {
        if scale <= MAX_SCALE && mantissa <= MAX_MANTISSA {
            Some(Dec { negative, mantissa, scale })
        } else {
            None
        }
    }

    /// Whether the number is greater than zero (`d > Decimal::ZERO`).
    pub fn is_positive(&self) -> (r: bool)
        ensures
            r == self.positive(),
    {
        !self.negative && self.mantissa > 0
    }
}

/// Parses a decimal text with `rust_decimal::Decimal::from_str`.
/// Claims: the result is the named parse of the text, and a parsed value is
/// in `Decimal`'s range.
#[verifier::external_body]
pub(crate) fn parse_decimal(s: &str) -> (r: Option<Dec>)
    ensures
        r == decimal_from_str(s@),
        r matches Some(d) ==> d.wf(),
{
    match rust_decimal::Decimal::from_str(s) {
        Ok(d) => Some(Dec { negative: d.is_sign_negative(), mantissa: d.mantissa().unsigned_abs(), scale: d.scale() }),
        Err(_) => None,
    }
}

/// Compares two decimals with `rust_decimal::Decimal`'s `<`.
/// Claims: the comparison is by numeric value (zeros of either sign are equal).
#[verifier::external_body]
pub(crate) fn decimal_lt(a: &Dec, b: &Dec) -> (r: bool)
    requires
        a.wf(),
        b.wf(),
    ensures
        r == a.less_than(*b),
{
    let mut x = rust_decimal::Decimal::from_i128_with_scale(a.mantissa as i128, a.scale);
    x.set_sign_negative(a.negative);
    let mut y = rust_decimal::Decimal::from_i128_with_scale(b.mantissa as i128, b.scale);
    y.set_sign_negative(b.negative);
    x < y
}

/// The larger of two scales: where a sum or difference is exact.
pub open spec fn common_scale(a: Dec, b: Dec) -> nat {
    if a.scale >= b.scale {
        a.scale as nat
    } else {
        b.scale as nat
    }
}

/// The signed magnitude of `a` at scale `s` (at least `a.scale`).
pub open spec fn signed_at(a: Dec, s: nat) -> int {
    a.signed() * pow10((s - a.scale) as nat)
}

/// `d` is worth `num / 10^s`.
pub open spec fn worth(d: Dec, num: int, s: nat) -> bool {
    d.signed() * pow10(s) == num * pow10(d.scale as nat)
}

/// Adds with `rust_decimal::Decimal::checked_add`.
/// Claims: the result is the named sum (`None` on overflow) and is in
/// range; at equal scales a sum that fits 96 bits is exact, at that scale;
/// a sum that fits 96 bits at the larger of the two scales is exact in value.
#[verifier::external_body]
pub(crate) fn checked_add(a: &Dec, b: &Dec) -> (r: Option<Dec>)
    requires
        a.wf(),
        b.wf(),
    ensures
        r == decimal_add(*a, *b),
        r matches Some(d) ==> d.wf(),
        a.scale == b.scale && -(MAX_MANTISSA as int) <= a.signed() + b.signed() <= MAX_MANTISSA ==> r is Some,
        r matches Some(d) ==> (a.scale == b.scale && -(MAX_MANTISSA as int) <= a.signed() + b.signed() <= MAX_MANTISSA
            ==> d.signed() == a.signed() + b.signed() && d.scale == a.scale),
        -(MAX_MANTISSA as int) <= signed_at(*a, common_scale(*a, *b)) + signed_at(*b, common_scale(*a, *b)) <= MAX_MANTISSA ==> r is Some,
        r matches Some(d) ==> (-(MAX_MANTISSA as int) <= signed_at(*a, common_scale(*a, *b)) + signed_at(*b, common_scale(*a, *b)) <= MAX_MANTISSA
            ==> worth(d, signed_at(*a, common_scale(*a, *b)) + signed_at(*b, common_scale(*a, *b)), common_scale(*a, *b))),
{
    let mut x = rust_decimal::Decimal::from_i128_with_scale(a.mantissa as i128, a.scale);
    x.set_sign_negative(a.negative);
    let mut y = rust_decimal::Decimal::from_i128_with_scale(b.mantissa as i128, b.scale);
    y.set_sign_negative(b.negative);
    match x.checked_add(y) {
        Some(d) => Some(Dec { negative: d.is_sign_negative(), mantissa: d.mantissa().unsigned_abs(), scale: d.scale() }),
        None => None,
    }
}

/// Subtracts with `rust_decimal::Decimal::checked_sub`.
/// Claims: the result is the named difference (`None` on overflow) and is
/// in range; at equal scales a difference that fits 96 bits is exact, at that
/// scale; a difference that fits 96 bits at the larger of the two scales is
/// exact in value.
#[verifier::external_body]
pub(crate) fn checked_sub(a: &Dec, b: &Dec) -> (r: Option<Dec>)
    requires
        a.wf(),
        b.wf(),
    ensures
        r == decimal_sub(*a, *b),
        r matches Some(d) ==> d.wf(),
        a.scale == b.scale && -(MAX_MANTISSA as int) <= a.signed() - b.signed() <= MAX_MANTISSA ==> r is Some,
        r matches Some(d) ==> (a.scale == b.scale && -(MAX_MANTISSA as int) <= a.signed() - b.signed() <= MAX_MANTISSA
            ==> d.signed() == a.signed() - b.signed() && d.scale == a.scale),
        -(MAX_MANTISSA as int) <= signed_at(*a, common_scale(*a, *b)) - signed_at(*b, common_scale(*a, *b)) <= MAX_MANTISSA ==> r is Some,
        r matches Some(d) ==> (-(MAX_MANTISSA as int) <= signed_at(*a, common_scale(*a, *b)) - signed_at(*b, common_scale(*a, *b)) <= MAX_MANTISSA
            ==> worth(d, signed_at(*a, common_scale(*a, *b)) - signed_at(*b, common_scale(*a, *b)), common_scale(*a, *b))),
{
    let mut x = rust_decimal::Decimal::from_i128_with_scale(a.mantissa as i128, a.scale);
    x.set_sign_negative(a.negative);
    let mut y = rust_decimal::Decimal::from_i128_with_scale(b.mantissa as i128, b.scale);
    y.set_sign_negative(b.negative);
    match x.checked_sub(y) {
        Some(d) => Some(Dec { negative: d.is_sign_negative(), mantissa: d.mantissa().unsigned_abs(), scale: d.scale() }),
        None => None,
    }
}

/// Multiplies with `rust_decimal::Decimal::checked_mul`.
/// Claims: the result is the named product (`None` on overflow) and is in
/// range; a zero factor gives `Decimal::ZERO`; two nonzero factors whose
/// exact product fits 96 bits at scale at most 28 give that exact product.
#[verifier::external_body]
pub(crate) fn checked_mul(a: &Dec, b: &Dec) -> (r: Option<Dec>)
    requires
        a.wf(),
        b.wf(),
    ensures
        r == decimal_mul(*a, *b),
        r matches Some(d) ==> d.wf(),
        (a.mantissa == 0 || b.mantissa == 0) ==> r == Some(Dec { negative: false, mantissa: 0, scale: 0 }),
        (a.mantissa != 0 && b.mantissa != 0 && a.scale + b.scale <= MAX_SCALE
            && a.mantissa * b.mantissa <= MAX_MANTISSA) ==> r == Some(Dec {
                negative: a.negative != b.negative,
                mantissa: (a.mantissa * b.mantissa) as u128,
                scale: (a.scale + b.scale) as u32,
            }),
{
    let mut x = rust_decimal::Decimal::from_i128_with_scale(a.mantissa as i128, a.scale);
    x.set_sign_negative(a.negative);
    let mut y = rust_decimal::Decimal::from_i128_with_scale(b.mantissa as i128, b.scale);
    y.set_sign_negative(b.negative);
    match x.checked_mul(y) {
        Some(d) => Some(Dec { negative: d.is_sign_negative(), mantissa: d.mantissa().unsigned_abs(), scale: d.scale() }),
        None => None,
    }
}

/// Divides with `rust_decimal::Decimal::checked_div`.
/// Claims: the result is the named quotient (`None` on overflow or a zero
/// divisor) and is in range; a zero divisor gives `None`.
#[verifier::external_body]
pub(crate) fn checked_div(a: &Dec, b: &Dec) -> (r: Option<Dec>)
    requires
        a.wf(),
        b.wf(),
    ensures
        r == decimal_div(*a, *b),
        r matches Some(d) ==> d.wf(),
        b.mantissa == 0 ==> r is None,
{
    let mut x = rust_decimal::Decimal::from_i128_with_scale(a.mantissa as i128, a.scale);
    x.set_sign_negative(a.negative);
    let mut y = rust_decimal::Decimal::from_i128_with_scale(b.mantissa as i128, b.scale);
    y.set_sign_negative(b.negative);
    match x.checked_div(y) {
        Some(d) => Some(Dec { negative: d.is_sign_negative(), mantissa: d.mantissa().unsigned_abs(), scale: d.scale() }),
        None => None,
    }
}

/// The smaller of two decimals, the first when they are equal (`Ord::min`).
pub open spec fn min_spec(a: Dec, b: Dec) -> Dec {
    if b.less_than(a) {
        b
    } else {
        a
    }
}

/// `a.min(b)`: the smaller of two decimals, `a` when they are equal.
pub fn min(a: &Dec, b: &Dec) -> (r: Dec)
    requires
        a.wf(),
        b.wf(),
    ensures
        r == min_spec(*a, *b),
{
    if decimal_lt(b, a) {
        *b
    } else {
        *a
    }
}

/// The magnitude and scale after multiplying by ten while the scale is below
/// `k` and the magnitude stays within 96 bits.
pub open spec fn scale_up_spec(mantissa: nat, scale: nat, k: nat) -> (nat, nat)
    decreases k - scale,
{
    if scale < k && mantissa * 10 <= MAX_MANTISSA {
        scale_up_spec(mantissa * 10, scale + 1, k)
    } else {
        (mantissa, scale)
    }
}

/// `Decimal::trunc_with_scale(k)`: drops digits beyond `k` fractional
/// digits without rounding, or widens the scale to `k` as far as the
/// magnitude allows; the sign flag is kept.
pub open spec fn trunc_spec(d: Dec, k: nat) -> Dec {
    if d.mantissa == 0 {
        Dec { negative: d.negative, mantissa: 0, scale: k as u32 }
    } else if d.scale >= k {
        Dec {
            negative: d.negative,
            mantissa: (d.mantissa as int / pow10((d.scale - k) as nat)) as u128,
            scale: k as u32,
        }
    } else {
        let (m, s) = scale_up_spec(d.mantissa as nat, d.scale as nat, k);
        Dec { negative: d.negative, mantissa: m as u128, scale: s as u32 }
    }
}

proof fn lemma_scale_up_bounds(mantissa: nat, scale: nat, k: nat)
    requires
        mantissa <= MAX_MANTISSA,
        scale <= k,
    ensures
        scale_up_spec(mantissa, scale, k).0 <= MAX_MANTISSA,
        scale <= scale_up_spec(mantissa, scale, k).1 <= k,
    decreases k - scale,
{
    if scale < k && mantissa * 10 <= MAX_MANTISSA {
        lemma_scale_up_bounds(mantissa * 10, scale + 1, k);
    }
}

/// `d.trunc_with_scale(k)`.
pub fn trunc_with_scale(d: &Dec, k: u32) -> (r: Dec)
    requires
        d.wf(),
        k <= MAX_SCALE,
    ensures
        r == trunc_spec(*d, k as nat),
        r.wf(),
{
    if d.mantissa == 0 {
        return Dec { negative: d.negative, mantissa: 0, scale: k };
    }
    if d.scale >= k {
        let mut m: u128 = d.mantissa;
        let mut s: u32 = d.scale;
        proof {
            lemma_pow10_positive((d.scale - k) as nat);
        }
        while s > k
            invariant
                k <= s <= d.scale,
                d.wf(),
                m as int == d.mantissa as int / pow10((d.scale - s) as nat),
            decreases s,
        {
            proof {
                lemma_pow10_positive((d.scale - s) as nat);
                lemma_div_denominator(d.mantissa as int, pow10((d.scale - s) as nat), 10);
                assert(pow10((d.scale - (s - 1)) as nat) == 10 * pow10((d.scale - s) as nat));
                vstd::arithmetic::mul::lemma_mul_is_commutative(pow10((d.scale - s) as nat), 10);
            }
            m = m / 10;
            s = s - 1;
        }
        Dec { negative: d.negative, mantissa: m, scale: k }
    } else {
        let mut m: u128 = d.mantissa;
        let mut s: u32 = d.scale;
        while s < k && m <= MAX_MANTISSA / 10
            invariant
                d.scale <= s <= k,
                m <= MAX_MANTISSA,
                k <= MAX_SCALE,
                scale_up_spec(m as nat, s as nat, k as nat) == scale_up_spec(d.mantissa as nat, d.scale as nat, k as nat),
            decreases k - s,
        {
            m = m * 10;
            s = s + 1;
        }
        Dec { negative: d.negative, mantissa: m, scale: s }
    }
}

/// `Decimal::normalize`: strips trailing zeros of the fraction; a zero
/// becomes positive with scale 0.
pub open spec fn normalize_spec(d: Dec) -> Dec
    decreases d.scale,
{
    if d.mantissa == 0 {
        Dec { negative: false, mantissa: 0, scale: 0 }
    } else if d.scale > 0 && d.mantissa % 10 == 0 {
        normalize_spec(Dec { negative: d.negative, mantissa: d.mantissa / 10, scale: (d.scale - 1) as u32 })
    } else {
        d
    }
}

/// `d.normalize()`.
pub fn normalize(d: &Dec) -> (r: Dec)
    requires
        d.wf(),
    ensures
        r == normalize_spec(*d),
        r.wf(),
{
    if d.mantissa == 0 {
        return Dec { negative: false, mantissa: 0, scale: 0 };
    }
    let mut cur = *d;
    while cur.scale > 0 && cur.mantissa % 10 == 0
        invariant
            cur.wf(),
            cur.mantissa != 0,
            cur.negative == d.negative,
            normalize_spec(cur) == normalize_spec(*d),
        decreases cur.scale,
    {
        cur = Dec { negative: cur.negative, mantissa: cur.mantissa / 10, scale: cur.scale - 1 };
    }
    cur
}

} // verus!

verus! {

/// Normalizing only strips trailing zeros: the scale does not grow, the
/// value is kept (`n.mantissa * 10^(d.scale - n.scale) == d.mantissa`), and
/// no trailing zero of the fraction is left.
pub proof fn law_normalize_keeps_the_value(d: Dec)
    requires
        d.mantissa != 0,
    ensures
        normalize_spec(d).scale <= d.scale,
        normalize_spec(d).negative == d.negative,
        normalize_spec(d).mantissa * pow10((d.scale - normalize_spec(d).scale) as nat) == d.mantissa,
        normalize_spec(d).scale == 0 || normalize_spec(d).mantissa % 10 != 0,
    decreases d.scale,
{
    if d.scale > 0 && d.mantissa % 10 == 0 {
        let next = Dec { negative: d.negative, mantissa: d.mantissa / 10, scale: (d.scale - 1) as u32 };
        assert(next.mantissa != 0);
        law_normalize_keeps_the_value(next);
        let n = normalize_spec(d);
        let k = (next.scale - n.scale) as nat;
        assert(pow10(k + 1) == 10 * pow10(k));
        assert((d.scale - n.scale) as nat == k + 1);
        vstd::arithmetic::mul::lemma_mul_is_associative(n.mantissa as int, pow10(k), 10);
        vstd::arithmetic::mul::lemma_mul_is_commutative(pow10(k), 10);
    }
}

/// Truncating to `k` digits leaves at most `k` fractional digits and, when
/// digits are dropped, never makes the magnitude larger:
/// `r.mantissa * 10^(d.scale - k) <= d.mantissa`.
pub proof fn law_truncation_drops_digits(d: Dec, k: nat)
    requires
        d.wf(),
        k <= MAX_SCALE,
    ensures
        trunc_spec(d, k).scale <= k,
        trunc_spec(d, k).negative == d.negative,
        d.scale >= k ==> trunc_spec(d, k).mantissa * pow10((d.scale - k) as nat) <= d.mantissa,
{
    if d.mantissa != 0 && d.scale < k {
        lemma_scale_up_bounds(d.mantissa as nat, d.scale as nat, k);
    }
    if d.scale >= k {
        lemma_pow10_positive((d.scale - k) as nat);
        vstd::arithmetic::div_mod::lemma_fundamental_div_mod(d.mantissa as int, pow10((d.scale - k) as nat));
        vstd::arithmetic::mul::lemma_mul_is_commutative(
            d.mantissa as int / pow10((d.scale - k) as nat),
            pow10((d.scale - k) as nat),
        );
    }
}

} // verus!

verus! {

/// `10^(a + b) == 10^a * 10^b`.
pub proof fn lemma_pow10_add(a: nat, b: nat)
    ensures
        pow10(a + b) == pow10(a) * pow10(b),
    decreases a,
{
    if a > 0 {
        lemma_pow10_add((a - 1) as nat, b);
        assert(pow10(a + b) == 10 * pow10((a - 1 + b) as nat));
        vstd::arithmetic::mul::lemma_mul_is_associative(10, pow10((a - 1) as nat), pow10(b));
    }
}

/// `t` is `d`'s magnitude cut toward zero after `k` fractional digits:
/// counted in units of `10^-k`, `t` is the whole number of units in `d`.
pub open spec fn cut_to(d: Dec, t: Dec, k: nat) -> bool {
    &&& t.scale <= k
    &&& t.mantissa * pow10((k - t.scale) as nat) * pow10(d.scale as nat) <= d.mantissa * pow10(k)
    &&& d.mantissa * pow10(k) < (t.mantissa * pow10((k - t.scale) as nat) + 1) * pow10(d.scale as nat)
}

/// Widening the scale multiplies the magnitude by the added power of ten,
/// and stops short of `k` only where one more digit would not fit.
proof fn lemma_scale_up_value(mantissa: nat, scale: nat, k: nat)
    requires
        scale <= k,
    ensures
        scale <= scale_up_spec(mantissa, scale, k).1 <= k,
        scale_up_spec(mantissa, scale, k).0 == mantissa * pow10((scale_up_spec(mantissa, scale, k).1 - scale) as nat),
        scale_up_spec(mantissa, scale, k).1 < k ==> scale_up_spec(mantissa, scale, k).0 * 10 > MAX_MANTISSA,
    decreases k - scale,
{
    if scale < k && mantissa * 10 <= MAX_MANTISSA {
        lemma_scale_up_value(mantissa * 10, scale + 1, k);
        let s2 = scale_up_spec(mantissa, scale, k).1;
        lemma_pow10_add(1, (s2 - scale - 1) as nat);
        assert(pow10(0) == 1);
        assert(pow10(1) == 10);
        vstd::arithmetic::mul::lemma_mul_is_associative(mantissa as int, 10, pow10((s2 - scale - 1) as nat));
    } else {
        assert(pow10(0) == 1);
    }
}

/// Truncation to `k` digits cuts the magnitude toward zero (`cut_to`),
/// keeps the sign flag, and reaches scale `k` unless the widened magnitude
/// would not fit.
pub proof fn lemma_trunc_cuts(d: Dec, k: nat)
    requires
        d.wf(),
        k <= MAX_SCALE,
    ensures
        cut_to(d, trunc_spec(d, k), k),
        trunc_spec(d, k).negative == d.negative,
        (d.scale >= k || d.mantissa * pow10((k - d.scale) as nat) <= MAX_MANTISSA) ==> trunc_spec(d, k).scale == k,
{
    let t = trunc_spec(d, k);
    lemma_pow10_positive(d.scale as nat);
    lemma_pow10_positive(k);
    if d.mantissa == 0 {
        assert(pow10(0) == 1);
        let pk = pow10((k - t.scale) as nat);
        let pd = pow10(d.scale as nat);
        assert(0 * pk * pd <= 0 * pow10(k) && 0 * pow10(k) < (0 * pk + 1) * pd) by (nonlinear_arith)
            requires
                pd >= 1,
        ;
        assert(cut_to(d, t, k));
    } else if d.scale >= k {
        let e = (d.scale - k) as nat;
        let p = pow10(e);
        lemma_pow10_positive(e);
        lemma_pow10_add(e, k);
        assert(pow10(d.scale as nat) == p * pow10(k));
        let q = d.mantissa as int / p;
        let r = d.mantissa as int % p;
        vstd::arithmetic::div_mod::lemma_fundamental_div_mod(d.mantissa as int, p);
        assert(t.mantissa == q);
        assert(pow10(0) == 1);
        assert(q * pow10(d.scale as nat) <= d.mantissa * pow10(k)
            && d.mantissa * pow10(k) < (q + 1) * pow10(d.scale as nat)) by (nonlinear_arith)
            requires
                d.mantissa == p * q + r,
                0 <= r < p,
                pow10(d.scale as nat) == p * pow10(k),
                pow10(k) >= 1,
        ;
        assert(t.mantissa * pow10((k - t.scale) as nat) == q);
        assert(cut_to(d, t, k));
    } else {
        lemma_scale_up_value(d.mantissa as nat, d.scale as nat, k);
        let (m, s2) = scale_up_spec(d.mantissa as nat, d.scale as nat, k);
        lemma_scale_up_bounds(d.mantissa as nat, d.scale as nat, k);
        let a = (s2 - d.scale) as nat;
        let b = (k - s2) as nat;
        lemma_pow10_add(a, b);
        assert((k - d.scale) as nat == a + b);
        vstd::arithmetic::mul::lemma_mul_is_associative(d.mantissa as int, pow10(a), pow10(b));
        assert(m * pow10(b) == d.mantissa * pow10((k - d.scale) as nat));
        lemma_pow10_add((k - d.scale) as nat, d.scale as nat);
        vstd::arithmetic::mul::lemma_mul_is_associative(d.mantissa as int, pow10((k - d.scale) as nat), pow10(d.scale as nat));
        assert(m * pow10(b) * pow10(d.scale as nat) == d.mantissa * pow10(k));
        assert(t.mantissa == m && t.scale == s2);
        let x = m * pow10(b);
        let pd = pow10(d.scale as nat);
        assert(d.mantissa * pow10(k) < (x + 1) * pd) by (nonlinear_arith)
            requires
                x * pd == d.mantissa * pow10(k),
                pd >= 1,
        ;
        assert(cut_to(d, t, k));
        if d.mantissa * pow10((k - d.scale) as nat) <= MAX_MANTISSA && s2 < k {
            // one more digit would have fit: 10 * m <= m * 10^b
            lemma_pow10_add(1, (b - 1) as nat);
            assert(pow10(0) == 1);
            assert(pow10(1) == 10);
            lemma_pow10_positive((b - 1) as nat);
            assert(m * 10 <= m * pow10(b)) by (nonlinear_arith)
                requires
                    pow10(b) == 10 * pow10((b - 1) as nat),
                    pow10((b - 1) as nat) >= 1,
                    m >= 0,
            ;
        }
    }
}

/// `n` zero digits.
pub open spec fn zeros(n: nat) -> Seq<char> {
    Seq::new(n, |i: int| '0')
}

/// The digits of the magnitude, with leading zeros up to `scale` digits.
pub open spec fn padded_digits(d: Dec) -> Seq<char> {
    let ds = digits(d.mantissa as nat);
    if ds.len() < d.scale {
        zeros((d.scale - ds.len()) as nat) + ds
    } else {
        ds
    }
}

/// How `Decimal`'s `Display` writes a decimal with `precision` fractional
/// digits: the integer digits (`0` when there are none), then, for a
/// positive precision, a point and the fraction cut or padded with zeros to
/// that many digits; a `-` in front when the sign flag is set.
pub open spec fn display_spec(d: Dec, precision: nat) -> Seq<char> {
    let ds = padded_digits(d);
    let whole = ds.take(ds.len() - d.scale);
    let fraction = ds.skip(ds.len() - d.scale);
    let shown = if precision <= fraction.len() {
        fraction.take(precision as int)
    } else {
        fraction + zeros((precision - fraction.len()) as nat)
    };
    let lead = if whole.len() == 0 {
        seq!['0']
    } else {
        whole
    };
    let body = if precision == 0 {
        lead
    } else {
        lead + seq!['.'] + shown
    };
    if d.negative {
        seq!['-'] + body
    } else {
        body
    }
}

/// `d.to_string()`: every fractional digit of the scale.
pub open spec fn decimal_to_string(d: Dec) -> Seq<char> {
    display_spec(d, d.scale as nat)
}

/// `format!("{:.4}", d)`: four fractional digits, cut or padded.
pub open spec fn decimal_to_string_4dp(d: Dec) -> Seq<char> {
    display_spec(d, 4)
}

/// The number of characters `Decimal`'s `Display` writes before the sign:
/// the integer digits (at least one) and, for a positive precision, the
/// point and the fractional digits.
pub open spec fn display_width(d: Dec, precision: nat) -> nat {
    let whole = padded_digits(d).len() - d.scale;
    let lead: int = if whole <= 0 {
        1
    } else {
        whole
    };
    let tail: int = if precision > 0 {
        1 + precision as int
    } else {
        0
    };
    (lead + tail) as nat
}

/// Whether `Decimal`'s `Display` can write the decimal with `precision`
/// fractional digits: it builds the text in a buffer of 32 characters and
/// panics when the text does not fit.
pub open spec fn display_fits(d: Dec, precision: nat) -> bool {
    display_width(d, precision) <= 32
}

/// A number below `10^k` has at most `k` digits.
proof fn lemma_digits_len_bound(n: nat, k: nat)
    requires
        n < pow10(k),
    ensures
        digits(n).len() <= k,
    decreases k,
{
    if n > 0 {
        if k == 0 {
            assert(false);
        } else {
            lemma_digits_len_bound(n / 10, (k - 1) as nat);
        }
    }
}

/// A mantissa in range has at most 29 digits.
proof fn lemma_mantissa_digits(d: Dec)
    requires
        d.wf(),
    ensures
        digits(d.mantissa as nat).len() <= 29,
{
    assert(pow10(29) == 100000000000000000000000000000int) by {
        reveal_with_fuel(pow10, 30);
    }
    lemma_digits_len_bound(d.mantissa as nat, 29);
}

/// The length of the padded digits: the digits, or the scale if longer.
proof fn lemma_padded_len(d: Dec)
    ensures
        padded_digits(d).len() == (if digits(d.mantissa as nat).len() < d.scale {
            d.scale as nat
        } else {
            digits(d.mantissa as nat).len()
        }),
{
}

/// Whether `display(d, precision)` can write the decimal (`display_fits`).
pub fn fits_display(d: &Dec, precision: u32) -> (r: bool)
    requires
        precision <= MAX_SCALE,
    ensures
        r == display_fits(*d, precision as nat),
{
    let n: usize = digit_chars(d.mantissa).len();
    let scale: usize = d.scale as usize;
    proof {
        lemma_padded_len(*d);
    }
    let padded: usize = if n < scale {
        scale
    } else {
        n
    };
    let whole: usize = padded - scale;
    let lead: usize = if whole == 0 {
        1
    } else {
        whole
    };
    let tail: usize = if precision > 0 {
        1 + precision as usize
    } else {
        0
    };
    lead <= 32 - tail
}

/// Writes a decimal with `rust_decimal::Decimal`'s `Display` and
/// `precision` fractional digits (`format!("{:.*}", precision, d)`).
/// Claims: the text is `display_spec`: sign, integer digits, and the
/// fraction cut or padded to the precision; the call panics where the text
/// does not fit `Decimal`'s buffer, which `display_fits` leaves out.
#[verifier::external_body]
pub(crate) fn display(d: &Dec, precision: u32) -> (r: String)
    requires
        d.wf(),
        precision <= MAX_SCALE,
        display_fits(*d, precision as nat),
    ensures
        r@ == display_spec(*d, precision as nat),
{
    let mut x = rust_decimal::Decimal::from_i128_with_scale(d.mantissa as i128, d.scale);
    x.set_sign_negative(d.negative);
    format!("{:.*}", precision as usize, x)
}

/// `d.to_string()`.
pub fn decimal_text(d: &Dec) -> (r: String)
    requires
        d.wf(),
    ensures
        r@ == decimal_to_string(*d),
{
    proof {
        lemma_mantissa_digits(*d);
        lemma_padded_len(*d);
    }
    display(d, d.scale)
}

/// `format!("{:.4}", d)`, for a decimal whose text fits (see `display_fits`).
pub fn decimal_text_4dp(d: &Dec) -> (r: String)
    requires
        d.wf(),
        display_fits(*d, 4),
    ensures
        r@ == decimal_to_string_4dp(*d),
{
    display(d, 4)
}

} // verus!
