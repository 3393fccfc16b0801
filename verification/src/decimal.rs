//! Exact decimal numbers, as `rust_decimal` holds them.
//!
//! A [`Decimal`] is a signed 96-bit integer mantissa scaled down by a power of
//! ten between 0 and 28. The arithmetic itself is done by `rust_decimal`; the
//! wrappers here state what its documentation and source show of each result.

use vstd::prelude::*;

verus! {

/// The largest mantissa magnitude a decimal can hold: 2^96 - 1.
pub open spec fn max_mantissa() -> int {
    79228162514264337593543950335
}

/// The largest scale a decimal can hold.
pub open spec fn max_scale() -> nat {
    28
}

/// Ten to the power `n`.
pub open spec fn pow10(n: nat) -> int
    decreases n,
{
    if n == 0 {
        1
    } else {
        10 * pow10((n - 1) as nat)
    }
}

/// A decimal number: `mantissa / 10^scale`, with the sign flag that
/// `rust_decimal` keeps even for zero.
#[derive(Clone, Copy, Debug)]
pub struct Decimal {
    pub mantissa: i128,
    pub scale: u32,
    pub negative: bool,
}

impl Decimal {
    /// The representation invariant of `rust_decimal::Decimal`.
    pub open spec fn wf(self) -> bool {
        &&& -max_mantissa() <= self.mantissa <= max_mantissa()
        &&& self.scale <= max_scale()
        &&& self.mantissa != 0 ==> self.negative == (self.mantissa < 0)
    }

    /// The value scaled up to 28 decimal places: `value * 10^28`, an integer.
    pub open spec fn num(self) -> int {
        self.mantissa * pow10((max_scale() - self.scale) as nat)
    }

    /// The mantissa of this value written at the (larger or equal) scale `s`.
    pub open spec fn aligned(self, s: nat) -> int {
        self.mantissa * pow10((s - self.scale) as nat)
    }

    /// Whether this value is zero.
    pub open spec fn is_zero_spec(self) -> bool {
        self.mantissa == 0
    }

    /// `num / 10^scale`, built like `rust_decimal::Decimal::new`.
    pub fn new(num: i64, scale: u32) -> (d: Decimal)
        requires
            scale <= max_scale(),
        ensures
            d.wf(),
            d.mantissa == num,
            d.scale == scale,
            d.negative == (num < 0),
    {
        Decimal { mantissa: num as i128, scale, negative: num < 0 }
    }

    /// The whole number `n`, as `Decimal::from(n)` gives it.
    pub fn from_u32(n: u32) -> (d: Decimal)
        ensures
            d.wf(),
            d.mantissa == n,
            d.scale == 0,
            !d.negative,
    {
        Decimal { mantissa: n as i128, scale: 0, negative: false }
    }

    /// The value 0.
    pub fn zero() -> (d: Decimal)
        ensures
            d.wf(),
            d.mantissa == 0,
            d.scale == 0,
            !d.negative,
    {
        Decimal { mantissa: 0, scale: 0, negative: false }
    }

    /// The value 1.
    pub fn one() -> (d: Decimal)
        ensures
            d.wf(),
            d.mantissa == 1,
            d.scale == 0,
            !d.negative,
    {
        Decimal { mantissa: 1, scale: 0, negative: false }
    }

    /// The mantissa.
    pub fn mantissa(&self) -> (m: i128)
        ensures
            m == self.mantissa,
    {
        self.mantissa
    }

    /// The scale.
    pub fn scale(&self) -> (s: u32)
        ensures
            s == self.scale,
    {
        self.scale
    }

    /// Whether the sign flag is set (it may be set on a zero).
    pub fn is_sign_negative(&self) -> (b: bool)
        ensures
            b == self.negative,
    {
        self.negative
    }

    /// Whether the value is zero.
    pub fn is_zero(&self) -> (b: bool)
        ensures
            b == self.is_zero_spec(),
    {
        self.mantissa == 0
    }
}

/// The sum that `rust_decimal` computes, `None` where it overflows.
pub uninterp spec fn decimal_sum(a: Decimal, b: Decimal) -> Option<Decimal>;

/// The difference that `rust_decimal` computes, `None` where it overflows.
pub uninterp spec fn decimal_difference(a: Decimal, b: Decimal) -> Option<Decimal>;

/// The product that `rust_decimal` computes, `None` where it overflows.
pub uninterp spec fn decimal_product(a: Decimal, b: Decimal) -> Option<Decimal>;

/// The quotient that `rust_decimal` computes, `None` on overflow or a zero divisor.
pub uninterp spec fn decimal_quotient(a: Decimal, b: Decimal) -> Option<Decimal>;

/// What `rust_decimal` parses from a text: the value, or its error's message.
pub uninterp spec fn decimal_parse(s: Seq<char>) -> Result<Decimal, Seq<char>>;

/// The larger of two scales.
pub open spec fn max_of(a: nat, b: nat) -> nat {
    if a >= b { a } else { b }
}

/// Whether the exact sum of `a` and `b`, written at the larger of their
/// scales, fits in a mantissa.
pub open spec fn sum_fits(a: Decimal, b: Decimal) -> bool {
    let s = max_of(a.scale as nat, b.scale as nat);
    -max_mantissa() <= a.aligned(s) + b.aligned(s) <= max_mantissa()
}

/// Whether the exact difference of `a` and `b`, written at the larger of
/// their scales, fits in a mantissa.
pub open spec fn difference_fits(a: Decimal, b: Decimal) -> bool {
    let s = max_of(a.scale as nat, b.scale as nat);
    -max_mantissa() <= a.aligned(s) - b.aligned(s) <= max_mantissa()
}

/// Whether the exact product of two non-zero decimals fits without rounding.
pub open spec fn product_fits(a: Decimal, b: Decimal) -> bool {
    &&& -max_mantissa() <= a.mantissa * b.mantissa <= max_mantissa()
    &&& a.scale + b.scale <= max_scale()
}

/// `a + b` by `rust_decimal::Decimal::checked_add`.
///
/// Claimed of the crate: the result is the named sum; a result is well formed;
/// when the exact sum fits at the larger scale it is returned exactly, and at
/// that very scale when both scales agree.
#[verifier::external_body]
pub(crate) fn checked_add(a: Decimal, b: Decimal) -> (r: Option<Decimal>)
    requires
        a.wf(),
        b.wf(),
    ensures
        r == decimal_sum(a, b),
        r matches Some(c) ==> c.wf(),
        sum_fits(a, b) ==> r is Some && r.unwrap().num() == a.num() + b.num(),
        sum_fits(a, b) && a.scale == b.scale ==> r is Some && r.unwrap().mantissa == a.mantissa + b.mantissa && r.unwrap().scale == a.scale,
{
    let mut x = rust_decimal::Decimal::from_i128_with_scale(a.mantissa, a.scale);
    x.set_sign_negative(a.negative);
    let mut y = rust_decimal::Decimal::from_i128_with_scale(b.mantissa, b.scale);
    y.set_sign_negative(b.negative);
    match x.checked_add(y) {
        Some(z) => Some(Decimal { mantissa: z.mantissa(), scale: z.scale(), negative: z.is_sign_negative() }),
        None => None,
    }
}

/// `a - b` by `rust_decimal::Decimal::checked_sub`.
///
/// Claimed of the crate: the result is the named difference; a result is well
/// formed; when the exact difference fits at the larger scale it is returned
/// exactly, and at that very scale when both scales agree.
#[verifier::external_body]
pub(crate) fn checked_sub(a: Decimal, b: Decimal) -> (r: Option<Decimal>)
    requires
        a.wf(),
        b.wf(),
    ensures
        r == decimal_difference(a, b),
        r matches Some(c) ==> c.wf(),
        difference_fits(a, b) ==> r is Some && r.unwrap().num() == a.num() - b.num(),
        difference_fits(a, b) && a.scale == b.scale ==> r is Some && r.unwrap().mantissa == a.mantissa - b.mantissa && r.unwrap().scale == a.scale,
{
    let mut x = rust_decimal::Decimal::from_i128_with_scale(a.mantissa, a.scale);
    x.set_sign_negative(a.negative);
    let mut y = rust_decimal::Decimal::from_i128_with_scale(b.mantissa, b.scale);
    y.set_sign_negative(b.negative);
    match x.checked_sub(y) {
        Some(z) => Some(Decimal { mantissa: z.mantissa(), scale: z.scale(), negative: z.is_sign_negative() }),
        None => None,
    }
}

/// `a * b` by `rust_decimal::Decimal::checked_mul`.
///
/// Claimed of the crate: the result is the named product; a result is well
/// formed; a zero factor gives the plain zero; otherwise, where the product of
/// the mantissas fits and the scales add up to at most 28, that product at
/// that scale is returned.
#[verifier::external_body]
pub(crate) fn checked_mul(a: Decimal, b: Decimal) -> (r: Option<Decimal>)
    requires
        a.wf(),
        b.wf(),
    ensures
        r == decimal_product(a, b),
        r matches Some(c) ==> c.wf(),
        (a.mantissa == 0 || b.mantissa == 0) ==> r is Some && r.unwrap().mantissa == 0 && r.unwrap().scale == 0 && !r.unwrap().negative,
        (a.mantissa != 0 && b.mantissa != 0 && product_fits(a, b)) ==> r is Some && r.unwrap().mantissa == a.mantissa * b.mantissa && r.unwrap().scale == a.scale + b.scale,
{
    let mut x = rust_decimal::Decimal::from_i128_with_scale(a.mantissa, a.scale);
    x.set_sign_negative(a.negative);
    let mut y = rust_decimal::Decimal::from_i128_with_scale(b.mantissa, b.scale);
    y.set_sign_negative(b.negative);
    match x.checked_mul(y) {
        Some(z) => Some(Decimal { mantissa: z.mantissa(), scale: z.scale(), negative: z.is_sign_negative() }),
        None => None,
    }
}

/// `a / b` by `rust_decimal::Decimal::checked_div`.
///
/// Claimed of the crate: the result is the named quotient, well formed when
/// there is one, and there is none for a zero divisor. Which quotient a
/// non-terminating division rounds to is left to the name.
#[verifier::external_body]
pub(crate) fn checked_div(a: Decimal, b: Decimal) -> (r: Option<Decimal>)
    requires
        a.wf(),
        b.wf(),
    ensures
        r == decimal_quotient(a, b),
        r matches Some(c) ==> c.wf(),
        b.mantissa == 0 ==> r is None,
{
    let mut x = rust_decimal::Decimal::from_i128_with_scale(a.mantissa, a.scale);
    x.set_sign_negative(a.negative);
    let mut y = rust_decimal::Decimal::from_i128_with_scale(b.mantissa, b.scale);
    y.set_sign_negative(b.negative);
    match x.checked_div(y) {
        Some(z) => Some(Decimal { mantissa: z.mantissa(), scale: z.scale(), negative: z.is_sign_negative() }),
        None => None,
    }
}

/// Parses a decimal text with `<rust_decimal::Decimal as FromStr>::from_str`.
///
/// Claimed of the crate: the result is the named parse of the text, whose error
/// is the message of the crate's error; a parsed value is well formed.
#[verifier::external_body]
pub(crate) fn parse_decimal(s: &str) -> (r: Result<Decimal, String>)
    ensures
        match (r, decimal_parse(s@)) {
            (Ok(d), Ok(e)) => d == e && d.wf(),
            (Err(m), Err(e)) => m@ == e,
            _ => false,
        },
{
    match s.parse::<rust_decimal::Decimal>() {
        Ok(z) => Ok(Decimal { mantissa: z.mantissa(), scale: z.scale(), negative: z.is_sign_negative() }),
        Err(e) => Err(e.to_string()),
    }
}

/// `a < b` by `rust_decimal`'s numeric ordering.
///
/// Claimed of the crate: decimals are ordered by their values.
#[verifier::external_body]
pub(crate) fn lt(a: &Decimal, b: &Decimal) -> (r: bool)
    requires
        a.wf(),
        b.wf(),
    ensures
        r == (a.num() < b.num()),
{
    let mut x = rust_decimal::Decimal::from_i128_with_scale(a.mantissa, a.scale);
    x.set_sign_negative(a.negative);
    let mut y = rust_decimal::Decimal::from_i128_with_scale(b.mantissa, b.scale);
    y.set_sign_negative(b.negative);
    x < y
}

/// `a == b` by `rust_decimal`'s numeric equality.
///
/// Claimed of the crate: decimals are equal exactly when their values are.
#[verifier::external_body]
pub(crate) fn eq(a: &Decimal, b: &Decimal) -> (r: bool)
    requires
        a.wf(),
        b.wf(),
    ensures
        r == (a.num() == b.num()),
{
    let mut x = rust_decimal::Decimal::from_i128_with_scale(a.mantissa, a.scale);
    x.set_sign_negative(a.negative);
    let mut y = rust_decimal::Decimal::from_i128_with_scale(b.mantissa, b.scale);
    y.set_sign_negative(b.negative);
    x == y
}

/// The digits of the mantissa's magnitude, none for zero, padded with
/// leading zeros to at least as many digits as the scale.
pub open spec fn padded_digits(d: Decimal) -> Seq<char> {
    let m: nat = if d.mantissa < 0 { (-d.mantissa) as nat } else { d.mantissa as nat };
    let digits = if m == 0 { Seq::<char>::empty() } else { crate::text::nat_digits(m) };
    let pad: int = if d.scale > digits.len() { d.scale - digits.len() } else { 0 };
    Seq::new(pad as nat, |i: int| '0') + digits
}

/// `-` for a decimal whose sign flag is set, nothing otherwise.
pub open spec fn sign_text(d: Decimal) -> Seq<char> {
    if d.negative { seq!['-'] } else { Seq::empty() }
}

/// The whole part of the digits: `0` where there is none.
pub open spec fn whole_text(digits: Seq<char>, whole_len: int) -> Seq<char> {
    if whole_len == 0 { seq!['0'] } else { digits.subrange(0, whole_len) }
}

/// What `rust_decimal` prints for a decimal (`{}`): the sign, then the
/// digits with a point before the last `scale` of them (`0` for zero).
pub open spec fn decimal_display(d: Decimal) -> Seq<char> {
    let digits = padded_digits(d);
    let whole_len = digits.len() - d.scale;
    if d.scale == 0 {
        sign_text(d) + (if digits.len() == 0 { seq!['0'] } else { digits })
    } else {
        sign_text(d) + whole_text(digits, whole_len) + seq!['.'] + digits.subrange(whole_len, digits.len() as int)
    }
}

/// The `k`th fractional digit printed with a precision: the digit there, or `0`
/// beyond the digits.
pub open spec fn fraction_digit(digits: Seq<char>, whole_len: int, k: int) -> char {
    if whole_len + k < digits.len() { digits[whole_len + k] } else { '0' }
}

/// What `rust_decimal` prints for a decimal with two decimal places
/// (`{:.2}`): the sign, the whole part, a point and the first two fractional
/// digits (further digits are cut off, missing ones are zeros).
pub open spec fn decimal_display_2dp(d: Decimal) -> Seq<char> {
    let digits = padded_digits(d);
    let whole_len = digits.len() - d.scale;
    sign_text(d) + whole_text(digits, whole_len) + seq!['.', fraction_digit(digits, whole_len, 0), fraction_digit(digits, whole_len, 1)]
}

/// The text of a decimal, as `rust_decimal`'s `Display` prints it.
///
/// Claimed of the crate: the digits of the mantissa with a point placed by
/// the scale, after a `-` where the sign flag is set.
#[verifier::external_body]
pub(crate) fn display(d: &Decimal) -> (s: String)
    requires
        d.wf(),
    ensures
        s@ == decimal_display(*d),
{
    let mut x = rust_decimal::Decimal::from_i128_with_scale(d.mantissa, d.scale);
    x.set_sign_negative(d.negative);
    format!("{}", x)
}

/// The text of a decimal with two decimal places, as `rust_decimal`'s
/// `Display` prints it with precision 2.
///
/// Claimed of the crate: the sign, the whole part and the first two
/// fractional digits, cut off rather than rounded.
#[verifier::external_body]
pub(crate) fn display_2dp(d: &Decimal) -> (s: String)
    requires
        d.wf(),
    ensures
        s@ == decimal_display_2dp(*d),
{
    let mut x = rust_decimal::Decimal::from_i128_with_scale(d.mantissa, d.scale);
    x.set_sign_negative(d.negative);
    format!("{:.2}", x)
}

/// `a > 0`, decided by the sign and the mantissa.
pub fn is_positive(a: &Decimal) -> (r: bool)
    requires
        a.wf(),
    ensures
        r == (a.num() > 0),
{
    proof {
        lemma_pow10_positive((max_scale() - a.scale) as nat);
        lemma_num_sign(*a);
    }
    a.mantissa > 0
}

/// Ten to a power is positive.
pub proof fn lemma_pow10_positive(n: nat)
    ensures
        pow10(n) > 0,
    decreases n,
{
    if n > 0 {
        lemma_pow10_positive((n - 1) as nat);
    }
}

/// The scaled value has the sign of the mantissa.
pub proof fn lemma_num_sign(a: Decimal)
    requires
        a.wf(),
    ensures
        a.num() > 0 <==> a.mantissa > 0,
        a.num() == 0 <==> a.mantissa == 0,
        a.num() < 0 <==> a.mantissa < 0,
{
    let p = pow10((max_scale() - a.scale) as nat);
    lemma_pow10_positive((max_scale() - a.scale) as nat);
    assert(a.num() == a.mantissa * p);
    if a.mantissa > 0 {
        assert(a.mantissa * p > 0) by (nonlinear_arith)
            requires
                a.mantissa > 0,
                p > 0,
        ;
    } else if a.mantissa < 0 {
        assert(a.mantissa * p < 0) by (nonlinear_arith)
            requires
                a.mantissa < 0,
                p > 0,
        ;
    } else {
        assert(a.mantissa * p == 0) by (nonlinear_arith)
            requires
                a.mantissa == 0,
        ;
    }
}

} // verus!
