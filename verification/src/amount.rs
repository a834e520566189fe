//! Exact decimal quantities and the arithmetic on them.
//!
//! An `Amount` holds what a `rust_decimal::Decimal` holds: a signed mantissa
//! of at most 96 bits and a scale of at most 28. The arithmetic is done by
//! `rust_decimal`: each operation is one call behind a small function at the
//! end of this file, whose contract is believed, not proved. What such a
//! call returns is given a name (`decimal_sum` and the like), so that
//! contracts elsewhere can say exactly which amount they hand out.

use rust_decimal::Decimal;
use vstd::prelude::*;

verus! {

/// The largest scale a decimal can have.
pub const MAX_SCALE: u32 = 28;

/// One more than the largest magnitude of a mantissa: 2<sup>96</sup>.
pub const MANTISSA_LIMIT: i128 = 0x1_0000_0000_0000_0000_0000_0000;

/// Ten to the power `n`.
pub open spec fn pow10(n: nat) -> int
    decreases n,
{
    if n == 0 {
        1
    } else {
        10 * pow10((n - 1) as nat)
    }
}

/// The mathematical content of a decimal: the number `mantissa / 10^scale`
/// together with the scale it is written in.
pub struct DecimalValue {
    pub mantissa: int,
    pub scale: nat,
}

impl DecimalValue {
    /// Whether the pair fits the decimal format: a mantissa of at most 96
    /// bits and a sign, and at most 28 decimal places.
    pub open spec fn representable(self) -> bool {
        &&& -MANTISSA_LIMIT < self.mantissa < MANTISSA_LIMIT
        &&& self.scale <= MAX_SCALE
    }

    /// Whether the number is zero, in whatever scale it is written.
    pub open spec fn is_zero(self) -> bool {
        self.mantissa == 0
    }

    /// Whether the number is zero or more.
    pub open spec fn non_negative(self) -> bool {
        self.mantissa >= 0
    }

    /// Numeric order: `self >= other` as rational numbers.
    pub open spec fn at_least(self, other: DecimalValue) -> bool {
        self.mantissa * pow10(other.scale) >= other.mantissa * pow10(self.scale)
    }
}

/// An exact decimal quantity: a price, an amount of the asset or of cash.
#[derive(Clone, Copy, Debug, PartialEq, Eq, Structural)]
pub struct Amount {
    mantissa: i128,
    scale: u32,
}

impl View for Amount {
    type V = DecimalValue;

    closed spec fn view(&self) -> DecimalValue {
        DecimalValue { mantissa: self.mantissa as int, scale: self.scale as nat }
    }
}

impl Amount {
    #[verifier::type_invariant]
    spec fn well_formed(self) -> bool {
        self@.representable()
    }

    /// The decimal `mantissa / 10^scale`, where the format can hold it.
    pub fn from_parts(mantissa: i128, scale: u32) -> (r: Option<Amount>)
        ensures
            r is Some <==> -MANTISSA_LIMIT < mantissa < MANTISSA_LIMIT && scale <= MAX_SCALE,
            r matches Some(a) ==> a@.mantissa == mantissa && a@.scale == scale,
    {
        if scale <= MAX_SCALE && -MANTISSA_LIMIT < mantissa && mantissa < MANTISSA_LIMIT {
            Some(Amount { mantissa, scale })
        } else {
            None
        }
    }

    /// The mantissa: the number times ten to the power of the scale.
    pub fn mantissa(&self) -> (r: i128)
        ensures
            r == self@.mantissa,
            self@.representable(),
    {
        proof {
            use_type_invariant(self);
        }
        self.mantissa
    }

    /// The number of decimal places the number is written with.
    pub fn scale(&self) -> (r: u32)
        ensures
            r == self@.scale,
            self@.representable(),
    {
        proof {
            use_type_invariant(self);
        }
        self.scale
    }

    /// Whether the number is zero, whatever its scale.
    pub fn is_zero(&self) -> (r: bool)
        ensures
            r == self@.is_zero(),
    {
        self.mantissa == 0
    }

    /// Whether `self >= other` as numbers, whatever their scales.
    pub fn at_least(&self, other: &Amount) -> (r: bool)
        ensures
            r == self@.at_least(other@),
    {
        decimal_ge(*self, *other)
    }
}

/// An amount is determined by its content: two amounts with the same
/// mantissa and scale are the same amount.
pub proof fn lemma_content_determines_amount(a: Amount, b: Amount)
    requires
        a@ == b@,
    ensures
        a == b,
{
}

/// What `rust_decimal` returns for `a + b`: the sum, rounded where the format
/// cannot hold it exactly, or `None` where it is too large for the format.
pub uninterp spec fn decimal_sum(a: DecimalValue, b: DecimalValue) -> Option<DecimalValue>;

/// What `rust_decimal` returns for `a - b`, in the same way.
pub uninterp spec fn decimal_difference(a: DecimalValue, b: DecimalValue) -> Option<DecimalValue>;

/// What `rust_decimal` returns for `a * b`, in the same way.
pub uninterp spec fn decimal_product(a: DecimalValue, b: DecimalValue) -> Option<DecimalValue>;

/// What `rust_decimal` returns for `a / b`: the quotient to at most 28
/// decimal places, or `None` where `b` is zero or the quotient is too large.
pub uninterp spec fn decimal_quotient(a: DecimalValue, b: DecimalValue) -> Option<DecimalValue>;

/// The product of two decimals as the format writes it when nothing has to
/// be rounded: the mantissas multiplied and the scales added, and plain zero
/// where a factor is zero.
pub open spec fn exact_product(a: DecimalValue, b: DecimalValue) -> DecimalValue {
    if a.is_zero() || b.is_zero() {
        DecimalValue { mantissa: 0, scale: 0 }
    } else {
        DecimalValue { mantissa: a.mantissa * b.mantissa, scale: a.scale + b.scale }
    }
}

/// The mathematical content of an optional amount.
pub open spec fn value_of(r: Option<Amount>) -> Option<DecimalValue> {
    match r {
        Some(a) => Some(a@),
        None => None,
    }
}

/// `Decimal::checked_add`, which does not panic. Believed: the result is a
/// function of the two operands, and the sum of two numbers that are not
/// negative is not negative.
#[verifier::external_body]
pub(crate) fn decimal_add(a: Amount, b: Amount) -> (r: Option<Amount>)
    ensures
        value_of(r) == decimal_sum(a@, b@),
        a@.non_negative() && b@.non_negative() ==> (r matches Some(s) ==> s@.non_negative()),
{
    let x = Decimal::from_i128_with_scale(a.mantissa, a.scale);
    let y = Decimal::from_i128_with_scale(b.mantissa, b.scale);
    match x.checked_add(y) {
        Some(d) => Some(Amount { mantissa: d.mantissa(), scale: d.scale() }),
        None => None,
    }
}

/// `Decimal::checked_sub`, which does not panic. Believed: the result is a
/// function of the two operands.
#[verifier::external_body]
pub(crate) fn decimal_sub(a: Amount, b: Amount) -> (r: Option<Amount>)
    ensures
        value_of(r) == decimal_difference(a@, b@),
{
    let x = Decimal::from_i128_with_scale(a.mantissa, a.scale);
    let y = Decimal::from_i128_with_scale(b.mantissa, b.scale);
    match x.checked_sub(y) {
        Some(d) => Some(Amount { mantissa: d.mantissa(), scale: d.scale() }),
        None => None,
    }
}

/// `Decimal::checked_mul`, which does not panic. Believed: the result is a
/// function of the two operands; a zero factor gives plain zero, and the
/// product is rounded only where its mantissa outgrows 96 bits or its scale
/// 28 places; and the product of two numbers that are not negative is not
/// negative.
#[verifier::external_body]
pub(crate) fn decimal_mul(a: Amount, b: Amount) -> (r: Option<Amount>)
    ensures
        value_of(r) == decimal_product(a@, b@),
        exact_product(a@, b@).representable() ==> value_of(r) == Some(exact_product(a@, b@)),
        a@.non_negative() && b@.non_negative() ==> (r matches Some(p) ==> p@.non_negative()),
{
    let x = Decimal::from_i128_with_scale(a.mantissa, a.scale);
    let y = Decimal::from_i128_with_scale(b.mantissa, b.scale);
    match x.checked_mul(y) {
        Some(d) => Some(Amount { mantissa: d.mantissa(), scale: d.scale() }),
        None => None,
    }
}

/// `Decimal::checked_div`, which does not panic. Believed: the result is a
/// function of the two operands, and the quotient of a number that is not
/// negative by a positive one is not negative.
#[verifier::external_body]
pub(crate) fn decimal_div(a: Amount, b: Amount) -> (r: Option<Amount>)
    ensures
        value_of(r) == decimal_quotient(a@, b@),
        a@.non_negative() && b@.mantissa > 0 ==> (r matches Some(q) ==> q@.non_negative()),
{
    let x = Decimal::from_i128_with_scale(a.mantissa, a.scale);
    let y = Decimal::from_i128_with_scale(b.mantissa, b.scale);
    match x.checked_div(y) {
        Some(d) => Some(Amount { mantissa: d.mantissa(), scale: d.scale() }),
        None => None,
    }
}

/// `>=` on `Decimal`. Believed: it is the order of the numbers, whatever
/// scales they are written in.
#[verifier::external_body]
pub(crate) fn decimal_ge(a: Amount, b: Amount) -> (r: bool)
    ensures
        r == a@.at_least(b@),
{
    let x = Decimal::from_i128_with_scale(a.mantissa, a.scale);
    let y = Decimal::from_i128_with_scale(b.mantissa, b.scale);
    x >= y
}

} // verus!
