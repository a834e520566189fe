//! Converting between cash and the asset at a given price.

use crate::amount::{
    decimal_div, decimal_mul, decimal_product, decimal_quotient, exact_product, Amount,
    DecimalValue,
};
use vstd::prelude::*;

verus! {

/// Why a tick did not trade.
#[derive(Clone, Copy, Debug, PartialEq, Eq, Structural)]
pub enum TradeError {
    /// The price source gave no price.
    FetchFailed,
    /// A trade was attempted at a price of exactly zero.
    DegenerateOperation,
}

/// Whether the format can hold what `money` buys at `price`. A purchase at
/// price zero is refused before anything is computed, so it is defined.
pub open spec fn purchase_defined(money: DecimalValue, price: DecimalValue) -> bool {
    !price.is_zero() ==> decimal_quotient(money, price) is Some
}

/// Whether the format can hold what `quantity` sells for at `price`.
pub open spec fn sale_defined(quantity: DecimalValue, price: DecimalValue) -> bool {
    !price.is_zero() ==> decimal_product(quantity, price) is Some
}

/// The units of the asset that `money` buys at `price`: `money / price`.
/// Refused with `DegenerateOperation` exactly where `price` is zero.
pub fn buy(money: Amount, price: Amount) -> (r: Result<Amount, TradeError>)
    requires
        purchase_defined(money@, price@),
    ensures
        match r {
            Ok(units) => !price@.is_zero() && decimal_quotient(money@, price@) == Some(units@),
            Err(e) => price@.is_zero() && e == TradeError::DegenerateOperation,
        },
        money@.non_negative() && price@.non_negative() ==> (r matches Ok(units)
            ==> units@.non_negative()),
{
    if price.is_zero() {
        Err(TradeError::DegenerateOperation)
    } else {
        Ok(decimal_div(money, price).unwrap())
    }
}

/// The cash that `quantity` units of the asset sell for at `price`:
/// `quantity * price`, exactly so wherever the format holds the exact
/// product. Refused with `DegenerateOperation` exactly where `price` is zero.
pub fn sell(quantity: Amount, price: Amount) -> (r: Result<Amount, TradeError>)
    requires
        sale_defined(quantity@, price@),
    ensures
        match r {
            Ok(proceeds) => !price@.is_zero() && decimal_product(quantity@, price@) == Some(
                proceeds@,
            ),
            Err(e) => price@.is_zero() && e == TradeError::DegenerateOperation,
        },
        exact_product(quantity@, price@).representable() ==> (r matches Ok(proceeds)
            ==> proceeds@ == exact_product(quantity@, price@)),
        quantity@.non_negative() && price@.non_negative() ==> (r matches Ok(proceeds)
            ==> proceeds@.non_negative()),
{
    if price.is_zero() {
        Err(TradeError::DegenerateOperation)
    } else {
        Ok(decimal_mul(quantity, price).unwrap())
    }
}

/// `buy` wherever the purchase is defined, and `None` where the quotient is
/// too large for the format.
pub fn checked_buy(money: Amount, price: Amount) -> (r: Option<Result<Amount, TradeError>>)
    ensures
        r is Some <==> purchase_defined(money@, price@),
        r matches Some(Ok(units)) ==> !price@.is_zero() && decimal_quotient(money@, price@)
            == Some(units@),
        r matches Some(Err(e)) ==> price@.is_zero() && e == TradeError::DegenerateOperation,
        money@.non_negative() && price@.non_negative() ==> (r matches Some(Ok(units))
            ==> units@.non_negative()),
{
    if price.is_zero() || decimal_div(money, price).is_some() {
        Some(buy(money, price))
    } else {
        None
    }
}

/// `sell` wherever the sale is defined, and `None` where the product is too
/// large for the format.
pub fn checked_sell(quantity: Amount, price: Amount) -> (r: Option<Result<Amount, TradeError>>)
    ensures
        r is Some <==> sale_defined(quantity@, price@),
        exact_product(quantity@, price@).representable() ==> r is Some,
        r matches Some(Ok(proceeds)) ==> !price@.is_zero() && decimal_product(
            quantity@,
            price@,
        ) == Some(proceeds@),
        r matches Some(Err(e)) ==> price@.is_zero() && e == TradeError::DegenerateOperation,
        exact_product(quantity@, price@).representable() ==> (r matches Some(Ok(proceeds))
            ==> proceeds@ == exact_product(quantity@, price@)),
        quantity@.non_negative() && price@.non_negative() ==> (r matches Some(Ok(proceeds))
            ==> proceeds@.non_negative()),
{
    if price.is_zero() || decimal_mul(quantity, price).is_some() {
        Some(sell(quantity, price))
    } else {
        None
    }
}

} // verus!
