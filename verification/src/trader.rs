//! The automaton: its state, and what one price sample does to it.

use crate::amount::{
    decimal_add, decimal_difference, decimal_mul, decimal_product, decimal_quotient, decimal_sub,
    decimal_sum, lemma_content_determines_amount, value_of, Amount, DecimalValue,
};
use crate::trade::{checked_buy, checked_sell, TradeError};
use vstd::prelude::*;

verus! {

/// Which trade the automaton is waiting to make.
#[derive(Clone, Copy, Debug, PartialEq, Eq, Structural)]
pub enum Mode {
    AwaitingBuy,
    AwaitingSell,
}

/// What a tick did.
#[derive(Clone, Copy, Debug, PartialEq, Eq, Structural)]
pub enum Action {
    /// The price had not moved far enough: nothing changed.
    Hold,
    /// A fraction of the holding was sold at the sampled price.
    Sold,
    /// All the cash was spent on the asset at the sampled price.
    Bought,
}

/// The price movement, in price units, that triggers the next trade: 0.002.
pub open spec fn threshold_value() -> DecimalValue {
    DecimalValue { mantissa: 2, scale: 3 }
}

/// The fraction of the holding that one sale disposes of: 0.05.
pub open spec fn sell_fraction_value() -> DecimalValue {
    DecimalValue { mantissa: 5, scale: 2 }
}

/// The holding the automaton starts with: 256 units.
pub open spec fn seed_holding_value() -> DecimalValue {
    DecimalValue { mantissa: 256, scale: 0 }
}

/// Plain zero.
pub open spec fn zero_value() -> DecimalValue {
    DecimalValue { mantissa: 0, scale: 0 }
}

/// The threshold as an amount.
pub fn threshold() -> (r: Amount)
    ensures
        r@ == threshold_value(),
{
    Amount::from_parts(2, 3).unwrap()
}

/// The fraction sold as an amount.
pub fn sell_fraction() -> (r: Amount)
    ensures
        r@ == sell_fraction_value(),
{
    Amount::from_parts(5, 2).unwrap()
}

/// The seed holding as an amount.
pub fn seed_holding() -> (r: Amount)
    ensures
        r@ == seed_holding_value(),
{
    Amount::from_parts(256, 0).unwrap()
}

/// The threshold condition on a price movement: it is at least the
/// threshold.
pub fn meets_threshold(moved: Amount) -> (r: bool)
    ensures
        r == moved@.at_least(threshold_value()),
{
    moved.at_least(&threshold())
}

/// The mathematical content of the automaton's state.
pub struct TraderView {
    pub asset_amount: DecimalValue,
    pub cash_amount: DecimalValue,
    pub bought_for: DecimalValue,
    pub sold_for: DecimalValue,
    pub mode: Mode,
}

impl TraderView {
    /// The state before the first tick: the seed holding, no cash, the
    /// first price as the purchase price, no sale yet, waiting to sell.
    pub open spec fn initial(price: DecimalValue) -> TraderView {
        TraderView {
            asset_amount: seed_holding_value(),
            cash_amount: zero_value(),
            bought_for: price,
            sold_for: zero_value(),
            mode: Mode::AwaitingSell,
        }
    }

    /// Neither balance is negative.
    pub open spec fn solvent(self) -> bool {
        self.asset_amount.non_negative() && self.cash_amount.non_negative()
    }

    /// How far `price` has moved in the awaited direction: up from the last
    /// purchase when waiting to sell, down from the last sale when waiting
    /// to buy. `None` where the format cannot hold the difference.
    pub open spec fn movement(self, price: DecimalValue) -> Option<DecimalValue> {
        match self.mode {
            Mode::AwaitingSell => decimal_difference(price, self.bought_for),
            Mode::AwaitingBuy => decimal_difference(self.sold_for, price),
        }
    }

    /// The threshold condition: the movement is at least the threshold.
    pub open spec fn triggered(self, price: DecimalValue) -> bool {
        self.movement(price) matches Some(moved) && moved.at_least(threshold_value())
    }

    /// The state once a sale at `price` has brought the cash to `cash` and
    /// left `rest` in the holding.
    pub open spec fn with_sale(
        self,
        price: DecimalValue,
        cash: DecimalValue,
        rest: DecimalValue,
    ) -> TraderView {
        TraderView {
            asset_amount: rest,
            cash_amount: cash,
            bought_for: self.bought_for,
            sold_for: price,
            mode: Mode::AwaitingBuy,
        }
    }

    /// The state once a purchase at `price` has spent all the cash and
    /// brought the holding to `holding`.
    pub open spec fn with_purchase(self, price: DecimalValue, holding: DecimalValue) -> TraderView {
        TraderView {
            asset_amount: holding,
            cash_amount: zero_value(),
            bought_for: price,
            sold_for: self.sold_for,
            mode: Mode::AwaitingSell,
        }
    }

    /// The part of the holding that a sale disposes of.
    pub open spec fn sale_quantity(self) -> Option<DecimalValue> {
        decimal_product(self.asset_amount, sell_fraction_value())
    }

    /// The state after selling `quantity` at `price`, which is not zero: the
    /// proceeds are added to the cash, the quantity leaves the holding, and
    /// the price is remembered. `None` where the format cannot hold one of
    /// these amounts, or the holding would become negative.
    pub open spec fn after_sale(self, quantity: DecimalValue, price: DecimalValue) -> Option<
        TraderView,
    > {
        match decimal_product(quantity, price) {
            Some(proceeds) => match (
                decimal_sum(self.cash_amount, proceeds),
                decimal_difference(self.asset_amount, quantity),
            ) {
                (Some(cash), Some(rest)) => if rest.non_negative() {
                    Some(self.with_sale(price, cash, rest))
                } else {
                    None
                },
                _ => None,
            },
            None => None,
        }
    }

    /// The state after spending all the cash at `price`, which is not zero.
    /// `None` where the format cannot hold one of the amounts.
    pub open spec fn after_purchase(self, price: DecimalValue) -> Option<TraderView> {
        match decimal_quotient(self.cash_amount, price) {
            Some(units) => match decimal_sum(self.asset_amount, units) {
                Some(holding) => Some(self.with_purchase(price, holding)),
                None => None,
            },
            None => None,
        }
    }

    /// What one tick does: the next state and what is reported. A sample of
    /// `None` stands for a failed fetch. The result is `None` where the tick
    /// is not defined: the price is negative, an amount that the tick has to
    /// compute does not fit the format, or a sale would leave a negative
    /// holding.
    pub open spec fn outcome(self, sample: Option<DecimalValue>) -> Option<
        (TraderView, Result<Action, TradeError>),
    > {
        match sample {
            None => Some((self, Err(TradeError::FetchFailed))),
            Some(price) => if !price.non_negative() || self.movement(price) is None {
                None
            } else if !self.triggered(price) {
                Some((self, Ok(Action::Hold)))
            } else {
                match self.mode {
                    Mode::AwaitingSell => match self.sale_quantity() {
                        None => None,
                        Some(quantity) => if price.is_zero() {
                            Some((self, Err(TradeError::DegenerateOperation)))
                        } else {
                            match self.after_sale(quantity, price) {
                                Some(next) => Some((next, Ok(Action::Sold))),
                                None => None,
                            }
                        },
                    },
                    Mode::AwaitingBuy => if price.is_zero() {
                        Some((self, Err(TradeError::DegenerateOperation)))
                    } else {
                        match self.after_purchase(price) {
                            Some(next) => Some((next, Ok(Action::Bought))),
                            None => None,
                        }
                    },
                }
            },
        }
    }

    /// The state after a run of ticks, one for each sample in turn; `None`
    /// where one of them is not defined.
    pub open spec fn after_ticks(self, samples: Seq<Option<DecimalValue>>) -> Option<TraderView>
        decreases samples.len(),
    {
        if samples.len() == 0 {
            Some(self)
        } else {
            match self.outcome(samples[0]) {
                Some((next, _)) => next.after_ticks(samples.drop_first()),
                None => None,
            }
        }
    }
}

/// The automaton's state: two balances, the prices of the last purchase and
/// the last sale, and the trade it is waiting for. Neither balance is ever
/// negative.
#[derive(Clone, Copy, Debug, PartialEq, Eq, Structural)]
pub struct Trader {
    asset_amount: Amount,
    cash_amount: Amount,
    bought_for: Amount,
    sold_for: Amount,
    mode: Mode,
}

impl View for Trader {
    type V = TraderView;

    closed spec fn view(&self) -> TraderView {
        TraderView {
            asset_amount: self.asset_amount@,
            cash_amount: self.cash_amount@,
            bought_for: self.bought_for@,
            sold_for: self.sold_for@,
            mode: self.mode,
        }
    }
}

impl Trader {
    #[verifier::type_invariant]
    spec fn balances_not_negative(self) -> bool {
        self@.solvent()
    }

    /// Tries to start the automaton from the first answer of the price
    /// source. A failed fetch gives `None`: there is no state without a
    /// price, and the caller asks again.
    pub fn start(sample: Option<Amount>) -> (r: Option<Trader>)
        ensures
            match r {
                Some(trader) => sample matches Some(price) && trader@ == TraderView::initial(
                    price@,
                ),
                None => sample is None,
            },
            r matches Some(trader) ==> trader@.solvent(),
    {
        match sample {
            Some(price) => Some(
                Trader {
                    asset_amount: seed_holding(),
                    cash_amount: Amount::from_parts(0, 0).unwrap(),
                    bought_for: price,
                    sold_for: Amount::from_parts(0, 0).unwrap(),
                    mode: Mode::AwaitingSell,
                },
            ),
            None => None,
        }
    }

    /// The quantity of the asset held.
    pub fn asset_amount(&self) -> (r: Amount)
        ensures
            r@ == self@.asset_amount,
            r@.non_negative(),
    {
        proof {
            use_type_invariant(self);
        }
        self.asset_amount
    }

    /// The cash held.
    pub fn cash_amount(&self) -> (r: Amount)
        ensures
            r@ == self@.cash_amount,
            r@.non_negative(),
    {
        proof {
            use_type_invariant(self);
        }
        self.cash_amount
    }

    /// The price of the last purchase, or the first price sampled if
    /// nothing has been bought yet.
    pub fn bought_for(&self) -> (r: Amount)
        ensures
            r@ == self@.bought_for,
    {
        self.bought_for
    }

    /// The price of the last sale, or zero if nothing has been sold yet.
    pub fn sold_for(&self) -> (r: Amount)
        ensures
            r@ == self@.sold_for,
    {
        self.sold_for
    }

    /// The trade the automaton is waiting for.
    pub fn mode(&self) -> (r: Mode)
        ensures
            r == self@.mode,
    {
        self.mode
    }

    /// The state once a sale at `price` has brought the cash to `cash` and
    /// left `rest` in the holding; `None` where either would be negative.
    pub fn with_sale(&self, price: Amount, cash: Amount, rest: Amount) -> (r: Option<Trader>)
        ensures
            r is Some <==> cash@.non_negative() && rest@.non_negative(),
            r matches Some(next) ==> next@ == self@.with_sale(price@, cash@, rest@)
                && next@.solvent(),
    {
        if cash.mantissa() >= 0 && rest.mantissa() >= 0 {
            Some(
                Trader {
                    asset_amount: rest,
                    cash_amount: cash,
                    bought_for: self.bought_for,
                    sold_for: price,
                    mode: Mode::AwaitingBuy,
                },
            )
        } else {
            None
        }
    }

    /// The state once a purchase at `price` has spent all the cash and
    /// brought the holding to `holding`; `None` where that is negative.
    pub fn with_purchase(&self, price: Amount, holding: Amount) -> (r: Option<Trader>)
        ensures
            r is Some <==> holding@.non_negative(),
            r matches Some(next) ==> next@ == self@.with_purchase(price@, holding@)
                && next@.solvent(),
    {
        if holding.mantissa() >= 0 {
            Some(
                Trader {
                    asset_amount: holding,
                    cash_amount: Amount::from_parts(0, 0).unwrap(),
                    bought_for: price,
                    sold_for: self.sold_for,
                    mode: Mode::AwaitingSell,
                },
            )
        } else {
            None
        }
    }

    /// The tick as a function: the next state and the report, or `None`
    /// where the tick is not defined.
    fn advance(&self, sample: Option<Amount>) -> (r: Option<(Trader, Result<Action, TradeError>)>)
        ensures
            match r {
                Some((next, report)) => self@.outcome(value_of(sample)) == Some(
                    (next@, report),
                ),
                None => self@.outcome(value_of(sample)) is None,
            },
    {
        proof {
            use_type_invariant(self);
        }
        let price = match sample {
            Some(price) => price,
            None => {
                return Some((*self, Err(TradeError::FetchFailed)));
            },
        };
        if price.mantissa() < 0 {
            return None;
        }
        let movement = match self.mode {
            Mode::AwaitingSell => decimal_sub(price, self.bought_for),
            Mode::AwaitingBuy => decimal_sub(self.sold_for, price),
        };
        let moved = match movement {
            Some(moved) => moved,
            None => {
                return None;
            },
        };
        if !meets_threshold(moved) {
            return Some((*self, Ok(Action::Hold)));
        }
        match self.mode {
            Mode::AwaitingSell => {
                let quantity = match decimal_mul(self.asset_amount, sell_fraction()) {
                    Some(quantity) => quantity,
                    None => {
                        return None;
                    },
                };
                match checked_sell(quantity, price) {
                    None => None,
                    Some(Err(e)) => Some((*self, Err(e))),
                    Some(Ok(proceeds)) => {
                        let cash = decimal_add(self.cash_amount, proceeds);
                        let rest = decimal_sub(self.asset_amount, quantity);
                        match (cash, rest) {
                            (Some(cash), Some(rest)) => match self.with_sale(price, cash, rest) {
                                Some(next) => Some((next, Ok(Action::Sold))),
                                None => None,
                            },
                            _ => None,
                        }
                    },
                }
            },
            Mode::AwaitingBuy => match checked_buy(self.cash_amount, price) {
                None => None,
                Some(Err(e)) => Some((*self, Err(e))),
                Some(Ok(units)) => match decimal_add(self.asset_amount, units) {
                    Some(holding) => match self.with_purchase(price, holding) {
                        Some(next) => Some((next, Ok(Action::Bought))),
                        None => None,
                    },
                    None => None,
                },
            },
        }
    }

    /// Whether a tick on `sample` is defined in this state.
    pub fn can_tick(&self, sample: Option<Amount>) -> (r: bool)
        ensures
            r == (self@.outcome(value_of(sample)) is Some),
    {
        self.advance(sample).is_some()
    }

    /// One tick: takes the answer of the price source, `None` for a failed
    /// fetch, and trades where the threshold condition holds.
    pub fn tick(&mut self, sample: Option<Amount>) -> (r: Result<Action, TradeError>)
        requires
            old(self)@.outcome(value_of(sample)) is Some,
        ensures
            old(self)@.outcome(value_of(sample)) == Some((final(self)@, r)),
            final(self)@.solvent(),
    {
        let (next, report) = self.advance(sample).unwrap();
        proof {
            use_type_invariant(&next);
        }
        *self = next;
        report
    }

    /// `tick` wherever it is defined; elsewhere `None`, and the state stays
    /// as it was.
    pub fn checked_tick(&mut self, sample: Option<Amount>) -> (r: Option<
        Result<Action, TradeError>,
    >)
        ensures
            match r {
                Some(report) => old(self)@.outcome(value_of(sample)) == Some(
                    (final(self)@, report),
                ),
                None => old(self)@.outcome(value_of(sample)) is None && *final(self) == *old(
                    self,
                ),
            },
            final(self)@.solvent(),
    {
        proof {
            use_type_invariant(&*self);
        }
        if self.can_tick(sample) {
            Some(self.tick(sample))
        } else {
            None
        }
    }
}

/// A state is determined by its content: two states with the same content
/// are the same state.
pub proof fn lemma_content_determines_state(a: Trader, b: Trader)
    requires
        a@ == b@,
    ensures
        a == b,
{
    lemma_content_determines_amount(a.asset_amount, b.asset_amount);
    lemma_content_determines_amount(a.cash_amount, b.cash_amount);
    lemma_content_determines_amount(a.bought_for, b.bought_for);
    lemma_content_determines_amount(a.sold_for, b.sold_for);
}

} // verus!
