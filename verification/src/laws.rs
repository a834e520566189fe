//! What holds of every tick, whatever the state and the sample: stated over
//! `TraderView::outcome`, the function that `Trader::tick` computes.

use crate::amount::DecimalValue;
use crate::trade::TradeError;
use crate::trader::{Action, Mode, TraderView};
use vstd::prelude::*;

verus! {

/// Whether a tick on `sample` in `state` is defined and is no trade attempt:
/// the fetch failed, or the price does not meet the threshold condition.
pub open spec fn idle(state: TraderView, sample: Option<DecimalValue>) -> bool {
    &&& state.outcome(sample) is Some
    &&& sample matches Some(price) ==> !state.triggered(price)
}

/// A tick changes the state only by trading: where it reports anything but
/// a sale or a purchase, the state after it is the state before it.
pub proof fn lemma_state_changes_only_by_trading(state: TraderView, sample: Option<DecimalValue>)
    ensures
        state.outcome(sample) matches Some((next, report)) ==> (report == Ok::<
            Action,
            TradeError,
        >(Action::Sold) || report == Ok::<Action, TradeError>(Action::Bought) || next == state),
{
}

/// A sale is made only while waiting to sell and leaves the automaton
/// waiting to buy; a purchase is made only while waiting to buy and leaves
/// it waiting to sell; any other tick, failed or idle, keeps the mode.
pub proof fn lemma_mode_alternates(state: TraderView, sample: Option<DecimalValue>)
    ensures
        match state.outcome(sample) {
            Some((next, Ok(Action::Sold))) => state.mode == Mode::AwaitingSell && next.mode
                == Mode::AwaitingBuy,
            Some((next, Ok(Action::Bought))) => state.mode == Mode::AwaitingBuy && next.mode
                == Mode::AwaitingSell,
            Some((next, _)) => next.mode == state.mode,
            None => true,
        },
{
}

/// A tick at a price of exactly zero never trades and never changes the
/// state: it is refused as degenerate where the threshold condition holds,
/// and is idle where it does not.
pub proof fn lemma_zero_price_changes_nothing(state: TraderView, price: DecimalValue)
    requires
        price.is_zero(),
    ensures
        match state.outcome(Some(price)) {
            Some((next, report)) => next == state && report == (if state.triggered(price) {
                Err::<Action, TradeError>(TradeError::DegenerateOperation)
            } else {
                Ok::<Action, TradeError>(Action::Hold)
            }),
            None => true,
        },
{
}

/// A tick on a failed fetch is always defined, reports the failure and
/// changes nothing.
pub proof fn lemma_failed_fetch_changes_nothing(state: TraderView)
    ensures
        state.outcome(None) == Some((state, Err::<Action, TradeError>(TradeError::FetchFailed))),
{
}

/// A tick whose price does not meet the threshold condition holds: it
/// reports `Hold` and changes nothing.
pub proof fn lemma_idle_tick_changes_nothing(state: TraderView, price: DecimalValue)
    requires
        idle(state, Some(price)),
    ensures
        state.outcome(Some(price)) == Some((state, Ok::<Action, TradeError>(Action::Hold))),
{
}

/// However many idle ticks follow one another, the state after them is the
/// state before them: one tick or a thousand make no difference.
pub proof fn lemma_idle_ticks_change_nothing(
    state: TraderView,
    samples: Seq<Option<DecimalValue>>,
)
    requires
        forall|i: int| 0 <= i < samples.len() ==> idle(state, #[trigger] samples[i]),
    ensures
        state.after_ticks(samples) == Some(state),
    decreases samples.len(),
{
    if samples.len() > 0 {
        let rest = samples.drop_first();
        assert(idle(state, samples[0]));
        assert forall|i: int| 0 <= i < rest.len() implies idle(state, #[trigger] rest[i]) by {
            assert(rest[i] == samples[i + 1]);
        }
        lemma_idle_ticks_change_nothing(state, rest);
    }
}

/// The same price sampled `count` times, where it does not meet the
/// threshold condition, leaves the state as it was.
pub proof fn lemma_repeated_idle_price_changes_nothing(
    state: TraderView,
    price: DecimalValue,
    count: nat,
)
    requires
        idle(state, Some(price)),
    ensures
        state.after_ticks(Seq::new(count, |i: int| Some(price))) == Some(state),
{
    lemma_idle_ticks_change_nothing(state, Seq::new(count, |i: int| Some(price)));
}

} // verus!
