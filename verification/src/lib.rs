//! A single-asset trading automaton: it watches one price, sells a fixed
//! fraction of its holding when the price has risen by a fixed amount since
//! the last purchase, and buys back with all its cash when the price has
//! fallen by that amount since the last sale.
//!
//! Quantities are exact decimals (`amount`). The arithmetic on them is that
//! of the `rust_decimal` crate; the contracts of the few calls into it are
//! believed, everything built on them is proved.

pub mod amount;
pub mod trade;
pub mod trader;
pub mod laws;
