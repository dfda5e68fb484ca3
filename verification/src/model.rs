//! Shapes shared by the spot and futures catalogs.

use vstd::prelude::*;

verus! {

/// The side of an order or trade.
#[derive(Clone, Copy, Debug, PartialEq, Eq, Structural)]
pub enum Side {
    Buy,
    Sell,
}

/// One price level of an order book.
#[derive(Debug)]
pub struct BookLevel {
    pub price: String,
    pub qty: String,
}

/// How the exchange prevents an order from matching the account's own.
#[derive(Clone, Copy, Debug, PartialEq, Eq, Structural)]
pub enum SelfTradePreventionMode {
    NoPrevention,
    ExpireTaker,
    ExpireMaker,
    ExpireBoth,
}

} // verus!
