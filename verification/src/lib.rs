//! A limit order book: two ladders of price levels, bids and asks, kept in order under a
//! stream of level updates, and the check that tells whether a packet of updates
//! continues the stream or leaves a gap.

use vstd::prelude::*;

pub mod asks;
pub mod bids;
pub mod ladder;
pub mod laws;
pub mod limit_order_book;
pub mod ops;
pub mod price_and_quantity;

pub use asks::Asks;
pub use bids::Bids;
pub use limit_order_book::DepthUpdate;
pub use limit_order_book::LimitOrderBook;
pub use price_and_quantity::PriceAndQuantity;

verus! {

/// The side that an order is on.
#[derive(Clone, Copy, Debug, PartialEq, Eq)]
pub enum OrderType {
    Buy,
    Sell,
}

/// An order: a level and the side that it is on.
#[derive(Clone, Debug, PartialEq)]
pub struct Order<P, Q> {
    pub price_quantity: PriceAndQuantity<P, Q>,
    pub order_type: OrderType,
}

} // verus!
