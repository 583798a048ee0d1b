//! The book: the bids, the asks and the id of the last update that went into them.

use crate::asks::Asks;
use crate::bids::Bids;
use crate::ladder::in_order;
use crate::laws::is_zero;
use crate::laws::price_laws;
use crate::laws::quantity_laws;
use crate::limit_order_book::event::Event;
use crate::ops::admits_all;
use crate::ops::process_all;
use crate::ops::processed_all;
use crate::ops::update_strategies::ReplaceOrRemove;
use crate::ops::Strategy;
use crate::ops::Update;
use crate::price_and_quantity::PriceAndQuantity;
use crate::OrderType;
use core::ops::Add;
use vstd::prelude::*;

pub mod event;

verus! {

/// A limit order book. `update_id` is the watermark: the id of the last update of the
/// feed that was applied in full.
#[derive(PartialEq, Clone, Debug)]
pub struct LimitOrderBook<P, Q> {
    pub update_id: u64,
    pub bids: Bids<P, Q>,
    pub asks: Asks<P, Q>,
}

/// A packet of a depth feed: the levels that changed on either side in the updates
/// `first_update_id` to `last_update_id`.
#[derive(PartialEq, Clone, Debug)]
pub struct DepthUpdate<P, Q> {
    pub event: Event,
    pub first_update_id: u64,
    pub last_update_id: u64,
    pub bids: Bids<P, Q>,
    pub asks: Asks<P, Q>,
}

/// A packet of the updates `first` to `last` neither continues nor overlaps a stream
/// that was applied up to `watermark`: it starts after the next update, so that one was
/// missed, or it ended before the last one applied, so that it is stale.
pub open spec fn skips(first: int, last: int, watermark: int) -> bool {
    watermark + 1 < first || last + 1 < watermark
}

/// Where the gap begins: a packet that starts with the update after the watermark, one
/// that ends with the watermark and one that spans it are not skipped; a packet that
/// starts later than the update after the watermark, or ends earlier than the update
/// before it, is skipped.
pub proof fn lemma_gap_boundary(first: int, last: int, watermark: int)
    requires
        first <= last,
    ensures
        first == watermark + 1 ==> !skips(first, last, watermark),
        last == watermark ==> !skips(first, last, watermark),
        first <= watermark <= last ==> !skips(first, last, watermark),
        first > watermark + 1 ==> skips(first, last, watermark),
        last < watermark - 1 ==> skips(first, last, watermark),
{
}

impl<P, Q> DepthUpdate<P, Q> {
    /// A valid update [a, b] should overlap or at least not gap between the last update
    /// id and the new update range. Tells whether the packet is to be skipped by a book
    /// whose watermark is `last_book_id`.
    pub fn skip_update(&self, last_book_id: u64) -> (skip: bool)
        ensures
            skip == skips(
                self.first_update_id as int,
                self.last_update_id as int,
                last_book_id as int,
            ),
    {
        let (a, b) = (self.first_update_id, self.last_update_id);
        (last_book_id < a && a - last_book_id > 1) || (b < last_book_id && last_book_id - b > 1)
    }
}

/// Appends copies of the levels of `more` to `levels`.
fn append<P: Copy, Q: Copy>(
    levels: &mut Vec<PriceAndQuantity<P, Q>>,
    more: &Vec<PriceAndQuantity<P, Q>>,
)
    ensures
        final(levels)@ == old(levels)@ + more@,
{
    let mut copied: usize = 0;
    while copied < more.len()
        invariant
            copied <= more.len(),
            levels@ == old(levels)@ + more@.take(copied as int),
        decreases more.len() - copied,
    {
        levels.push(more[copied]);
        assert(more@.take(copied + 1) == more@.take(copied as int).push(more@[copied as int]));
        copied = copied + 1;
    }
    assert(more@.take(copied as int) == more@);
}

impl<P, Q> LimitOrderBook<P, Q> {
    /// A book without levels, with watermark 0.
    pub fn new() -> (book: LimitOrderBook<P, Q>)
        ensures
            book.update_id == 0,
            book.bids@ == Seq::<PriceAndQuantity<P, Q>>::empty(),
            book.asks@ == Seq::<PriceAndQuantity<P, Q>>::empty(),
    {
        LimitOrderBook { update_id: 0, bids: Bids::new(), asks: Asks::new() }
    }
}

impl<P, Q> Default for LimitOrderBook<P, Q> {
    fn default() -> (book: Self)
        ensures
            book.update_id == 0,
            book.bids@ == Seq::<PriceAndQuantity<P, Q>>::empty(),
            book.asks@ == Seq::<PriceAndQuantity<P, Q>>::empty(),
    {
        LimitOrderBook::new()
    }
}

impl<P, Q> Default for DepthUpdate<P, Q> {
    fn default() -> (update: Self)
        ensures
            update.event.id@ == Seq::<char>::empty(),
            update.event.time == 0,
            update.event.symbol@ == Seq::<char>::empty(),
            update.first_update_id == 0,
            update.last_update_id == 0,
            update.bids@ == Seq::<PriceAndQuantity<P, Q>>::empty(),
            update.asks@ == Seq::<PriceAndQuantity<P, Q>>::empty(),
    {
        DepthUpdate {
            event: Event::default(),
            first_update_id: 0,
            last_update_id: 0,
            bids: Bids::new(),
            asks: Asks::new(),
        }
    }
}

impl<P: PartialOrd + Copy, Q: Add<Output = Q> + PartialEq + Default + Copy> LimitOrderBook<P, Q> {
    /// Both ladders are in order: the prices of the bids increase strictly and those of
    /// the asks decrease strictly from the front to the back.
    pub open spec fn is_ordered(&self) -> bool {
        in_order(true, self.bids@) && in_order(false, self.asks@)
    }

    /// Sets what rests at the price of `bid` on the bid side: the quantity of `bid`, or
    /// nothing where that is zero.
    pub fn add_bid(&mut self, bid: PriceAndQuantity<P, Q>)
        requires
            price_laws::<P>(),
            quantity_laws::<Q>(),
            in_order(true, old(self).bids@),
        ensures
            in_order(true, final(self).bids@),
            exists|zero: Q| #[trigger]
                is_zero(zero) && final(self).bids@ == ReplaceOrRemove::processed(
                    true,
                    old(self).bids@,
                    bid,
                    zero,
                ),
            final(self).asks == old(self).asks,
            final(self).update_id == old(self).update_id,
    {
        Update::<ReplaceOrRemove>::process(&mut self.bids, bid)
    }

    /// Sets what rests at the price of `ask` on the ask side: the quantity of `ask`, or
    /// nothing where that is zero.
    pub fn add_ask(&mut self, ask: PriceAndQuantity<P, Q>)
        requires
            price_laws::<P>(),
            quantity_laws::<Q>(),
            in_order(false, old(self).asks@),
        ensures
            in_order(false, final(self).asks@),
            exists|zero: Q| #[trigger]
                is_zero(zero) && final(self).asks@ == ReplaceOrRemove::processed(
                    false,
                    old(self).asks@,
                    ask,
                    zero,
                ),
            final(self).bids == old(self).bids,
            final(self).update_id == old(self).update_id,
    {
        Update::<ReplaceOrRemove>::process(&mut self.asks, ask)
    }

    /// Sets what rests at the price of `level` on the side `side`: a buy goes to the
    /// bids, a sell to the asks.
    pub fn apply_level(&mut self, side: OrderType, level: PriceAndQuantity<P, Q>)
        requires
            price_laws::<P>(),
            quantity_laws::<Q>(),
            old(self).is_ordered(),
        ensures
            final(self).is_ordered(),
            final(self).update_id == old(self).update_id,
            exists|zero: Q| #[trigger]
                is_zero(zero) && match side {
                    OrderType::Buy => {
                        &&& final(self).bids@ == ReplaceOrRemove::processed(
                            true,
                            old(self).bids@,
                            level,
                            zero,
                        )
                        &&& final(self).asks == old(self).asks
                    },
                    OrderType::Sell => {
                        &&& final(self).asks@ == ReplaceOrRemove::processed(
                            false,
                            old(self).asks@,
                            level,
                            zero,
                        )
                        &&& final(self).bids == old(self).bids
                    },
                },
    {
        match side {
            OrderType::Buy => self.add_bid(level),
            OrderType::Sell => self.add_ask(level),
        }
    }

    /// Appends the levels of `other` to those of this book, side by side, and takes its
    /// watermark.
    ///
    /// Careful: this is a cheap concatenation that does not look at the prices. It is
    /// for books that hold disjoint partitions of the prices, each side of `other`
    /// continuing the order of the same side of this book: the caller owes the proof
    /// that the concatenated ladders are in order.
    pub fn extend(&mut self, other: &Self)
        requires
            in_order(true, old(self).bids@ + other.bids@),
            in_order(false, old(self).asks@ + other.asks@),
        ensures
            final(self).bids@ == old(self).bids@ + other.bids@,
            final(self).asks@ == old(self).asks@ + other.asks@,
            final(self).update_id == other.update_id,
            final(self).is_ordered(),
    {
        append(&mut self.bids.0, &other.bids.0);
        append(&mut self.asks.0, &other.asks.0);
        self.update_id = other.update_id;
    }

    /// Takes a packet of the feed into the book, unless it is to be skipped: then the
    /// book stays as it is. A packet that is accepted is applied in full, the bids and
    /// the asks each assimilated under the strategy `S` in the order of the packet, and
    /// the watermark moves to the last update of the packet.
    pub fn accept<S>(&mut self, update: &DepthUpdate<P, Q>) -> (accepted: bool) where
        S: Strategy,
        Bids<P, Q>: Update<S, Level = PriceAndQuantity<P, Q>>,
        Asks<P, Q>: Update<S, Level = PriceAndQuantity<P, Q>>,

        requires
            !skips(
                update.first_update_id as int,
                update.last_update_id as int,
                old(self).update_id as int,
            ) ==> {
                &&& quantity_laws::<Q>()
                &&& <Bids<P, Q> as Update<S>>::ordered(<Bids<P, Q> as Update<S>>::levels(&old(self).bids))
                &&& <Asks<P, Q> as Update<S>>::ordered(<Asks<P, Q> as Update<S>>::levels(&old(self).asks))
                &&& forall|zero: Q| #[trigger]
                    is_zero(zero) ==> {
                        &&& admits_all::<S, Bids<P, Q>>(
                            <Bids<P, Q> as Update<S>>::levels(&old(self).bids),
                            update.bids@,
                            zero,
                        )
                        &&& admits_all::<S, Asks<P, Q>>(
                            <Asks<P, Q> as Update<S>>::levels(&old(self).asks),
                            update.asks@,
                            zero,
                        )
                    }
            },
        ensures
            accepted == !skips(
                update.first_update_id as int,
                update.last_update_id as int,
                old(self).update_id as int,
            ),
            !accepted ==> *final(self) == *old(self),
            accepted ==> {
                &&& final(self).update_id == update.last_update_id
                &&& <Bids<P, Q> as Update<S>>::ordered(<Bids<P, Q> as Update<S>>::levels(&final(self).bids))
                &&& <Asks<P, Q> as Update<S>>::ordered(<Asks<P, Q> as Update<S>>::levels(&final(self).asks))
                &&& exists|zero: Q| #[trigger]
                    is_zero(zero) && {
                        &&& <Bids<P, Q> as Update<S>>::levels(&final(self).bids) == processed_all::<
                            S,
                            Bids<P, Q>,
                        >(<Bids<P, Q> as Update<S>>::levels(&old(self).bids), update.bids@, zero)
                        &&& <Asks<P, Q> as Update<S>>::levels(&final(self).asks) == processed_all::<
                            S,
                            Asks<P, Q>,
                        >(<Asks<P, Q> as Update<S>>::levels(&old(self).asks), update.asks@, zero)
                    }
            },
    {
        if update.skip_update(self.update_id) {
            return false;
        }
        process_all::<S, Bids<P, Q>>(&mut self.bids, &update.bids.0);
        process_all::<S, Asks<P, Q>>(&mut self.asks, &update.asks.0);
        self.update_id = update.last_update_id;
        true
    }
}

} // verus!
