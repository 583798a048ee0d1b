//! The operations that an update strategy can decide on.

use vstd::prelude::*;

verus! {

/// For feeds of increments: the incoming quantity is an amount to add to what rests at
/// the price. A price seen for the first time always gets a level, even with quantity
/// zero; a level goes when an increment brings it to zero.
#[derive(Clone, Copy, Debug, PartialEq, Eq)]
pub enum AggregateOrCreate {
    /// A level rests at the price: it takes the sum of the two quantities.
    Aggregated,
    /// A level rests at the price and the sum is zero: the level goes.
    Remove,
    /// No level rests at the price: the incoming level is inserted.
    Create,
}

/// For feeds of absolute sizes: the incoming quantity is what rests at the price from
/// now on, and zero means that nothing rests there. A level with quantity zero is never
/// put into the ladder.
#[derive(Clone, Copy, Debug, PartialEq, Eq)]
pub enum ReplaceOrRemove {
    /// A level rests at the price and the incoming quantity is not zero: the incoming
    /// level overwrites it.
    Replace,
    /// A level rests at the price and the incoming quantity is zero: the level goes.
    Remove,
    /// No level rests at the price and the incoming quantity is not zero: the incoming
    /// level is inserted.
    Displace,
    /// No level rests at the price and the incoming quantity is zero: nothing happens.
    Noop,
}

} // verus!
