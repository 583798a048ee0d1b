//! How a level update is assimilated into a ladder.
//!
//! An update names a price. The ladder is searched for the slot of that price and for
//! the existing level of that price, the strategy decides from the incoming level and
//! the existing one which operation to carry out, and the operation is carried out at
//! the slot.

use crate::ladder::ahead;
use crate::ladder::existing;
use crate::ladder::in_order;
use crate::ladder::lemma_insert_keeps_order;
use crate::ladder::lemma_overwrite_keeps_order;
use crate::ladder::lemma_price_rests_at_slot;
use crate::ladder::lemma_quoted_at_slot;
use crate::ladder::lemma_remove_keeps_order;
use crate::ladder::lemma_rests_at;
use crate::ladder::lemma_rests_elsewhere;
use crate::ladder::lemma_slot_parts;
use crate::ladder::parts_at;
use crate::ladder::quotes;
use crate::ladder::rests;
use crate::ladder::slot;
use crate::laws::eq_is_equality;
use crate::laws::is_zero;
use crate::laws::price_laws;
use crate::laws::quantity_laws;
use crate::ops::update_strategies::AggregateOrCreate;
use crate::ops::update_strategies::ReplaceOrRemove;
use crate::price_and_quantity::Price;
use crate::price_and_quantity::PriceAndQuantity;
use crate::price_and_quantity::Quantity;
use core::ops::Add;
use vstd::prelude::*;
use vstd::std_specs::ops::AddSpec;

pub mod update_strategies;

verus! {

/// The side of the book that a ladder holds, as the order of its prices.
pub trait PartitionPredicate {
    /// Front to back the prices of the ladder increase; where this is false they
    /// decrease.
    spec fn ascending() -> bool;

    /// Defines an ordering for the binary search partition: a level at price `lhs`
    /// stands in front of one at price `rhs`.
    fn partition_predicate<T: PartialOrd>(lhs: &T, rhs: &T) -> (in_front: bool)
        requires
            price_laws::<T>(),
        ensures
            in_front == ahead(Self::ascending(), *lhs, *rhs),
    ;
}

/// The level behind an optional reference.
pub open spec fn held<Level>(level: Option<&Level>) -> Option<Level> {
    match level {
        Some(l) => Some(*l),
        None => None,
    }
}

/// The slot is occupied: `level` is a level and rests at the price of `value`.
pub open spec fn occupied<Level: Price>(value: Level, level: Option<Level>) -> bool {
    level matches Some(l) && l.price() == value.price()
}

/// The quantity that the update asks to rest at its price: the incoming quantity, or,
/// for a strategy that aggregates and a slot that is occupied, the sum of the quantity
/// that rests there and the incoming one.
pub open spec fn resulting<Level: Price + Quantity>(
    aggregates: bool,
    value: Level,
    level: Option<Level>,
) -> <Level as Quantity>::Q where <Level as Quantity>::Q: Add<Output = <Level as Quantity>::Q> {
    if aggregates && occupied(value, level) {
        level->0.quantity().add_spec(value.quantity())
    } else {
        value.quantity()
    }
}

/// The quantities that the strategy adds can be added.
pub open spec fn addable<Level: Price + Quantity>(
    aggregates: bool,
    value: Level,
    level: Option<Level>,
) -> bool where <Level as Quantity>::Q: Add<Output = <Level as Quantity>::Q> {
    aggregates && occupied(value, level) ==> level->0.quantity().add_req(value.quantity())
}

/// Defines how to assimilate a level of an update into a ladder: which operation to
/// carry out, given the incoming level and the existing level of its price, if there is
/// one. A level of another price counts as none.
pub trait Strategy: Sized {
    /// The incoming quantity is an amount to add to what rests at the price, not the
    /// amount that rests there from now on.
    spec fn aggregates() -> bool;

    /// The operation decided on: `occupied` says that a level rests at the incoming
    /// price, `emptied` that the resulting quantity is zero.
    spec fn decision(occupied: bool, emptied: bool) -> Self;

    fn operation<Level: Price + Quantity>(value: &Level, level: Option<&Level>) -> (operator: Self) where
        <Level as Price>::P: PartialEq,
        <Level as Quantity>::Q: Default + PartialEq + Copy + Add<Output = <Level as Quantity>::Q>,

        requires
            eq_is_equality::<<Level as Price>::P>(),
            quantity_laws::<<Level as Quantity>::Q>(),
            addable(Self::aggregates(), *value, held(level)),
        ensures
            exists|zero: <Level as Quantity>::Q| #[trigger]
                is_zero(zero) && operator == Self::decision(
                    occupied(*value, held(level)),
                    resulting(Self::aggregates(), *value, held(level)) == zero,
                ),
    ;
}

impl Strategy for AggregateOrCreate {
    open spec fn aggregates() -> bool {
        true
    }

    /// | level at the incoming price | sum of the quantities | operation |
    /// |---|---|---|
    /// | yes | zero | `Remove` |
    /// | yes | not zero | `Aggregated` |
    /// | no | | `Create` |
    open spec fn decision(occupied: bool, emptied: bool) -> Self {
        if !occupied {
            AggregateOrCreate::Create
        } else if emptied {
            AggregateOrCreate::Remove
        } else {
            AggregateOrCreate::Aggregated
        }
    }

    fn operation<Level: Price + Quantity>(new: &Level, level: Option<&Level>) -> (operator: Self) where
        <Level as Price>::P: PartialEq,
        <Level as Quantity>::Q: Default + PartialEq + Copy + Add<Output = <Level as Quantity>::Q>,
     {
        let zero = <Level as Quantity>::Q::default();
        let operator = match level {
            Some(old) => {
                if *Price::to_ref(old) != *Price::to_ref(new) {
                    AggregateOrCreate::Create
                } else if *Quantity::to_ref(old) + *Quantity::to_ref(new) != zero {
                    AggregateOrCreate::Aggregated
                } else {
                    AggregateOrCreate::Remove
                }
            },
            None => AggregateOrCreate::Create,
        };
        assert(is_zero(zero));
        operator
    }
}

impl Strategy for ReplaceOrRemove {
    open spec fn aggregates() -> bool {
        false
    }

    /// | level at the incoming price | incoming quantity | operation |
    /// |---|---|---|
    /// | yes | not zero | `Replace` |
    /// | yes | zero | `Remove` |
    /// | no | not zero | `Displace` |
    /// | no | zero | `Noop` |
    open spec fn decision(occupied: bool, emptied: bool) -> Self {
        if occupied {
            if emptied {
                ReplaceOrRemove::Remove
            } else {
                ReplaceOrRemove::Replace
            }
        } else {
            if emptied {
                ReplaceOrRemove::Noop
            } else {
                ReplaceOrRemove::Displace
            }
        }
    }

    fn operation<Level: Price + Quantity>(value: &Level, level: Option<&Level>) -> (operator: Self) where
        <Level as Price>::P: PartialEq,
        <Level as Quantity>::Q: Default + PartialEq + Copy + Add<Output = <Level as Quantity>::Q>,
     {
        let zero = <Level as Quantity>::Q::default();
        let resting = zero != *Quantity::to_ref(value);
        let operator = match level {
            Some(level) => {
                if *Price::to_ref(level) == *Price::to_ref(value) {
                    if resting {
                        ReplaceOrRemove::Replace
                    } else {
                        ReplaceOrRemove::Remove
                    }
                } else if resting {
                    ReplaceOrRemove::Displace
                } else {
                    ReplaceOrRemove::Noop
                }
            },
            None => {
                if resting {
                    ReplaceOrRemove::Displace
                } else {
                    ReplaceOrRemove::Noop
                }
            },
        };
        assert(is_zero(zero));
        operator
    }
}

/// Finds the slot of `price` in a ladder of the side `T` by binary search.
pub fn locate<T: PartitionPredicate, P: PartialOrd, Q>(
    levels: &Vec<PriceAndQuantity<P, Q>>,
    price: &P,
) -> (index: usize)
    requires
        price_laws::<P>(),
        in_order(T::ascending(), levels@),
    ensures
        index == slot(T::ascending(), levels@, *price),
        parts_at(T::ascending(), levels@, *price, index as int),
{
    let mut low: usize = 0;
    let mut high: usize = levels.len();
    proof {
        lemma_slot_parts(T::ascending(), levels@, *price);
    }
    while low < high
        invariant
            price_laws::<P>(),
            high <= levels.len(),
            low <= slot(T::ascending(), levels@, *price) <= high,
            forall|i: int|
                0 <= i < slot(T::ascending(), levels@, *price) ==> ahead(
                    T::ascending(),
                    #[trigger] levels@[i].0,
                    *price,
                ),
            forall|i: int|
                slot(T::ascending(), levels@, *price) <= i < levels.len() ==> !ahead(
                    T::ascending(),
                    #[trigger] levels@[i].0,
                    *price,
                ),
        decreases high - low,
    {
        let middle: usize = low + (high - low) / 2;
        if T::partition_predicate(&levels[middle].0, price) {
            low = middle + 1;
        } else {
            high = middle;
        }
    }
    low
}

/// Finds the slot of the price of `level_update` in a ladder of the side `T`, and the
/// existing level of that price: the level at the slot where it rests at that price,
/// none where the slot is past the end or holds a level of another price.
pub(crate) fn find<'a, T: PartitionPredicate, P: PartialOrd, Q>(
    levels: &'a Vec<PriceAndQuantity<P, Q>>,
    level_update: &PriceAndQuantity<P, Q>,
) -> (found: (usize, Option<&'a PriceAndQuantity<P, Q>>))
    requires
        price_laws::<P>(),
        in_order(T::ascending(), levels@),
    ensures
        found.0 == slot(T::ascending(), levels@, level_update.0),
        held(found.1) == existing(T::ascending(), levels@, level_update.0),
{
    let index = locate::<T, P, Q>(levels, &level_update.0);
    if index < levels.len() && levels[index].0 == level_update.0 {
        (index, Some(&levels[index]))
    } else {
        (index, None)
    }
}

impl ReplaceOrRemove {
    /// The operation can be carried out at index `key` of the ladder.
    pub open spec fn digestible<P, Q>(self, levels: Seq<PriceAndQuantity<P, Q>>, key: int) -> bool {
        match self {
            ReplaceOrRemove::Replace | ReplaceOrRemove::Remove => 0 <= key < levels.len(),
            ReplaceOrRemove::Displace => 0 <= key <= levels.len(),
            ReplaceOrRemove::Noop => true,
        }
    }

    /// The ladder after the operation was carried out at index `key`.
    pub open spec fn digested<P, Q>(
        self,
        levels: Seq<PriceAndQuantity<P, Q>>,
        key: int,
        level_update: PriceAndQuantity<P, Q>,
    ) -> Seq<PriceAndQuantity<P, Q>> {
        match self {
            ReplaceOrRemove::Replace => levels.update(key, level_update),
            ReplaceOrRemove::Remove => levels.remove(key),
            ReplaceOrRemove::Displace => levels.insert(key, level_update),
            ReplaceOrRemove::Noop => levels,
        }
    }

    /// Carries the operation out at index `key` of the ladder.
    pub fn digest<P, Q>(
        self,
        levels: &mut Vec<PriceAndQuantity<P, Q>>,
        key: usize,
        level_update: PriceAndQuantity<P, Q>,
    )
        requires
            self.digestible(old(levels)@, key as int),
        ensures
            final(levels)@ == self.digested(old(levels)@, key as int, level_update),
    {
        match self {
            ReplaceOrRemove::Replace => {
                levels[key] = level_update;
            },
            ReplaceOrRemove::Remove => {
                levels.remove(key);
            },
            ReplaceOrRemove::Displace => {
                levels.insert(key, level_update);
            },
            ReplaceOrRemove::Noop => {},
        }
    }
}

impl AggregateOrCreate {
    /// The operation can be carried out at index `key` of the ladder.
    pub open spec fn digestible<P, Q: Add<Output = Q>>(
        self,
        levels: Seq<PriceAndQuantity<P, Q>>,
        key: int,
        new: PriceAndQuantity<P, Q>,
    ) -> bool {
        match self {
            AggregateOrCreate::Aggregated => {
                &&& 0 <= key < levels.len()
                &&& Q::obeys_add_spec()
                &&& levels[key].1.add_req(new.1)
            },
            AggregateOrCreate::Remove => 0 <= key < levels.len(),
            AggregateOrCreate::Create => 0 <= key <= levels.len(),
        }
    }

    /// The ladder after the operation was carried out at index `key`.
    pub open spec fn digested<P, Q: Add<Output = Q>>(
        self,
        levels: Seq<PriceAndQuantity<P, Q>>,
        key: int,
        new: PriceAndQuantity<P, Q>,
    ) -> Seq<PriceAndQuantity<P, Q>> {
        match self {
            AggregateOrCreate::Aggregated => levels.update(key, levels[key].combined(new)),
            AggregateOrCreate::Remove => levels.remove(key),
            AggregateOrCreate::Create => levels.insert(key, new),
        }
    }

    /// Carries the operation out at index `key` of the ladder.
    pub fn digest<P: Copy, Q: Add<Output = Q> + Copy>(
        self,
        levels: &mut Vec<PriceAndQuantity<P, Q>>,
        key: usize,
        new: PriceAndQuantity<P, Q>,
    )
        requires
            self.digestible(old(levels)@, key as int, new),
        ensures
            final(levels)@ == self.digested(old(levels)@, key as int, new),
    {
        match self {
            AggregateOrCreate::Aggregated => {
                let level = levels[key];
                levels[key] = level.combine(new);
            },
            AggregateOrCreate::Remove => {
                levels.remove(key);
            },
            AggregateOrCreate::Create => {
                levels.insert(key, new);
            },
        }
    }
}

impl ReplaceOrRemove {
    /// The ladder after `level_update` was processed: the operation decided on for the
    /// existing level of its price, carried out at the slot of that price.
    pub open spec fn processed<P: PartialOrd, Q: Add<Output = Q>>(
        ascending: bool,
        levels: Seq<PriceAndQuantity<P, Q>>,
        level_update: PriceAndQuantity<P, Q>,
        zero: Q,
    ) -> Seq<PriceAndQuantity<P, Q>> {
        let found = existing(ascending, levels, level_update.0);
        Self::decision(
            occupied(level_update, found),
            resulting(Self::aggregates(), level_update, found) == zero,
        ).digested(levels, slot(ascending, levels, level_update.0), level_update)
    }

    /// Processing a level keeps a ladder in order. The slot is an index of the ladder or
    /// its length, and the operation decided on can be carried out there.
    pub proof fn lemma_processed<P: PartialOrd, Q: Add<Output = Q>>(
        ascending: bool,
        levels: Seq<PriceAndQuantity<P, Q>>,
        level_update: PriceAndQuantity<P, Q>,
        zero: Q,
    )
        requires
            price_laws::<P>(),
            in_order(ascending, levels),
        ensures
            in_order(ascending, Self::processed(ascending, levels, level_update, zero)),
            0 <= slot(ascending, levels, level_update.0) <= levels.len(),
            ({
                let found = existing(ascending, levels, level_update.0);
                Self::decision(
                    occupied(level_update, found),
                    resulting(Self::aggregates(), level_update, found) == zero,
                ).digestible(levels, slot(ascending, levels, level_update.0))
            }),
    {
        let key = slot(ascending, levels, level_update.0);
        lemma_slot_parts(ascending, levels, level_update.0);
        lemma_quoted_at_slot(ascending, levels, level_update.0);
        let found = existing(ascending, levels, level_update.0);
        if occupied(level_update, found) {
            lemma_overwrite_keeps_order(ascending, levels, key, level_update);
            lemma_remove_keeps_order(ascending, levels, key);
        } else {
            lemma_insert_keeps_order(ascending, levels, level_update);
        }
    }
}

impl AggregateOrCreate {
    /// The ladder after `new` was processed: the operation decided on for the existing
    /// level of its price, carried out at the slot of that price.
    pub open spec fn processed<P: PartialOrd, Q: Add<Output = Q>>(
        ascending: bool,
        levels: Seq<PriceAndQuantity<P, Q>>,
        new: PriceAndQuantity<P, Q>,
        zero: Q,
    ) -> Seq<PriceAndQuantity<P, Q>> {
        let found = existing(ascending, levels, new.0);
        Self::decision(
            occupied(new, found),
            resulting(Self::aggregates(), new, found) == zero,
        ).digested(levels, slot(ascending, levels, new.0), new)
    }

    /// Processing a level keeps a ladder in order. The slot is an index of the ladder or
    /// its length, and the operation decided on can be carried out there where the
    /// quantities can be added.
    pub proof fn lemma_processed<P: PartialOrd, Q: Add<Output = Q>>(
        ascending: bool,
        levels: Seq<PriceAndQuantity<P, Q>>,
        new: PriceAndQuantity<P, Q>,
        zero: Q,
    )
        requires
            price_laws::<P>(),
            in_order(ascending, levels),
        ensures
            in_order(ascending, Self::processed(ascending, levels, new, zero)),
            0 <= slot(ascending, levels, new.0) <= levels.len(),
            ({
                let found = existing(ascending, levels, new.0);
                Q::obeys_add_spec() && addable(Self::aggregates(), new, found) ==> Self::decision(
                    occupied(new, found),
                    resulting(Self::aggregates(), new, found) == zero,
                ).digestible(levels, slot(ascending, levels, new.0), new)
            }),
    {
        let key = slot(ascending, levels, new.0);
        lemma_slot_parts(ascending, levels, new.0);
        lemma_quoted_at_slot(ascending, levels, new.0);
        let found = existing(ascending, levels, new.0);
        if occupied(new, found) {
            lemma_overwrite_keeps_order(ascending, levels, key, levels[key].combined(new));
            lemma_remove_keeps_order(ascending, levels, key);
        } else {
            lemma_insert_keeps_order(ascending, levels, new);
        }
    }
}

/// A ladder that assimilates level updates under the strategy `S`.
///
/// The ladder is spoken of as the sequence of its levels, front to back.
pub trait Update<S: Strategy>: PartitionPredicate + Sized {
    type Level: Price + Quantity;

    type Key;

    /// The levels of the ladder, front to back.
    spec fn levels(&self) -> Seq<Self::Level>;

    /// The levels are in order, under comparison operators that obey the laws.
    spec fn ordered(levels: Seq<Self::Level>) -> bool;

    /// `level_update` can be processed: the levels are in order, the operators of
    /// prices and quantities obey the laws, and where the strategy adds two quantities
    /// they can be added.
    spec fn admits(levels: Seq<Self::Level>, level_update: Self::Level) -> bool;

    /// The slot where `level_update` belongs, and the existing level of its price: the
    /// level that rests at that price, none where no level does.
    spec fn located(levels: Seq<Self::Level>, level_update: Self::Level) -> (
        Self::Key,
        Option<Self::Level>,
    );

    /// `operator` can be carried out at `key`.
    spec fn digestible(
        levels: Seq<Self::Level>,
        operator: S,
        key: Self::Key,
        level_update: Self::Level,
    ) -> bool;

    /// The levels after `operator` was carried out at `key`.
    spec fn digested(
        levels: Seq<Self::Level>,
        operator: S,
        key: Self::Key,
        level_update: Self::Level,
    ) -> Seq<Self::Level>;

    /// The levels after `level_update` was processed, where `zero` is the quantity that
    /// counts as none.
    spec fn processed(
        levels: Seq<Self::Level>,
        level_update: Self::Level,
        zero: <Self::Level as Quantity>::Q,
    ) -> Seq<Self::Level>;

    /// Levels that admit an update are in order, and are in order again after the update
    /// was processed. The operators that the strategy uses obey the laws, and the
    /// quantities that it adds can be added.
    proof fn lemma_processed(
        levels: Seq<Self::Level>,
        level_update: Self::Level,
        zero: <Self::Level as Quantity>::Q,
    ) where
        <Self::Level as Price>::P: PartialOrd,
        <Self::Level as Quantity>::Q: PartialEq + Default + Add<
            Output = <Self::Level as Quantity>::Q,
        >,

        requires
            Self::admits(levels, level_update),
        ensures
            Self::ordered(levels),
            Self::ordered(Self::processed(levels, level_update, zero)),
            eq_is_equality::<<Self::Level as Price>::P>(),
            quantity_laws::<<Self::Level as Quantity>::Q>(),
            addable(S::aggregates(), level_update, Self::located(levels, level_update).1),
    ;

    /// Processing is locating, deciding and digesting: the operation decided on for the
    /// existing level can be carried out at the key found, and gives the levels that
    /// `processed` names.
    proof fn lemma_process(&self, level_update: Self::Level, zero: <Self::Level as Quantity>::Q) where
        <Self::Level as Price>::P: PartialOrd,
        <Self::Level as Quantity>::Q: PartialEq + Default + Add<
            Output = <Self::Level as Quantity>::Q,
        >,

        requires
            Self::admits(self.levels(), level_update),
        ensures
            ({
                let (key, found) = Self::located(self.levels(), level_update);
                let operator = S::decision(
                    occupied(level_update, found),
                    resulting(S::aggregates(), level_update, found) == zero,
                );
                &&& Self::digestible(self.levels(), operator, key, level_update)
                &&& Self::digested(self.levels(), operator, key, level_update) == Self::processed(
                    self.levels(),
                    level_update,
                    zero,
                )
            }),
    ;

    /// Finds the slot where `level_update` belongs, and the existing level of its price.
    /// A level of another price at the slot is not handed out.
    fn entry(&mut self, level_update: &Self::Level) -> (found: (Self::Key, Option<&Self::Level>)) where
        <Self::Level as Price>::P: PartialOrd,

        requires
            Self::ordered(old(self).levels()),
        ensures
            final(self).levels() == old(self).levels(),
            (found.0, held(found.1)) == Self::located(old(self).levels(), *level_update),
    ;

    /// Processes the level: finds its slot, lets the strategy decide, and carries the
    /// operation out.
    fn process(&mut self, level_update: Self::Level) where
        <Self::Level as Price>::P: PartialOrd,
        <Self::Level as Quantity>::Q: Default + PartialEq + Copy + Add<
            Output = <Self::Level as Quantity>::Q,
        >,

        requires
            Self::admits(old(self).levels(), level_update),
        ensures
            Self::ordered(final(self).levels()),
            exists|zero: <Self::Level as Quantity>::Q| #[trigger]
                is_zero(zero) && final(self).levels() == Self::processed(
                    old(self).levels(),
                    level_update,
                    zero,
                ),
    {
        let ghost before = self.levels();
        proof {
            Self::lemma_processed(before, level_update, arbitrary());
        }
        let (key, entry) = Self::entry(self, &level_update);
        let operator = S::operation(&level_update, entry);
        proof {
            let found = Self::located(before, level_update).1;
            let zero = choose|zero: <Self::Level as Quantity>::Q| #[trigger]
                is_zero(zero) && operator == S::decision(
                    occupied(level_update, found),
                    resulting(S::aggregates(), level_update, found) == zero,
                );
            Self::lemma_processed(before, level_update, zero);
            self.lemma_process(level_update, zero);
        }
        self.digest_operation(operator, &key, level_update);
    }

    /// Carries `operator` out at `key`.
    fn digest_operation(&mut self, operator: S, key: &Self::Key, level_update: Self::Level)
        requires
            Self::digestible(old(self).levels(), operator, *key, level_update),
        ensures
            final(self).levels() == Self::digested(
                old(self).levels(),
                operator,
                *key,
                level_update,
            ),
    ;
}

/// The levels after each of `level_updates` was processed, the first one first.
pub open spec fn processed_all<S: Strategy, T: Update<S>>(
    levels: Seq<T::Level>,
    level_updates: Seq<T::Level>,
    zero: <T::Level as Quantity>::Q,
) -> Seq<T::Level>
    decreases level_updates.len(),
{
    if level_updates.len() == 0 {
        levels
    } else {
        processed_all::<S, T>(
            T::processed(levels, level_updates[0], zero),
            level_updates.drop_first(),
            zero,
        )
    }
}

/// Each of `level_updates` can be processed when its turn comes.
pub open spec fn admits_all<S: Strategy, T: Update<S>>(
    levels: Seq<T::Level>,
    level_updates: Seq<T::Level>,
    zero: <T::Level as Quantity>::Q,
) -> bool
    decreases level_updates.len(),
{
    level_updates.len() > 0 ==> {
        &&& T::admits(levels, level_updates[0])
        &&& admits_all::<S, T>(
            T::processed(levels, level_updates[0], zero),
            level_updates.drop_first(),
            zero,
        )
    }
}

/// The order invariant: whatever levels are processed one after the other, a ladder that
/// was in order is in order afterwards. For the bids that says that the prices increase
/// strictly from the front to the back, for the asks that they decrease strictly, and
/// for both that no price occurs twice.
pub proof fn lemma_processed_all_ordered<S: Strategy, T: Update<S>>(
    levels: Seq<T::Level>,
    level_updates: Seq<T::Level>,
    zero: <T::Level as Quantity>::Q,
) where
    <T::Level as Price>::P: PartialOrd,
    <T::Level as Quantity>::Q: PartialEq + Default + Add<Output = <T::Level as Quantity>::Q>,

    requires
        T::ordered(levels),
        admits_all::<S, T>(levels, level_updates, zero),
    ensures
        T::ordered(processed_all::<S, T>(levels, level_updates, zero)),
    decreases level_updates.len(),
{
    if level_updates.len() > 0 {
        T::lemma_processed(levels, level_updates[0], zero);
        lemma_processed_all_ordered::<S, T>(
            T::processed(levels, level_updates[0], zero),
            level_updates.drop_first(),
            zero,
        );
    }
}

impl ReplaceOrRemove {
    /// Zero eliminates: after a level with quantity zero was processed, nothing rests
    /// at its price, whether or not something rested there before.
    pub proof fn lemma_zero_eliminates<P: PartialOrd, Q: Add<Output = Q>>(
        ascending: bool,
        levels: Seq<PriceAndQuantity<P, Q>>,
        level_update: PriceAndQuantity<P, Q>,
        zero: Q,
    )
        requires
            price_laws::<P>(),
            in_order(ascending, levels),
            level_update.1 == zero,
        ensures
            !quotes(Self::processed(ascending, levels, level_update, zero), level_update.0),
    {
        let key = slot(ascending, levels, level_update.0);
        let after = Self::processed(ascending, levels, level_update, zero);
        lemma_slot_parts(ascending, levels, level_update.0);
        lemma_quoted_at_slot(ascending, levels, level_update.0);
        if quotes(after, level_update.0) {
            let i = choose|i: int| 0 <= i < after.len() && #[trigger] after[i].0 == level_update.0;
            if occupied(level_update, existing(ascending, levels, level_update.0)) {
                let from = if i < key {
                    i
                } else {
                    i + 1
                };
                assert(after[i] == levels[from]);
                lemma_price_rests_at_slot(ascending, levels, level_update.0, from);
            } else {
                assert(levels[i].0 == level_update.0);
            }
        }
    }

    /// What rests after a level was processed: at its price the incoming quantity, or
    /// nothing where that is zero; at every other price what rested there before.
    pub proof fn lemma_processed_rests<P: PartialOrd, Q: Add<Output = Q>>(
        ascending: bool,
        levels: Seq<PriceAndQuantity<P, Q>>,
        level_update: PriceAndQuantity<P, Q>,
        zero: Q,
    )
        requires
            price_laws::<P>(),
            in_order(ascending, levels),
        ensures
            rests(Self::processed(ascending, levels, level_update, zero), level_update.0)
                == if level_update.1 == zero {
                None
            } else {
                Some(level_update.1)
            },
            forall|price: P|
                price != level_update.0 ==> #[trigger] rests(
                    Self::processed(ascending, levels, level_update, zero),
                    price,
                ) == rests(levels, price),
    {
        let after = Self::processed(ascending, levels, level_update, zero);
        Self::lemma_processed(ascending, levels, level_update, zero);
        lemma_slot_parts(ascending, levels, level_update.0);
        lemma_quoted_at_slot(ascending, levels, level_update.0);
        let key = slot(ascending, levels, level_update.0);
        if level_update.1 == zero {
            Self::lemma_zero_eliminates(ascending, levels, level_update, zero);
        } else {
            assert(after[key] == level_update);
            lemma_rests_at(ascending, after, key);
        }
        assert forall|price: P| price != level_update.0 implies #[trigger] rests(after, price)
            == rests(levels, price) by {
            lemma_rests_elsewhere(ascending, levels, after, key, level_update.0, price);
        }
    }
}

impl AggregateOrCreate {
    /// A net of zero removes: where a level rests at the incoming price and the sum of
    /// its quantity and the incoming one is zero, processing takes that level out, and
    /// nothing rests at the price afterwards.
    pub proof fn lemma_net_zero_removes<P: PartialOrd, Q: Add<Output = Q>>(
        ascending: bool,
        levels: Seq<PriceAndQuantity<P, Q>>,
        new: PriceAndQuantity<P, Q>,
        zero: Q,
        i: int,
    )
        requires
            price_laws::<P>(),
            in_order(ascending, levels),
            0 <= i < levels.len(),
            levels[i].0 == new.0,
            levels[i].1.add_spec(new.1) == zero,
        ensures
            Self::processed(ascending, levels, new, zero) == levels.remove(i),
            !quotes(Self::processed(ascending, levels, new, zero), new.0),
    {
        lemma_price_rests_at_slot(ascending, levels, new.0, i);
        let after = levels.remove(i);
        if quotes(after, new.0) {
            let j = choose|j: int| 0 <= j < after.len() && #[trigger] after[j].0 == new.0;
            let from = if j < i {
                j
            } else {
                j + 1
            };
            assert(after[j] == levels[from]);
            lemma_price_rests_at_slot(ascending, levels, new.0, from);
        }
    }

    /// What rests after a level was processed: at its price the incoming quantity where
    /// nothing rested there, else the sum of what rested there and the incoming
    /// quantity, or nothing where that sum is zero; at every other price what rested
    /// there before.
    pub proof fn lemma_processed_rests<P: PartialOrd, Q: Add<Output = Q>>(
        ascending: bool,
        levels: Seq<PriceAndQuantity<P, Q>>,
        new: PriceAndQuantity<P, Q>,
        zero: Q,
    )
        requires
            price_laws::<P>(),
            in_order(ascending, levels),
        ensures
            rests(Self::processed(ascending, levels, new, zero), new.0) == match rests(
                levels,
                new.0,
            ) {
                None => Some(new.1),
                Some(quantity) => if quantity.add_spec(new.1) == zero {
                    None
                } else {
                    Some(quantity.add_spec(new.1))
                },
            },
            forall|price: P|
                price != new.0 ==> #[trigger] rests(
                    Self::processed(ascending, levels, new, zero),
                    price,
                ) == rests(levels, price),
    {
        let after = Self::processed(ascending, levels, new, zero);
        Self::lemma_processed(ascending, levels, new, zero);
        lemma_slot_parts(ascending, levels, new.0);
        lemma_quoted_at_slot(ascending, levels, new.0);
        let key = slot(ascending, levels, new.0);
        if occupied(new, existing(ascending, levels, new.0)) {
            lemma_rests_at(ascending, levels, key);
            if levels[key].1.add_spec(new.1) == zero {
                Self::lemma_net_zero_removes(ascending, levels, new, zero, key);
            } else {
                assert(after[key] == levels[key].combined(new));
                lemma_rests_at(ascending, after, key);
            }
        } else {
            assert(after[key] == new);
            lemma_rests_at(ascending, after, key);
        }
        assert forall|price: P| price != new.0 implies #[trigger] rests(after, price) == rests(
            levels,
            price,
        ) by {
            lemma_rests_elsewhere(ascending, levels, after, key, new.0, price);
        }
    }
}

/// Processes the levels of `level_updates` one after the other, the first one first.
pub fn process_all<S: Strategy, T: Update<S>>(ladder: &mut T, level_updates: &Vec<T::Level>) where
    T::Level: Copy,
    <T::Level as Price>::P: PartialOrd,
    <T::Level as Quantity>::Q: Default + PartialEq + Copy + Add<Output = <T::Level as Quantity>::Q>,

    requires
        quantity_laws::<<T::Level as Quantity>::Q>(),
        T::ordered(old(ladder).levels()),
        forall|zero: <T::Level as Quantity>::Q| #[trigger]
            is_zero(zero) ==> admits_all::<S, T>(old(ladder).levels(), level_updates@, zero),
    ensures
        T::ordered(final(ladder).levels()),
        exists|zero: <T::Level as Quantity>::Q| #[trigger]
            is_zero(zero) && final(ladder).levels() == processed_all::<S, T>(
                old(ladder).levels(),
                level_updates@,
                zero,
            ),
{
    let zero = <T::Level as Quantity>::Q::default();
    assert(is_zero(zero));
    assert(level_updates@.skip(0) == level_updates@);
    let mut done: usize = 0;
    while done < level_updates.len()
        invariant
            done <= level_updates.len(),
            is_zero(zero),
            quantity_laws::<<T::Level as Quantity>::Q>(),
            T::ordered(ladder.levels()),
            admits_all::<S, T>(ladder.levels(), level_updates@.skip(done as int), zero),
            processed_all::<S, T>(ladder.levels(), level_updates@.skip(done as int), zero)
                == processed_all::<S, T>(old(ladder).levels(), level_updates@, zero),
        decreases level_updates.len() - done,
    {
        let level_update = level_updates[done];
        proof {
            let rest = level_updates@.skip(done as int);
            assert(rest[0] == level_update);
            assert(rest.drop_first() == level_updates@.skip(done + 1));
        }
        ladder.process(level_update);
        done = done + 1;
    }
    proof {
        assert(level_updates@.skip(done as int).len() == 0);
    }
}

} // verus!
