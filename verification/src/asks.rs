//! The asks of a book: the levels at which sellers offer.

use crate::ladder::existing;
use crate::ladder::in_order;
use crate::ladder::slot;
use crate::laws::is_zero;
use crate::laws::price_laws;
use crate::laws::quantity_laws;
use crate::ops::addable;
use crate::ops::admits_all;
use crate::ops::find;
use crate::ops::held;
use crate::ops::occupied;
use crate::ops::resulting;
use crate::ops::update_strategies::AggregateOrCreate;
use crate::ops::update_strategies::ReplaceOrRemove;
use crate::ops::PartitionPredicate;
use crate::ops::Strategy;
use crate::ops::Update;
use crate::price_and_quantity::PriceAndQuantity;
use core::ops::Add;
use vstd::prelude::*;
use vstd::std_specs::convert::FromSpecImpl;

verus! {

/// The ask side of a book. Front to back the prices decrease: the lowest ask, the best
/// one, is the last level.
#[derive(PartialEq, Clone, Debug)]
pub struct Asks<P, Q>(pub Vec<PriceAndQuantity<P, Q>>);

impl<P, Q> View for Asks<P, Q> {
    type V = Seq<PriceAndQuantity<P, Q>>;

    open spec fn view(&self) -> Seq<PriceAndQuantity<P, Q>> {
        self.0@
    }
}

impl<P, Q> Asks<P, Q> {
    /// A ladder without levels.
    pub fn new() -> (asks: Self)
        ensures
            asks@ == Seq::<PriceAndQuantity<P, Q>>::empty(),
    {
        Asks(Vec::new())
    }
}

impl<P, Q> Default for Asks<P, Q> {
    fn default() -> (asks: Self)
        ensures
            asks@ == Seq::<PriceAndQuantity<P, Q>>::empty(),
    {
        Asks(Vec::new())
    }
}

impl<P, Q> FromSpecImpl<Vec<PriceAndQuantity<P, Q>>> for Asks<P, Q> {
    open spec fn obeys_from_spec() -> bool {
        true
    }

    open spec fn from_spec(value: Vec<PriceAndQuantity<P, Q>>) -> Self {
        Asks(value)
    }
}

/// Takes the levels as they come: the ladder is in order where the levels are.
impl<P, Q> From<Vec<PriceAndQuantity<P, Q>>> for Asks<P, Q> {
    fn from(value: Vec<PriceAndQuantity<P, Q>>) -> (asks: Self) {
        Asks(value)
    }
}

impl<P, Q> Asks<P, Q> where
    P: Clone + PartialOrd,
    Q: Clone + Add<Output = Q> + PartialEq + Default + Copy,
 {
    /// Assimilates `ask` into the ladder under the strategy `S`.
    pub fn add_ask<S>(&mut self, ask: PriceAndQuantity<P, Q>) where
        S: Strategy,
        Self: Update<S, Level = PriceAndQuantity<P, Q>>,

        requires
            <Self as Update<S>>::admits(<Self as Update<S>>::levels(old(self)), ask),
        ensures
            <Self as Update<S>>::ordered(<Self as Update<S>>::levels(final(self))),
            exists|zero: Q| #[trigger]
                is_zero(zero) && <Self as Update<S>>::levels(final(self)) == <Self as Update<
                    S,
                >>::processed(<Self as Update<S>>::levels(old(self)), ask, zero),
    {
        Update::<S>::process(self, ask)
    }
}

impl<P, Q> PartitionPredicate for Asks<P, Q> {
    open spec fn ascending() -> bool {
        false
    }

    fn partition_predicate<T: PartialOrd>(lhs: &T, rhs: &T) -> (in_front: bool) {
        rhs < lhs
    }
}

/// The asks under Replace-or-Remove. The search is `find`, the operations are those of
/// the strategy and the proofs are its `lemma_processed`. The assertions name the
/// functions of this impl, which is what makes the verifier unfold them.
impl<P: PartialOrd + Copy, Q: Add<Output = Q> + PartialEq + Default + Copy> Update<
    ReplaceOrRemove,
> for Asks<P, Q> {
    type Level = PriceAndQuantity<P, Q>;

    type Key = usize;

    open spec fn levels(&self) -> Seq<PriceAndQuantity<P, Q>> {
        self@
    }

    open spec fn ordered(levels: Seq<PriceAndQuantity<P, Q>>) -> bool {
        price_laws::<P>() && in_order(false, levels)
    }

    open spec fn admits(
        levels: Seq<PriceAndQuantity<P, Q>>,
        level_update: PriceAndQuantity<P, Q>,
    ) -> bool {
        &&& price_laws::<P>()
        &&& quantity_laws::<Q>()
        &&& in_order(false, levels)
    }

    open spec fn located(
        levels: Seq<PriceAndQuantity<P, Q>>,
        level_update: PriceAndQuantity<P, Q>,
    ) -> (usize, Option<PriceAndQuantity<P, Q>>) {
        (slot(false, levels, level_update.0) as usize, existing(false, levels, level_update.0))
    }

    open spec fn digestible(
        levels: Seq<PriceAndQuantity<P, Q>>,
        operator: ReplaceOrRemove,
        key: usize,
        level_update: PriceAndQuantity<P, Q>,
    ) -> bool {
        operator.digestible(levels, key as int)
    }

    open spec fn digested(
        levels: Seq<PriceAndQuantity<P, Q>>,
        operator: ReplaceOrRemove,
        key: usize,
        level_update: PriceAndQuantity<P, Q>,
    ) -> Seq<PriceAndQuantity<P, Q>> {
        operator.digested(levels, key as int, level_update)
    }

    open spec fn processed(
        levels: Seq<PriceAndQuantity<P, Q>>,
        level_update: PriceAndQuantity<P, Q>,
        zero: Q,
    ) -> Seq<PriceAndQuantity<P, Q>> {
        ReplaceOrRemove::processed(false, levels, level_update, zero)
    }

    proof fn lemma_processed(
        levels: Seq<PriceAndQuantity<P, Q>>,
        level_update: PriceAndQuantity<P, Q>,
        zero: Q,
    ) {
        ReplaceOrRemove::lemma_processed(false, levels, level_update, zero);
        let found = <Self as Update<ReplaceOrRemove>>::located(levels, level_update).1;
        assert(addable(ReplaceOrRemove::aggregates(), level_update, found));
        let after = <Self as Update<ReplaceOrRemove>>::processed(levels, level_update, zero);
        assert(<Self as Update<ReplaceOrRemove>>::ordered(after));
    }

    proof fn lemma_process(&self, level_update: PriceAndQuantity<P, Q>, zero: Q) {
        assert(self@.len() == self.0.len());
        ReplaceOrRemove::lemma_processed(false, self@, level_update, zero);
        let (key, found) = <Self as Update<ReplaceOrRemove>>::located(self@, level_update);
        let operator = ReplaceOrRemove::decision(
            occupied(level_update, found),
            resulting(ReplaceOrRemove::aggregates(), level_update, found) == zero,
        );
        let after = <Self as Update<ReplaceOrRemove>>::processed(self@, level_update, zero);
        assert(<Self as Update<ReplaceOrRemove>>::digestible(self@, operator, key, level_update));
        assert(<Self as Update<ReplaceOrRemove>>::digested(self@, operator, key, level_update)
            == after);
    }

    fn entry(&mut self, level_update: &PriceAndQuantity<P, Q>) -> (found: (
        usize,
        Option<&PriceAndQuantity<P, Q>>,
    )) {
        let found = find::<Self, P, Q>(&self.0, level_update);
        assert(<Self as Update<ReplaceOrRemove>>::located(self@, *level_update) == (
            found.0,
            held(found.1),
        ));
        found
    }

    fn digest_operation(
        &mut self,
        operator: ReplaceOrRemove,
        key: &usize,
        level_update: PriceAndQuantity<P, Q>,
    ) {
        let ghost levels = self@;
        assert(<Self as Update<ReplaceOrRemove>>::digestible(
            levels,
            operator,
            *key,
            level_update,
        ));
        operator.digest(&mut self.0, *key, level_update);
        assert(self@ == <Self as Update<ReplaceOrRemove>>::digested(
            levels,
            operator,
            *key,
            level_update,
        ));
    }
}

/// The asks under Aggregate-or-Create, in the same way.
impl<P: PartialOrd + Copy, Q: Add<Output = Q> + PartialEq + Default + Copy> Update<
    AggregateOrCreate,
> for Asks<P, Q> {
    type Level = PriceAndQuantity<P, Q>;

    type Key = usize;

    open spec fn levels(&self) -> Seq<PriceAndQuantity<P, Q>> {
        self@
    }

    open spec fn ordered(levels: Seq<PriceAndQuantity<P, Q>>) -> bool {
        price_laws::<P>() && in_order(false, levels)
    }

    open spec fn admits(
        levels: Seq<PriceAndQuantity<P, Q>>,
        level_update: PriceAndQuantity<P, Q>,
    ) -> bool {
        &&& price_laws::<P>()
        &&& quantity_laws::<Q>()
        &&& in_order(false, levels)
        &&& addable(true, level_update, existing(false, levels, level_update.0))
    }

    open spec fn located(
        levels: Seq<PriceAndQuantity<P, Q>>,
        level_update: PriceAndQuantity<P, Q>,
    ) -> (usize, Option<PriceAndQuantity<P, Q>>) {
        (slot(false, levels, level_update.0) as usize, existing(false, levels, level_update.0))
    }

    open spec fn digestible(
        levels: Seq<PriceAndQuantity<P, Q>>,
        operator: AggregateOrCreate,
        key: usize,
        level_update: PriceAndQuantity<P, Q>,
    ) -> bool {
        operator.digestible(levels, key as int, level_update)
    }

    open spec fn digested(
        levels: Seq<PriceAndQuantity<P, Q>>,
        operator: AggregateOrCreate,
        key: usize,
        level_update: PriceAndQuantity<P, Q>,
    ) -> Seq<PriceAndQuantity<P, Q>> {
        operator.digested(levels, key as int, level_update)
    }

    open spec fn processed(
        levels: Seq<PriceAndQuantity<P, Q>>,
        level_update: PriceAndQuantity<P, Q>,
        zero: Q,
    ) -> Seq<PriceAndQuantity<P, Q>> {
        AggregateOrCreate::processed(false, levels, level_update, zero)
    }

    proof fn lemma_processed(
        levels: Seq<PriceAndQuantity<P, Q>>,
        level_update: PriceAndQuantity<P, Q>,
        zero: Q,
    ) {
        AggregateOrCreate::lemma_processed(false, levels, level_update, zero);
        let found = <Self as Update<AggregateOrCreate>>::located(levels, level_update).1;
        assert(addable(AggregateOrCreate::aggregates(), level_update, found));
        let after = <Self as Update<AggregateOrCreate>>::processed(levels, level_update, zero);
        assert(<Self as Update<AggregateOrCreate>>::ordered(after));
    }

    proof fn lemma_process(&self, level_update: PriceAndQuantity<P, Q>, zero: Q) {
        assert(self@.len() == self.0.len());
        AggregateOrCreate::lemma_processed(false, self@, level_update, zero);
        let (key, found) = <Self as Update<AggregateOrCreate>>::located(self@, level_update);
        let operator = AggregateOrCreate::decision(
            occupied(level_update, found),
            resulting(AggregateOrCreate::aggregates(), level_update, found) == zero,
        );
        let after = <Self as Update<AggregateOrCreate>>::processed(self@, level_update, zero);
        assert(<Self as Update<AggregateOrCreate>>::digestible(self@, operator, key, level_update));
        assert(<Self as Update<AggregateOrCreate>>::digested(self@, operator, key, level_update)
            == after);
    }

    fn entry(&mut self, level_update: &PriceAndQuantity<P, Q>) -> (found: (
        usize,
        Option<&PriceAndQuantity<P, Q>>,
    )) {
        let found = find::<Self, P, Q>(&self.0, level_update);
        assert(<Self as Update<AggregateOrCreate>>::located(self@, *level_update) == (
            found.0,
            held(found.1),
        ));
        found
    }

    fn digest_operation(
        &mut self,
        operator: AggregateOrCreate,
        key: &usize,
        level_update: PriceAndQuantity<P, Q>,
    ) {
        let ghost levels = self@;
        assert(<Self as Update<AggregateOrCreate>>::digestible(
            levels,
            operator,
            *key,
            level_update,
        ));
        operator.digest(&mut self.0, *key, level_update);
        assert(self@ == <Self as Update<AggregateOrCreate>>::digested(
            levels,
            operator,
            *key,
            level_update,
        ));
    }
}

/// Under Replace-or-Remove a ladder in order admits whatever levels come, one after the
/// other.
pub proof fn lemma_asks_admit_all<P, Q>(
    levels: Seq<PriceAndQuantity<P, Q>>,
    level_updates: Seq<PriceAndQuantity<P, Q>>,
    zero: Q,
) where P: PartialOrd + Copy, Q: Add<Output = Q> + PartialEq + Default + Copy
    requires
        price_laws::<P>(),
        quantity_laws::<Q>(),
        in_order(false, levels),
    ensures
        admits_all::<ReplaceOrRemove, Asks<P, Q>>(levels, level_updates, zero),
    decreases level_updates.len(),
{
    if level_updates.len() > 0 {
        ReplaceOrRemove::lemma_processed(false, levels, level_updates[0], zero);
        lemma_asks_admit_all::<P, Q>(
            ReplaceOrRemove::processed(false, levels, level_updates[0], zero),
            level_updates.drop_first(),
            zero,
        );
    }
}

} // verus!
