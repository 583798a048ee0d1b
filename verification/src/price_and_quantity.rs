//! A price level: how much rests at one price.

use crate::laws::addition_commutes;
use core::ops::Add;
use vstd::prelude::*;
use vstd::std_specs::ops::AddSpec;
use vstd::std_specs::ops::AddSpecImpl;

verus! {

/// A level of the book: a price and the quantity resting at it.
///
/// Careful: `+` on levels is not commutative. It adds the quantities and keeps the
/// price of the right-hand side. Adding the quantities of two different prices is not a
/// sound operation: the ladders add two levels only after they found the prices equal.
#[derive(Copy, Clone, Debug, PartialEq, Default)]
pub struct PriceAndQuantity<P, Q>(pub P, pub Q);

/// Something that has a price.
pub trait Price {
    type P;

    /// The price.
    spec fn price(&self) -> Self::P;

    fn to_ref(&self) -> (price: &Self::P)
        ensures
            *price == self.price(),
    ;
}

/// Something that has a quantity.
pub trait Quantity {
    type Q;

    /// The quantity.
    spec fn quantity(&self) -> Self::Q;

    fn to_ref(&self) -> (quantity: &Self::Q)
        ensures
            *quantity == self.quantity(),
    ;
}

impl<P, Q> Price for PriceAndQuantity<P, Q> {
    type P = P;

    open spec fn price(&self) -> P {
        self.0
    }

    fn to_ref(&self) -> (price: &P) {
        &self.0
    }
}

impl<P, Q> Quantity for PriceAndQuantity<P, Q> {
    type Q = Q;

    open spec fn quantity(&self) -> Q {
        self.1
    }

    fn to_ref(&self) -> (quantity: &Q) {
        &self.1
    }
}

impl<P, Q: Add<Output = Q>> PriceAndQuantity<P, Q> {
    /// The level that results when `incoming` is combined into `self`: the price of
    /// `incoming`, and the two quantities added.
    pub open spec fn combined(self, incoming: Self) -> Self {
        PriceAndQuantity(incoming.0, self.1.add_spec(incoming.1))
    }

    /// Combines an incoming level into this one. The price is the incoming one, so the
    /// order of the operands matters.
    pub fn combine(self, incoming: Self) -> (level: Self)
        requires
            Q::obeys_add_spec(),
            self.1.add_req(incoming.1),
        ensures
            level == self.combined(incoming),
    {
        PriceAndQuantity(incoming.0, self.1 + incoming.1)
    }
}

/// Combining is not commutative: the two orders of combining two levels give the price
/// of the one or of the other, so that the results differ where the prices do. They
/// agree in the quantity where the addition of quantities is commutative.
pub proof fn lemma_combining_is_not_commutative<P, Q: Add<Output = Q>>(
    a: PriceAndQuantity<P, Q>,
    b: PriceAndQuantity<P, Q>,
)
    ensures
        a.combined(b).0 == b.0,
        b.combined(a).0 == a.0,
        a.0 != b.0 ==> a.combined(b) != b.combined(a),
        addition_commutes::<Q>() ==> a.combined(b).1 == b.combined(a).1,
{
}

impl<P, Q: Add<Output = Q>> AddSpecImpl for PriceAndQuantity<P, Q> {
    open spec fn obeys_add_spec() -> bool {
        Q::obeys_add_spec()
    }

    open spec fn add_req(self, rhs: Self) -> bool {
        self.1.add_req(rhs.1)
    }

    open spec fn add_spec(self, rhs: Self) -> Self {
        self.combined(rhs)
    }
}

/// Not commutative: adds the quantities and keeps the price of `rhs`.
impl<P, Q: Add<Output = Q>> Add for PriceAndQuantity<P, Q> {
    type Output = Self;

    fn add(self, rhs: Self) -> (level: Self) {
        PriceAndQuantity(rhs.0, self.1 + rhs.1)
    }
}

} // verus!
