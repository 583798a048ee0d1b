//! What the book asks of the price and quantity types it is instantiated with.
//!
//! The ladders are generic: a price is any type with `<` and `==`, a quantity any type
//! with `+`, `==` and a default value that serves as zero. Their guarantees hold for
//! types whose operators behave as stated here; the primitive integers do.
//!
//! The zero of a quantity type is what `Q::default()` returns. A function that compares
//! with zero calls it, and says of its result what holds for the zero it got: its
//! contract has the form `exists|zero| is_zero(zero) && ...`. For a type whose default
//! is known, such as an integer, that names the zero.

use core::ops::Add;
use vstd::prelude::*;
use vstd::std_specs::cmp::PartialEqSpec;
use vstd::std_specs::cmp::PartialOrdSpec;
use vstd::std_specs::ops::AddSpec;

verus! {

/// `a < b` in the order that `P` implements.
pub open spec fn before<P: PartialOrd>(a: P, b: P) -> bool {
    a.partial_cmp_spec(&b) == Some(core::cmp::Ordering::Less)
}

/// `a > b` in the order that `P` implements.
pub open spec fn after<P: PartialOrd>(a: P, b: P) -> bool {
    a.partial_cmp_spec(&b) == Some(core::cmp::Ordering::Greater)
}

/// `==` on `T` computes equality of values.
pub open spec fn eq_is_equality<T: PartialEq>() -> bool {
    &&& T::obeys_eq_spec()
    &&& forall|a: T, b: T| #[trigger] a.eq_spec(&b) <==> a == b
}

/// The comparison operators of `P` compute a strict total order on its values:
/// of two different prices exactly one is before the other, and `before` is transitive.
pub open spec fn price_laws<P: PartialOrd>() -> bool {
    &&& eq_is_equality::<P>()
    &&& P::obeys_partial_cmp_spec()
    &&& forall|a: P, b: P| #[trigger] after(a, b) <==> before(b, a)
    &&& forall|a: P, b: P| #[trigger] before(a, b) ==> !before(b, a)
    &&& forall|a: P, b: P| a != b ==> #[trigger] before(a, b) || before(b, a)
    &&& forall|a: P, b: P, c: P| #[trigger] before(a, b) && #[trigger] before(b, c) ==> before(a, c)
}

/// Adding two quantities gives the same sum in either order.
pub open spec fn addition_commutes<Q: Add<Output = Q>>() -> bool {
    forall|a: Q, b: Q| #[trigger] a.add_spec(b) == b.add_spec(a)
}

/// `zero` is a zero of `Q`: a value that `Q::default()` returns. For a primitive
/// integer type that is `0` and nothing else.
pub open spec fn is_zero<Q: Default>(zero: Q) -> bool {
    call_ensures(Q::default, (), zero)
}

/// `==` on `Q` computes equality of values, `+` computes `add_spec`, and `Q` has one
/// zero: `Q::default()` returns the same value whenever it is called.
pub open spec fn quantity_laws<Q: PartialEq + Default + Add<Output = Q>>() -> bool {
    &&& eq_is_equality::<Q>()
    &&& Q::obeys_add_spec()
    &&& forall|a: Q, b: Q| #[trigger] is_zero(a) && #[trigger] is_zero(b) ==> a == b
}

/// The unsigned integers obey the laws of prices and of quantities, their addition
/// commutes, and no value but `0` is a zero of theirs.
pub proof fn lemma_unsigned_integers_obey_the_laws()
    ensures
        price_laws::<u8>() && quantity_laws::<u8>() && addition_commutes::<u8>(),
        price_laws::<u16>() && quantity_laws::<u16>() && addition_commutes::<u16>(),
        price_laws::<u32>() && quantity_laws::<u32>() && addition_commutes::<u32>(),
        price_laws::<u64>() && quantity_laws::<u64>() && addition_commutes::<u64>(),
        price_laws::<u128>() && quantity_laws::<u128>() && addition_commutes::<u128>(),
        price_laws::<usize>() && quantity_laws::<usize>() && addition_commutes::<usize>(),
        forall|zero: u8| #[trigger] is_zero(zero) ==> zero == 0,
        forall|zero: u16| #[trigger] is_zero(zero) ==> zero == 0,
        forall|zero: u32| #[trigger] is_zero(zero) ==> zero == 0,
        forall|zero: u64| #[trigger] is_zero(zero) ==> zero == 0,
        forall|zero: u128| #[trigger] is_zero(zero) ==> zero == 0,
        forall|zero: usize| #[trigger] is_zero(zero) ==> zero == 0,
{
}

/// The signed integers obey the laws of prices and of quantities, their addition
/// commutes, and no value but `0` is a zero of theirs.
pub proof fn lemma_signed_integers_obey_the_laws()
    ensures
        price_laws::<i8>() && quantity_laws::<i8>() && addition_commutes::<i8>(),
        price_laws::<i16>() && quantity_laws::<i16>() && addition_commutes::<i16>(),
        price_laws::<i32>() && quantity_laws::<i32>() && addition_commutes::<i32>(),
        price_laws::<i64>() && quantity_laws::<i64>() && addition_commutes::<i64>(),
        price_laws::<i128>() && quantity_laws::<i128>() && addition_commutes::<i128>(),
        price_laws::<isize>() && quantity_laws::<isize>() && addition_commutes::<isize>(),
        forall|zero: i8| #[trigger] is_zero(zero) ==> zero == 0,
        forall|zero: i16| #[trigger] is_zero(zero) ==> zero == 0,
        forall|zero: i32| #[trigger] is_zero(zero) ==> zero == 0,
        forall|zero: i64| #[trigger] is_zero(zero) ==> zero == 0,
        forall|zero: i128| #[trigger] is_zero(zero) ==> zero == 0,
        forall|zero: isize| #[trigger] is_zero(zero) ==> zero == 0,
{
}

} // verus!
