//! What it means for one side of the book to be in order, and where a price belongs in it.
//!
//! A ladder is a sequence of levels. Front to back the prices of the bids increase and
//! those of the asks decrease, so the best price of either side is at the back. No two
//! levels of a ladder have the same price.

use crate::laws::before;
use crate::laws::price_laws;
use crate::price_and_quantity::PriceAndQuantity;
use vstd::prelude::*;

verus! {

/// A level at price `lhs` stands in front of one at price `rhs`: `lhs` is the lower
/// price in an ascending ladder, the higher one in a descending ladder.
pub open spec fn ahead<P: PartialOrd>(ascending: bool, lhs: P, rhs: P) -> bool {
    if ascending {
        before(lhs, rhs)
    } else {
        before(rhs, lhs)
    }
}

/// The ladder is in order: each level stands in front of all that follow it. The prices
/// are then strictly monotonic, and no price occurs twice.
pub open spec fn in_order<P: PartialOrd, Q>(
    ascending: bool,
    levels: Seq<PriceAndQuantity<P, Q>>,
) -> bool {
    forall|i: int, j: int|
        0 <= i < j < levels.len() ==> ahead(ascending, #[trigger] levels[i].0, #[trigger] levels[j].0)
}

/// `index` is the partition point of the ladder for `price`: the levels before it stand
/// in front of `price`, the levels from it on do not.
pub open spec fn parts_at<P: PartialOrd, Q>(
    ascending: bool,
    levels: Seq<PriceAndQuantity<P, Q>>,
    price: P,
    index: int,
) -> bool {
    &&& 0 <= index <= levels.len()
    &&& forall|i: int| 0 <= i < index ==> ahead(ascending, #[trigger] levels[i].0, price)
    &&& forall|i: int| index <= i < levels.len() ==> !ahead(ascending, #[trigger] levels[i].0, price)
}

/// The slot of `price`: the number of levels at the front of the ladder that stand in
/// front of `price`. In a ladder that is in order this is the partition point, the one
/// index at which a level of that price can rest.
pub open spec fn slot<P: PartialOrd, Q>(
    ascending: bool,
    levels: Seq<PriceAndQuantity<P, Q>>,
    price: P,
) -> int
    decreases levels.len(),
{
    if levels.len() > 0 && ahead(ascending, levels[0].0, price) {
        1 + slot(ascending, levels.drop_first(), price)
    } else {
        0
    }
}

/// The existing level of `price`: the level at the slot of `price`, if the slot is not
/// past the end and the level there rests at `price`. A level of another price at the
/// slot is not it.
pub open spec fn existing<P: PartialOrd, Q>(
    ascending: bool,
    levels: Seq<PriceAndQuantity<P, Q>>,
    price: P,
) -> Option<PriceAndQuantity<P, Q>> {
    let key = slot(ascending, levels, price);
    if key < levels.len() && levels[key].0 == price {
        Some(levels[key])
    } else {
        None
    }
}

/// Some level of the ladder rests at `price`.
pub open spec fn quotes<P, Q>(levels: Seq<PriceAndQuantity<P, Q>>, price: P) -> bool {
    exists|i: int| 0 <= i < levels.len() && #[trigger] levels[i].0 == price
}

/// The quantity that rests at `price`: that of the level of the ladder at that price, if
/// there is one.
pub open spec fn rests<P, Q>(levels: Seq<PriceAndQuantity<P, Q>>, price: P) -> Option<Q> {
    if quotes(levels, price) {
        Some(levels[choose|i: int| 0 <= i < levels.len() && #[trigger] levels[i].0 == price].1)
    } else {
        None
    }
}

/// In a ladder that is in order the prices are strictly monotonic, increasing in an
/// ascending ladder and decreasing in a descending one, and no price occurs twice.
pub proof fn lemma_in_order_is_strict<P: PartialOrd, Q>(
    ascending: bool,
    levels: Seq<PriceAndQuantity<P, Q>>,
)
    requires
        price_laws::<P>(),
        in_order(ascending, levels),
    ensures
        forall|i: int, j: int|
            0 <= i < j < levels.len() ==> if ascending {
                before(#[trigger] levels[i].0, #[trigger] levels[j].0)
            } else {
                before(levels[j].0, levels[i].0)
            },
        forall|i: int, j: int|
            0 <= i < levels.len() && 0 <= j < levels.len() && i != j ==> #[trigger] levels[i].0
                != #[trigger] levels[j].0,
{
    assert forall|i: int, j: int|
        0 <= i < levels.len() && 0 <= j < levels.len() && i != j implies #[trigger] levels[i].0
        != #[trigger] levels[j].0 by {
        if i < j {
            assert(ahead(ascending, levels[i].0, levels[j].0));
        } else {
            assert(ahead(ascending, levels[j].0, levels[i].0));
        }
    }
}

/// In a ladder that is in order, the quantity that rests at the price of a level is the
/// quantity of that level.
pub proof fn lemma_rests_at<P: PartialOrd, Q>(
    ascending: bool,
    levels: Seq<PriceAndQuantity<P, Q>>,
    i: int,
)
    requires
        price_laws::<P>(),
        in_order(ascending, levels),
        0 <= i < levels.len(),
    ensures
        rests(levels, levels[i].0) == Some(levels[i].1),
{
    let price = levels[i].0;
    let chosen = choose|k: int| 0 <= k < levels.len() && #[trigger] levels[k].0 == price;
    lemma_price_rests_at_slot(ascending, levels, price, i);
    lemma_price_rests_at_slot(ascending, levels, price, chosen);
}

/// Where a ladder changes at one index only, by a level of price `changed` that is put
/// there, taken away or overwritten, what rests at any other price stays.
pub proof fn lemma_rests_elsewhere<P: PartialOrd, Q>(
    ascending: bool,
    levels: Seq<PriceAndQuantity<P, Q>>,
    after: Seq<PriceAndQuantity<P, Q>>,
    key: int,
    changed: P,
    price: P,
)
    requires
        price_laws::<P>(),
        in_order(ascending, levels),
        in_order(ascending, after),
        price != changed,
        ({
            ||| after == levels
            ||| 0 <= key < levels.len() && levels[key].0 == changed && after == levels.remove(key)
            ||| 0 <= key <= levels.len() && after.len() == levels.len() + 1 && after[key].0
                == changed && after == levels.insert(key, after[key])
            ||| 0 <= key < levels.len() && levels[key].0 == changed && after.len() == levels.len()
                && after[key].0 == changed && after == levels.update(key, after[key])
        }),
    ensures
        rests(after, price) == rests(levels, price),
{
    if after != levels {
        let removes = 0 <= key < levels.len() && after == levels.remove(key);
        let inserts = 0 <= key <= levels.len() && after.len() == levels.len() + 1 && after
            == levels.insert(key, after[key]);
        if quotes(levels, price) {
            let i = choose|i: int| 0 <= i < levels.len() && #[trigger] levels[i].0 == price;
            let to = if removes && i > key {
                i - 1
            } else if inserts && i >= key {
                i + 1
            } else {
                i
            };
            assert(after[to] == levels[i]);
            lemma_rests_at(ascending, levels, i);
            lemma_rests_at(ascending, after, to);
        } else if quotes(after, price) {
            let j = choose|j: int| 0 <= j < after.len() && #[trigger] after[j].0 == price;
            let from = if removes && j >= key {
                j + 1
            } else if inserts && j > key {
                j - 1
            } else {
                j
            };
            assert(levels[from] == after[j]);
        }
    }
}

/// In a ladder that is in order, the slot of a price is its partition point.
pub proof fn lemma_slot_parts<P: PartialOrd, Q>(
    ascending: bool,
    levels: Seq<PriceAndQuantity<P, Q>>,
    price: P,
)
    requires
        price_laws::<P>(),
        in_order(ascending, levels),
    ensures
        parts_at(ascending, levels, price, slot(ascending, levels, price)),
    decreases levels.len(),
{
    if levels.len() > 0 && ahead(ascending, levels[0].0, price) {
        let rest = levels.drop_first();
        assert forall|i: int, j: int| 0 <= i < j < rest.len() implies ahead(
            ascending,
            #[trigger] rest[i].0,
            #[trigger] rest[j].0,
        ) by {
            assert(rest[i] == levels[i + 1]);
            assert(rest[j] == levels[j + 1]);
        }
        lemma_slot_parts(ascending, rest, price);
        let key = slot(ascending, levels, price);
        assert forall|i: int| 0 <= i < key implies ahead(ascending, #[trigger] levels[i].0, price) by {
            if i > 0 {
                assert(levels[i] == rest[i - 1]);
            }
        }
        assert forall|i: int| key <= i < levels.len() implies !ahead(
            ascending,
            #[trigger] levels[i].0,
            price,
        ) by {
            assert(levels[i] == rest[i - 1]);
        }
    } else {
        assert forall|i: int| 0 <= i < levels.len() implies !ahead(
            ascending,
            #[trigger] levels[i].0,
            price,
        ) by {
            if i > 0 {
                assert(ahead(ascending, levels[0].0, levels[i].0));
            }
        }
    }
}

/// A partition point of a ladder for a price is the slot of that price: there is one
/// partition point and no other.
pub proof fn lemma_parts_is_slot<P: PartialOrd, Q>(
    ascending: bool,
    levels: Seq<PriceAndQuantity<P, Q>>,
    price: P,
    index: int,
)
    requires
        price_laws::<P>(),
        in_order(ascending, levels),
        parts_at(ascending, levels, price, index),
    ensures
        index == slot(ascending, levels, price),
{
    lemma_slot_parts(ascending, levels, price);
    let key = slot(ascending, levels, price);
    if index < key {
        assert(ahead(ascending, levels[index].0, price));
    } else if key < index {
        assert(ahead(ascending, levels[key].0, price));
    }
}

/// In a ladder that is in order, a level at `price` can rest at the slot of `price` and
/// nowhere else.
pub proof fn lemma_price_rests_at_slot<P: PartialOrd, Q>(
    ascending: bool,
    levels: Seq<PriceAndQuantity<P, Q>>,
    price: P,
    i: int,
)
    requires
        price_laws::<P>(),
        in_order(ascending, levels),
        0 <= i < levels.len(),
        levels[i].0 == price,
    ensures
        i == slot(ascending, levels, price),
{
    lemma_slot_parts(ascending, levels, price);
    let key = slot(ascending, levels, price);
    if i < key {
        assert(ahead(ascending, levels[i].0, price));
    } else if key < i {
        assert(ahead(ascending, levels[key].0, levels[i].0));
    }
}

/// Overwriting a level with one of the same price keeps the ladder in order.
pub proof fn lemma_overwrite_keeps_order<P: PartialOrd, Q>(
    ascending: bool,
    levels: Seq<PriceAndQuantity<P, Q>>,
    key: int,
    level: PriceAndQuantity<P, Q>,
)
    requires
        in_order(ascending, levels),
        0 <= key < levels.len(),
        levels[key].0 == level.0,
    ensures
        in_order(ascending, levels.update(key, level)),
{
    let after = levels.update(key, level);
    assert forall|i: int, j: int| 0 <= i < j < after.len() implies ahead(
        ascending,
        #[trigger] after[i].0,
        #[trigger] after[j].0,
    ) by {
        assert(after[i].0 == levels[i].0);
        assert(after[j].0 == levels[j].0);
    }
}

/// Removing a level keeps the ladder in order.
pub proof fn lemma_remove_keeps_order<P: PartialOrd, Q>(
    ascending: bool,
    levels: Seq<PriceAndQuantity<P, Q>>,
    key: int,
)
    requires
        in_order(ascending, levels),
        0 <= key < levels.len(),
    ensures
        in_order(ascending, levels.remove(key)),
{
    let after = levels.remove(key);
    assert forall|i: int, j: int| 0 <= i < j < after.len() implies ahead(
        ascending,
        #[trigger] after[i].0,
        #[trigger] after[j].0,
    ) by {
        let from_i = if i < key { i } else { i + 1 };
        let from_j = if j < key { j } else { j + 1 };
        assert(after[i] == levels[from_i]);
        assert(after[j] == levels[from_j]);
    }
}

/// Inserting a level at the slot of its price keeps the ladder in order, provided that
/// no level rests at that price yet.
pub proof fn lemma_insert_keeps_order<P: PartialOrd, Q>(
    ascending: bool,
    levels: Seq<PriceAndQuantity<P, Q>>,
    level: PriceAndQuantity<P, Q>,
)
    requires
        price_laws::<P>(),
        in_order(ascending, levels),
        !quotes(levels, level.0),
    ensures
        in_order(ascending, levels.insert(slot(ascending, levels, level.0), level)),
{
    lemma_slot_parts(ascending, levels, level.0);
    let key = slot(ascending, levels, level.0);
    let after = levels.insert(key, level);
    assert forall|i: int, j: int| 0 <= i < j < after.len() implies ahead(
        ascending,
        #[trigger] after[i].0,
        #[trigger] after[j].0,
    ) by {
        if j == key {
            assert(after[i] == levels[i]);
        } else if i == key {
            assert(after[j] == levels[j - 1]);
            assert(!ahead(ascending, levels[j - 1].0, level.0));
            assert(levels[j - 1].0 != level.0);
        } else {
            let from_i = if i < key { i } else { i - 1 };
            let from_j = if j < key { j } else { j - 1 };
            assert(after[i] == levels[from_i]);
            assert(after[j] == levels[from_j]);
        }
    }
}

/// In a ladder that is in order, a price is quoted exactly if it has an existing level:
/// a level of that price rests at its slot or nowhere.
pub proof fn lemma_quoted_at_slot<P: PartialOrd, Q>(
    ascending: bool,
    levels: Seq<PriceAndQuantity<P, Q>>,
    price: P,
)
    requires
        price_laws::<P>(),
        in_order(ascending, levels),
    ensures
        quotes(levels, price) <==> existing(ascending, levels, price) is Some,
{
    lemma_slot_parts(ascending, levels, price);
    if quotes(levels, price) {
        let i = choose|i: int| 0 <= i < levels.len() && #[trigger] levels[i].0 == price;
        lemma_price_rests_at_slot(ascending, levels, price, i);
    }
}

} // verus!
