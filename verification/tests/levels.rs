use order_book::price_and_quantity::Price;
use order_book::price_and_quantity::Quantity;
use order_book::Order;
use order_book::OrderType;
use order_book::PriceAndQuantity;

#[test]
fn add_quantity_only() {
    assert_eq!(
        PriceAndQuantity(1., 1) + PriceAndQuantity(1., 1),
        PriceAndQuantity(1., 2)
    );
}

#[test]
fn add_takes_the_price_of_the_right_hand_side() {
    assert_eq!(
        PriceAndQuantity(1., 1) + PriceAndQuantity(2., 5),
        PriceAndQuantity(2., 6)
    );
    assert_eq!(
        PriceAndQuantity(2., 5) + PriceAndQuantity(1., 1),
        PriceAndQuantity(1., 6)
    );
}

#[test]
fn combine_takes_the_incoming_price_and_adds_the_quantities() {
    let resting = PriceAndQuantity(10u64, 3i64);
    let incoming = PriceAndQuantity(11u64, 4i64);
    assert_eq!(resting.combine(incoming), PriceAndQuantity(11, 7));
}

#[test]
fn combine_is_not_commutative() {
    let a = PriceAndQuantity(100.5, 2);
    let b = PriceAndQuantity(101.0, 3);
    let a_then_b = a.combine(b);
    let b_then_a = b.combine(a);
    assert_ne!(a_then_b, b_then_a);
    assert_eq!(a_then_b.0, 101.0);
    assert_eq!(b_then_a.0, 100.5);
    assert_eq!(a_then_b.1, b_then_a.1);
    assert_eq!(a_then_b.1, 5);
}

#[test]
fn combine_keeps_the_price_that_came_last() {
    let a = PriceAndQuantity(1, 1);
    let b = PriceAndQuantity(2, 2);
    let c = PriceAndQuantity(3, 4);
    assert_eq!(a.combine(b).combine(c), PriceAndQuantity(3, 7));
    assert_eq!(a.combine(b.combine(c)), PriceAndQuantity(3, 7));
    assert_eq!(c.combine(b).combine(a), PriceAndQuantity(1, 7));
}

#[test]
fn combine_agrees_with_add() {
    let a = PriceAndQuantity(7u32, -4i32);
    let b = PriceAndQuantity(9u32, 6i32);
    assert_eq!(a.combine(b), a + b);
    assert_eq!(b.combine(a), b + a);
}

#[test]
fn to_ref_gives_price_and_quantity() {
    let level = PriceAndQuantity(27826.89, 2.50099);
    assert_eq!(*Price::to_ref(&level), 27826.89);
    assert_eq!(*Quantity::to_ref(&level), 2.50099);
}

#[test]
fn level_defaults_to_zeroes() {
    let level: PriceAndQuantity<u64, i64> = Default::default();
    assert_eq!(level, PriceAndQuantity(0, 0));
}

#[test]
fn order_holds_level_and_side() {
    let order = Order {
        price_quantity: PriceAndQuantity(5u64, 1u64),
        order_type: OrderType::Buy,
    };
    assert_eq!(order.clone(), order);
    assert_eq!(order.order_type, OrderType::Buy);
    assert_ne!(order.order_type, OrderType::Sell);
    assert_eq!(order.price_quantity, PriceAndQuantity(5, 1));
}
