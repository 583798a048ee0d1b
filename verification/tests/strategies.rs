use order_book::ops::update_strategies::AggregateOrCreate;
use order_book::ops::update_strategies::ReplaceOrRemove;
use order_book::ops::Strategy;
use order_book::PriceAndQuantity;

#[test]
fn aggregate_or_create_aggregates_at_the_same_price() {
    let resting = PriceAndQuantity(10.0, 1);
    let incoming = PriceAndQuantity(10.0, 2);
    assert_eq!(
        AggregateOrCreate::operation(&incoming, Some(&resting)),
        AggregateOrCreate::Aggregated
    );
}

#[test]
fn aggregate_or_create_removes_when_the_sum_is_zero() {
    let resting = PriceAndQuantity(10.0, 3);
    let incoming = PriceAndQuantity(10.0, -3);
    assert_eq!(
        AggregateOrCreate::operation(&incoming, Some(&resting)),
        AggregateOrCreate::Remove
    );
}

#[test]
fn aggregate_or_create_creates_beside_another_price() {
    let resting = PriceAndQuantity(10.0, 3);
    let incoming = PriceAndQuantity(11.0, -3);
    assert_eq!(
        AggregateOrCreate::operation(&incoming, Some(&resting)),
        AggregateOrCreate::Create
    );
}

#[test]
fn aggregate_or_create_creates_in_an_empty_slot() {
    let incoming = PriceAndQuantity(11.0, 4);
    assert_eq!(
        AggregateOrCreate::operation(&incoming, None),
        AggregateOrCreate::Create
    );
}

#[test]
fn aggregate_or_create_creates_even_with_quantity_zero() {
    let resting = PriceAndQuantity(10u64, 3i64);
    let incoming = PriceAndQuantity(11u64, 0i64);
    assert_eq!(
        AggregateOrCreate::operation(&incoming, None),
        AggregateOrCreate::Create
    );
    assert_eq!(
        AggregateOrCreate::operation(&incoming, Some(&resting)),
        AggregateOrCreate::Create
    );
}

#[test]
fn aggregate_or_create_keeps_a_level_that_a_zero_increment_meets() {
    let resting = PriceAndQuantity(10u64, 3i64);
    let incoming = PriceAndQuantity(10u64, 0i64);
    assert_eq!(
        AggregateOrCreate::operation(&incoming, Some(&resting)),
        AggregateOrCreate::Aggregated
    );
}

#[test]
fn replace_or_remove_replaces_at_the_same_price() {
    let resting = PriceAndQuantity(10.0, 1.5);
    let incoming = PriceAndQuantity(10.0, 2.5);
    assert_eq!(
        ReplaceOrRemove::operation(&incoming, Some(&resting)),
        ReplaceOrRemove::Replace
    );
}

#[test]
fn replace_or_remove_removes_at_the_same_price_with_zero() {
    let resting = PriceAndQuantity(10.0, 1.5);
    let incoming = PriceAndQuantity(10.0, 0.0);
    assert_eq!(
        ReplaceOrRemove::operation(&incoming, Some(&resting)),
        ReplaceOrRemove::Remove
    );
}

#[test]
fn replace_or_remove_displaces_beside_another_price() {
    let resting = PriceAndQuantity(10.0, 1.5);
    let incoming = PriceAndQuantity(9.5, 2.5);
    assert_eq!(
        ReplaceOrRemove::operation(&incoming, Some(&resting)),
        ReplaceOrRemove::Displace
    );
}

#[test]
fn replace_or_remove_does_nothing_beside_another_price_with_zero() {
    let resting = PriceAndQuantity(10.0, 1.5);
    let incoming = PriceAndQuantity(9.5, 0.0);
    assert_eq!(
        ReplaceOrRemove::operation(&incoming, Some(&resting)),
        ReplaceOrRemove::Noop
    );
}

#[test]
fn replace_or_remove_displaces_into_an_empty_slot() {
    let incoming = PriceAndQuantity(9u64, 2u32);
    assert_eq!(
        ReplaceOrRemove::operation(&incoming, None),
        ReplaceOrRemove::Displace
    );
}

#[test]
fn replace_or_remove_does_nothing_in_an_empty_slot_with_zero() {
    let incoming = PriceAndQuantity(9u64, 0u32);
    assert_eq!(
        ReplaceOrRemove::operation(&incoming, None),
        ReplaceOrRemove::Noop
    );
}

#[test]
fn replace_or_remove_digests_at_the_key() {
    let mut levels = vec![PriceAndQuantity(1, 10), PriceAndQuantity(3, 30)];
    ReplaceOrRemove::Displace.digest(&mut levels, 1, PriceAndQuantity(2, 20));
    assert_eq!(
        levels,
        vec![
            PriceAndQuantity(1, 10),
            PriceAndQuantity(2, 20),
            PriceAndQuantity(3, 30)
        ]
    );
    ReplaceOrRemove::Replace.digest(&mut levels, 2, PriceAndQuantity(3, 33));
    assert_eq!(
        levels,
        vec![
            PriceAndQuantity(1, 10),
            PriceAndQuantity(2, 20),
            PriceAndQuantity(3, 33)
        ]
    );
    ReplaceOrRemove::Noop.digest(&mut levels, 0, PriceAndQuantity(9, 99));
    assert_eq!(levels.len(), 3);
    ReplaceOrRemove::Remove.digest(&mut levels, 0, PriceAndQuantity(1, 0));
    assert_eq!(
        levels,
        vec![PriceAndQuantity(2, 20), PriceAndQuantity(3, 33)]
    );
}

#[test]
fn aggregate_or_create_digests_at_the_key() {
    let mut levels = vec![PriceAndQuantity(1, 10)];
    AggregateOrCreate::Create.digest(&mut levels, 1, PriceAndQuantity(2, 20));
    assert_eq!(
        levels,
        vec![PriceAndQuantity(1, 10), PriceAndQuantity(2, 20)]
    );
    AggregateOrCreate::Aggregated.digest(&mut levels, 0, PriceAndQuantity(1, 5));
    assert_eq!(
        levels,
        vec![PriceAndQuantity(1, 15), PriceAndQuantity(2, 20)]
    );
    AggregateOrCreate::Remove.digest(&mut levels, 1, PriceAndQuantity(2, -20));
    assert_eq!(levels, vec![PriceAndQuantity(1, 15)]);
}
