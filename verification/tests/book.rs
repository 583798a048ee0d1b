use order_book::limit_order_book::event::Event;
use order_book::ops::update_strategies::AggregateOrCreate;
use order_book::ops::update_strategies::ReplaceOrRemove;
use order_book::Asks;
use order_book::Bids;
use order_book::DepthUpdate;
use order_book::LimitOrderBook;
use order_book::OrderType;
use order_book::PriceAndQuantity;

fn packet(first: u64, last: u64) -> DepthUpdate<f64, f64> {
    DepthUpdate {
        first_update_id: first,
        last_update_id: last,
        ..Default::default()
    }
}

#[test]
fn skip_update_works() {
    let update: DepthUpdate<f64, f64> = DepthUpdate {
        first_update_id: 2,
        last_update_id: 3,
        ..Default::default()
    };
    // coming from the left there is a gap; skip.
    assert!(update.skip_update(0));
    // continuous coming from the left, pass
    assert!(!update.skip_update(1));
    // overlap coming from the left, pass
    assert!(!update.skip_update(2));
    // overlap coming from the right, pass
    assert!(!update.skip_update(3));
    //continuity coming for the right at the second bound; pass
    assert!(!update.skip_update(4));
    // gap coming from the right; skip
    assert!(update.skip_update(5));
}

#[test]
fn gap_detection_examples() {
    assert!(!packet(2, 3).skip_update(1));
    assert!(packet(2, 3).skip_update(5));
    assert!(packet(7, 9).skip_update(5));
}

#[test]
fn gap_detection_boundary() {
    for watermark in 1u64..40 {
        assert!(!packet(watermark + 1, watermark + 5).skip_update(watermark));
        assert!(!packet(watermark + 1, watermark + 1).skip_update(watermark));
        assert!(!packet(watermark, watermark).skip_update(watermark));
        assert!(!packet(0, watermark).skip_update(watermark));
        assert!(!packet(watermark - 1, watermark + 1).skip_update(watermark));
        assert!(!packet(0, watermark - 1).skip_update(watermark));
        assert!(packet(watermark + 2, watermark + 2).skip_update(watermark));
        assert!(packet(watermark + 2, watermark + 9).skip_update(watermark));
        if watermark >= 2 {
            assert!(packet(0, watermark - 2).skip_update(watermark));
        }
    }
}

#[test]
fn skip_update_does_not_overflow_at_the_ends() {
    assert!(!packet(u64::MAX, u64::MAX).skip_update(u64::MAX));
    assert!(!packet(0, u64::MAX).skip_update(u64::MAX));
    assert!(packet(0, 0).skip_update(u64::MAX));
    assert!(packet(u64::MAX, u64::MAX).skip_update(0));
    assert!(!packet(0, u64::MAX - 1).skip_update(u64::MAX));
    assert!(packet(0, u64::MAX - 2).skip_update(u64::MAX));
    assert!(!packet(0, 0).skip_update(0));
    assert!(!packet(1, 1).skip_update(0));
    assert!(packet(2, 2).skip_update(0));
}

#[test]
fn new_book_is_empty_with_watermark_zero() {
    let book: LimitOrderBook<f64, f64> = LimitOrderBook::new();
    assert_eq!(book.update_id, 0);
    assert_eq!(book.bids, Bids::new());
    assert_eq!(book.asks, Asks::new());
    let other: LimitOrderBook<f64, f64> = Default::default();
    assert_eq!(book, other);
}

#[test]
fn default_packet_is_empty() {
    let update: DepthUpdate<i64, i64> = Default::default();
    assert_eq!(update.first_update_id, 0);
    assert_eq!(update.last_update_id, 0);
    assert_eq!(update.bids.0, []);
    assert_eq!(update.asks.0, []);
    assert_eq!(
        update.event,
        Event {
            id: String::new(),
            time: 0,
            symbol: String::new()
        }
    );
}

#[test]
fn end_to_end_scenario() {
    let mut book = LimitOrderBook::new();
    book.add_bid(PriceAndQuantity(100.0, 2.5));
    assert_eq!(book.bids.0, [PriceAndQuantity(100.0, 2.5)]);
    book.add_bid(PriceAndQuantity(100.0, 0.0));
    assert_eq!(book.bids.0, []);
    book.add_ask(PriceAndQuantity(101.0, 1.0));
    book.add_ask(PriceAndQuantity(100.5, 2.0));
    assert_eq!(
        book.asks.0,
        [PriceAndQuantity(101.0, 1.0), PriceAndQuantity(100.5, 2.0)]
    );
    assert_eq!(book.update_id, 0);
}

#[test]
fn the_book_treats_quantities_as_absolute() {
    let mut book = LimitOrderBook::new();
    book.add_bid(PriceAndQuantity(10, 1));
    book.add_bid(PriceAndQuantity(10, 2));
    assert_eq!(book.bids.0, [PriceAndQuantity(10, 2)]);
    book.add_ask(PriceAndQuantity(11, 0));
    assert_eq!(book.asks.0, []);
    book.add_ask(PriceAndQuantity(12, 4));
    book.add_ask(PriceAndQuantity(12, 3));
    book.add_ask(PriceAndQuantity(11, 6));
    assert_eq!(book.asks.0, [PriceAndQuantity(12, 3), PriceAndQuantity(11, 6)]);
}

#[test]
fn best_prices_are_at_the_back() {
    let mut book = LimitOrderBook::new();
    for price in [5u32, 9, 1, 7, 3] {
        book.add_bid(PriceAndQuantity(price, 1u32));
        book.add_ask(PriceAndQuantity(price + 10, 1u32));
    }
    assert_eq!(book.bids.0.last(), Some(&PriceAndQuantity(9, 1)));
    assert_eq!(book.asks.0.last(), Some(&PriceAndQuantity(11, 1)));
    assert_eq!(book.bids.0.first(), Some(&PriceAndQuantity(1, 1)));
    assert_eq!(book.asks.0.first(), Some(&PriceAndQuantity(19, 1)));
}

#[test]
fn apply_level_routes_by_side() {
    let mut book = LimitOrderBook::new();
    book.apply_level(OrderType::Buy, PriceAndQuantity(100.0, 2.5));
    book.apply_level(OrderType::Sell, PriceAndQuantity(101.0, 1.0));
    book.apply_level(OrderType::Sell, PriceAndQuantity(100.5, 2.0));
    assert_eq!(book.bids.0, [PriceAndQuantity(100.0, 2.5)]);
    assert_eq!(
        book.asks.0,
        [PriceAndQuantity(101.0, 1.0), PriceAndQuantity(100.5, 2.0)]
    );
    book.apply_level(OrderType::Buy, PriceAndQuantity(100.0, 0.0));
    assert_eq!(book.bids.0, []);
}

#[test]
fn extend_concatenates_the_sides_and_takes_the_watermark() {
    let mut low = LimitOrderBook::new();
    low.add_bid(PriceAndQuantity(1, 10));
    low.add_bid(PriceAndQuantity(2, 20));
    low.update_id = 4;
    let mut high = LimitOrderBook::new();
    high.add_bid(PriceAndQuantity(3, 30));
    high.update_id = 9;
    low.extend(&high);
    assert_eq!(
        low.bids.0,
        [
            PriceAndQuantity(1, 10),
            PriceAndQuantity(2, 20),
            PriceAndQuantity(3, 30)
        ]
    );
    assert_eq!(low.asks.0, []);
    assert_eq!(low.update_id, 9);
    assert_eq!(high.bids.0, [PriceAndQuantity(3, 30)]);

    let mut upper = LimitOrderBook::new();
    upper.add_ask(PriceAndQuantity(8, 1));
    upper.add_ask(PriceAndQuantity(7, 1));
    let mut lower = LimitOrderBook::new();
    lower.add_ask(PriceAndQuantity(6, 1));
    upper.extend(&lower);
    assert_eq!(
        upper.asks.0,
        [
            PriceAndQuantity(8, 1),
            PriceAndQuantity(7, 1),
            PriceAndQuantity(6, 1)
        ]
    );
    assert_eq!(upper.update_id, 0);
}

fn depth(first: u64, last: u64, bids: Vec<(i64, i64)>, asks: Vec<(i64, i64)>) -> DepthUpdate<i64, i64> {
    DepthUpdate {
        event: Event {
            id: String::from("depthUpdate"),
            time: 123456789,
            symbol: String::from("BNBBTC"),
        },
        first_update_id: first,
        last_update_id: last,
        bids: Bids(bids.into_iter().map(|(p, q)| PriceAndQuantity(p, q)).collect()),
        asks: Asks(asks.into_iter().map(|(p, q)| PriceAndQuantity(p, q)).collect()),
    }
}

#[test]
fn accept_applies_a_packet_that_continues_the_stream() {
    let mut book = LimitOrderBook::new();
    book.update_id = 156;
    book.add_bid(PriceAndQuantity(100, 5));
    book.add_ask(PriceAndQuantity(110, 5));
    let update = depth(157, 160, vec![(100, 0), (99, 2), (101, 1)], vec![(105, 3), (110, 1)]);
    assert!(book.accept::<ReplaceOrRemove>(&update));
    assert_eq!(book.update_id, 160);
    assert_eq!(book.bids.0, [PriceAndQuantity(99, 2), PriceAndQuantity(101, 1)]);
    assert_eq!(book.asks.0, [PriceAndQuantity(110, 1), PriceAndQuantity(105, 3)]);
}

#[test]
fn accept_applies_increments_under_aggregate_or_create() {
    let mut book = LimitOrderBook::new();
    book.update_id = 9;
    book.add_bid(PriceAndQuantity(100, 5));
    book.add_ask(PriceAndQuantity(110, 5));
    let update = depth(10, 12, vec![(100, -5), (99, 2), (99, 1)], vec![(110, 1)]);
    assert!(book.accept::<AggregateOrCreate>(&update));
    assert_eq!(book.update_id, 12);
    assert_eq!(book.bids.0, [PriceAndQuantity(99, 3)]);
    assert_eq!(book.asks.0, [PriceAndQuantity(110, 6)]);
}

#[test]
fn accept_skips_a_packet_after_a_gap() {
    let mut book = LimitOrderBook::new();
    book.update_id = 5;
    book.add_bid(PriceAndQuantity(100, 5));
    let before = book.clone();
    let update = depth(7, 9, vec![(100, 0)], vec![(110, 1)]);
    assert!(!book.accept::<ReplaceOrRemove>(&update));
    assert_eq!(book, before);
}

#[test]
fn accept_skips_a_stale_packet() {
    let mut book = LimitOrderBook::new();
    book.update_id = 5;
    book.add_ask(PriceAndQuantity(110, 5));
    let before = book.clone();
    let update = depth(2, 3, vec![(100, 1)], vec![(110, 0)]);
    assert!(!book.accept::<ReplaceOrRemove>(&update));
    assert_eq!(book, before);
}

#[test]
fn accept_applies_a_packet_that_overlaps_in_full() {
    let mut book = LimitOrderBook::new();
    book.update_id = 5;
    let update = depth(3, 8, vec![(100, 1)], vec![(110, 2)]);
    assert!(book.accept::<ReplaceOrRemove>(&update));
    assert_eq!(book.update_id, 8);
    assert_eq!(book.bids.0, [PriceAndQuantity(100, 1)]);
    assert_eq!(book.asks.0, [PriceAndQuantity(110, 2)]);
    let touching = depth(4, 7, vec![(100, 0)], vec![]);
    assert!(book.accept::<ReplaceOrRemove>(&touching));
    assert_eq!(book.update_id, 7);
    assert_eq!(book.bids.0, []);
}
