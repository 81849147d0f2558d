use backend::book::OrderBookState;
use backend::book::PriceLevel;
use backend::book::Side;
use backend::book::Slot;
use backend::book::extract_data_from_snapshot;
use backend::book::find_first_sell;

fn bid(price: i64, size: i64) -> PriceLevel {
    PriceLevel { price, size, side: Side::Buy }
}

fn ask(price: i64, size: i64) -> PriceLevel {
    PriceLevel { price, size, side: Side::Sell }
}

#[test]
fn fresh_view_is_empty_and_unsignalled() {
    let v = OrderBookState::new();
    assert_eq!(v.get_level(Slot::FirstBid), None);
    assert_eq!(v.get_level(Slot::SecondBid), None);
    assert_eq!(v.get_level(Slot::ThirdBid), None);
    assert_eq!(v.get_level(Slot::FirstAsk), None);
    assert!(!v.is_ready());
}

#[test]
fn get_returns_last_written_value() {
    let mut v = OrderBookState::new();
    v.set_level(Slot::FirstBid, bid(1000, 10));
    v.set_level(Slot::FirstBid, bid(1005, 20));
    v.set_level(Slot::FirstBid, bid(1003, 30));
    assert_eq!(v.get_level(Slot::FirstBid), Some(bid(1003, 30)));
}

#[test]
fn slots_are_independent() {
    let mut v = OrderBookState::new();
    v.set_level(Slot::FirstBid, bid(1000, 10));
    v.set_level(Slot::SecondBid, bid(990, 20));
    v.set_level(Slot::FirstAsk, ask(1010, 5));
    assert_eq!(v.get_level(Slot::FirstBid), Some(bid(1000, 10)));
    assert_eq!(v.get_level(Slot::SecondBid), Some(bid(990, 20)));
    assert_eq!(v.get_level(Slot::ThirdBid), None);
    assert_eq!(v.get_level(Slot::FirstAsk), Some(ask(1010, 5)));
    assert!(!v.is_ready());
}

#[test]
fn signal_is_observed_and_never_lost() {
    let mut v = OrderBookState::new();
    v.signal_ready();
    assert!(v.is_ready());
    // Later slot writes and repeated signals leave the flag raised.
    v.set_level(Slot::FirstBid, bid(1000, 10));
    v.set_level(Slot::FirstAsk, ask(1010, 5));
    v.signal_ready();
    assert!(v.is_ready());
}

#[test]
fn ingest_empty_snapshot_leaves_slots_unset_but_signals() {
    let mut v = OrderBookState::new();
    let inserts: Vec<PriceLevel> = Vec::new();
    extract_data_from_snapshot(&mut v, &inserts);
    assert_eq!(v.get_level(Slot::FirstBid), None);
    assert_eq!(v.get_level(Slot::SecondBid), None);
    assert_eq!(v.get_level(Slot::ThirdBid), None);
    assert_eq!(v.get_level(Slot::FirstAsk), None);
    assert!(v.is_ready());
}

#[test]
fn ingest_short_snapshot_fills_only_leading_slots() {
    let mut v = OrderBookState::new();
    let inserts = vec![bid(1000, 10), bid(995, 20)];
    extract_data_from_snapshot(&mut v, &inserts);
    assert_eq!(v.get_level(Slot::FirstBid), Some(bid(1000, 10)));
    assert_eq!(v.get_level(Slot::SecondBid), Some(bid(995, 20)));
    assert_eq!(v.get_level(Slot::ThirdBid), None);
    assert_eq!(v.get_level(Slot::FirstAsk), None);
    assert!(v.is_ready());
}

#[test]
fn ingest_takes_first_three_positionally_and_first_sell_as_ask() {
    let mut v = OrderBookState::new();
    let inserts = vec![bid(1000, 10), bid(995, 20), bid(990, 30), ask(1010, 5), ask(1015, 7)];
    extract_data_from_snapshot(&mut v, &inserts);
    assert_eq!(v.get_level(Slot::FirstBid), Some(bid(1000, 10)));
    assert_eq!(v.get_level(Slot::SecondBid), Some(bid(995, 20)));
    assert_eq!(v.get_level(Slot::ThirdBid), Some(bid(990, 30)));
    // The first sell-side insert becomes the ask, not a later one.
    assert_eq!(v.get_level(Slot::FirstAsk), Some(ask(1010, 5)));
    assert!(v.is_ready());
}

#[test]
fn ingest_is_positional_even_when_delivery_is_out_of_order() {
    // The feed's delivery order is trusted: no sorting happens, so an
    // out-of-order delivery lands positionally.
    let mut v = OrderBookState::new();
    let inserts = vec![bid(990, 30), bid(1000, 10), bid(995, 20)];
    extract_data_from_snapshot(&mut v, &inserts);
    assert_eq!(v.get_level(Slot::FirstBid), Some(bid(990, 30)));
    assert_eq!(v.get_level(Slot::SecondBid), Some(bid(1000, 10)));
    assert_eq!(v.get_level(Slot::ThirdBid), Some(bid(995, 20)));
}

#[test]
fn ingest_sell_in_leading_slot_is_both_bid_candidate_and_ask() {
    // A sell-side insert among the first three still lands in its
    // positional slot, and the scan picks it as the first ask.
    let mut v = OrderBookState::new();
    let inserts = vec![ask(1010, 5), bid(1000, 10)];
    extract_data_from_snapshot(&mut v, &inserts);
    assert_eq!(v.get_level(Slot::FirstBid), Some(ask(1010, 5)));
    assert_eq!(v.get_level(Slot::SecondBid), Some(bid(1000, 10)));
    assert_eq!(v.get_level(Slot::FirstAsk), Some(ask(1010, 5)));
}

#[test]
fn ingest_second_snapshot_overwrites_set_slots() {
    let mut v = OrderBookState::new();
    extract_data_from_snapshot(&mut v, &vec![bid(1000, 10), bid(995, 20)]);
    extract_data_from_snapshot(&mut v, &vec![bid(1001, 11)]);
    // The later delivery replaces what it covers; the rest stays.
    assert_eq!(v.get_level(Slot::FirstBid), Some(bid(1001, 11)));
    assert_eq!(v.get_level(Slot::SecondBid), Some(bid(995, 20)));
    assert!(v.is_ready());
}

#[test]
fn find_first_sell_scans_in_order() {
    assert_eq!(find_first_sell(&vec![]), None);
    assert_eq!(find_first_sell(&vec![bid(1000, 10), bid(995, 20)]), None);
    assert_eq!(find_first_sell(&vec![ask(1010, 5)]), Some(0));
    assert_eq!(find_first_sell(&vec![bid(1000, 10), ask(1010, 5), ask(1015, 7)]), Some(1));
}
