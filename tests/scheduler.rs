use jit_proxy::jitter::{FastlaneDecision, Jitter, SignedOrder};
use jit_proxy::params::JitIxParams;
use jit_proxy::registry::AuctionRegistry;
use jit_proxy::state::{MarketType, Order, OrderStatus, PositionDirection, PriceType};

fn envelope() -> JitIxParams {
    JitIxParams::new(100, -100, -1, 1, PriceType::Oracle, None)
}

fn order(order_id: u32, market_type: MarketType, market_index: u16) -> Order {
    Order {
        order_id,
        status: OrderStatus::Open,
        market_type,
        market_index,
        direction: PositionDirection::Long,
        base_asset_amount: 100,
        base_asset_amount_filled: 0,
        slot: 1,
        auction_duration: 10,
    }
}

#[test]
fn registry_begins_once_until_ended() {
    let mut reg = AuctionRegistry::new();
    assert!(reg.try_begin("a-1".to_string()));
    assert!(!reg.try_begin("a-1".to_string()));
    assert!(reg.try_begin("a-2".to_string()));
    assert!(reg.contains("a-1"));
    reg.end("a-1");
    assert!(!reg.contains("a-1"));
    reg.end("a-1");
    assert!(reg.try_begin("a-1".to_string()));
}

#[test]
fn order_signature_format() {
    let j = Jitter::new();
    assert_eq!(j.get_order_signatures("Taker1", 42), "Taker1-42");
    assert_eq!(j.get_order_signatures("T", 0), "T-0");
    assert_eq!(j.get_signed_order_signatures("T", "abc"), "T-abc");
}

#[test]
fn duplicate_updates_start_one_run() {
    let mut j = Jitter::new();
    j.update_perp_params(0, envelope());
    let orders = vec![order(1, MarketType::Perp, 0), order(1, MarketType::Perp, 0)];
    let tasks = j.on_auction("T", &orders, &vec![1, 1], 5);
    assert_eq!(tasks.len(), 1);
    assert_eq!(tasks[0].order_sig, "T-1");
    assert_eq!(tasks[0].params, envelope());
    assert!(j.is_in_flight("T-1"));
    let again = j.on_auction("T", &orders, &vec![1, 1], 5);
    assert!(again.is_empty());
    j.end_auction("T-1");
    let third = j.on_auction("T", &orders, &vec![1, 1], 5);
    assert_eq!(third.len(), 1);
}

#[test]
fn ineligible_orders_are_skipped() {
    let mut j = Jitter::new();
    j.update_perp_params(0, envelope());
    j.update_spot_params(2, envelope());
    let mut closed = order(1, MarketType::Perp, 0);
    closed.status = OrderStatus::Filled;
    let mut no_auction = order(2, MarketType::Perp, 0);
    no_auction.auction_duration = 0;
    let unconfigured = order(3, MarketType::Perp, 9);
    let mut small = order(4, MarketType::Perp, 0);
    small.base_asset_amount_filled = 99;
    let spot = order(5, MarketType::Spot, 2);
    let orders = vec![closed, no_auction, unconfigured, small, spot];
    let tasks = j.on_auction("T", &orders, &vec![2, 2, 2, 2, 2], 5);
    assert_eq!(tasks.len(), 1);
    assert_eq!(tasks[0].order_sig, "T-5");
    assert!(!j.is_in_flight("T-3"));
}

#[test]
fn paused_scheduler_starts_nothing() {
    let mut j = Jitter::new();
    j.update_perp_params(0, envelope());
    j.set_exclusion_criteria(true);
    assert!(j.on_auction("T", &vec![order(1, MarketType::Perp, 0)], &vec![1], 5).is_empty());
    j.set_exclusion_criteria(false);
    assert_eq!(j.on_auction("T", &vec![order(1, MarketType::Perp, 0)], &vec![1], 5).len(), 1);
}

fn signed(market_type: MarketType, auction_duration: Option<u8>) -> SignedOrder {
    SignedOrder {
        taker_key: "T".to_string(),
        order_uuid: "u1".to_string(),
        market_type,
        market_index: 0,
        direction: PositionDirection::Short,
        base_asset_amount: 50,
        auction_duration,
    }
}

#[test]
fn fastlane_orders() {
    let mut j = Jitter::new();
    j.update_perp_params(0, envelope());
    assert!(matches!(j.on_fastlane_order(&signed(MarketType::Perp, None), 1), FastlaneDecision::Skip));
    assert!(matches!(j.on_fastlane_order(&signed(MarketType::Perp, Some(0)), 1), FastlaneDecision::Skip));
    assert!(matches!(
        j.on_fastlane_order(&signed(MarketType::Spot, Some(5)), 1),
        FastlaneDecision::Unsupported
    ));
    assert!(matches!(j.on_fastlane_order(&signed(MarketType::Perp, Some(5)), 51), FastlaneDecision::Skip));
    // a spot order is skipped while paused or without an auction, refused otherwise
    j.set_exclusion_criteria(true);
    assert!(matches!(j.on_fastlane_order(&signed(MarketType::Spot, Some(5)), 1), FastlaneDecision::Skip));
    j.set_exclusion_criteria(false);
    assert!(matches!(j.on_fastlane_order(&signed(MarketType::Spot, None), 1), FastlaneDecision::Skip));
    match j.on_fastlane_order(&signed(MarketType::Perp, Some(5)), 1) {
        FastlaneDecision::Dispatch(key, params) => {
            assert_eq!(key, "T-u1");
            assert_eq!(params, envelope());
        }
        other => panic!("expected a dispatch, got {:?}", other),
    }
    assert!(matches!(j.on_fastlane_order(&signed(MarketType::Perp, Some(5)), 1), FastlaneDecision::Skip));
    j.end_auction("T-u1");
    assert!(matches!(
        j.on_fastlane_order(&signed(MarketType::Perp, Some(5)), 1),
        FastlaneDecision::Dispatch(_, _)
    ));
}

#[test]
fn auction_window_and_empty_orders() {
    let mut j = Jitter::new();
    j.update_perp_params(0, envelope());
    // order auction runs from slot 1 for 10 slots
    assert!(j.on_auction("T", &vec![order(1, MarketType::Perp, 0)], &vec![1], 0).is_empty());
    assert!(j.on_auction("T", &vec![order(1, MarketType::Perp, 0)], &vec![1], 11).is_empty());
    assert_eq!(j.on_auction("T", &vec![order(1, MarketType::Perp, 0)], &vec![1], 10).len(), 1);
    // nothing left and no minimum: a run starts, which ends at its first attempt
    let mut done = order(2, MarketType::Perp, 0);
    done.base_asset_amount_filled = 100;
    assert_eq!(j.on_auction("T", &vec![done], &vec![0], 5).len(), 1);
}
