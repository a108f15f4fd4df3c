use jit_proxy::crossing::{
    check_crossing, process_order, AmmQuote, CalcError, MarketSnapshot, OrderProposal,
};
use jit_proxy::error::ErrorCode;
use jit_proxy::params::{JitIxParams, JitParams, JitSwiftParams};
use jit_proxy::state::{MarketType, Order, OrderStatus, PositionDirection, PostOnlyParam, PriceType};

fn order(direction: PositionDirection, base: u64, filled: u64) -> Order {
    Order {
        order_id: 7,
        status: OrderStatus::Open,
        market_type: MarketType::Perp,
        market_index: 0,
        direction,
        base_asset_amount: base,
        base_asset_amount_filled: filled,
        slot: 1000,
        auction_duration: 10,
    }
}

fn market(min_order_size: u64) -> MarketSnapshot {
    MarketSnapshot { min_order_size, amm: None }
}

/// Proposal for a maker on the side opposite `taker`, at a price that crosses.
fn propose_size(taker: PositionDirection, unfilled: u64, existing: i64) -> Result<u64, CalcError> {
    process_order(
        &order(taker, unfilled, 0),
        Some(100),
        &market(0),
        existing,
        100,
        -100,
        100,
        PostOnlyParam::MustPostOnly,
        1005,
    )
    .map(|p| p.order_params.base_asset_amount)
}

#[test]
fn within_headroom_takes_whole_order() {
    assert_eq!(propose_size(PositionDirection::Short, 10, 40), Ok(10));
}

#[test]
fn size_clamped_to_headroom() {
    assert_eq!(propose_size(PositionDirection::Short, 100, 40), Ok(60));
}

#[test]
fn reducing_a_breached_position() {
    // maker sells out of a long position above the maximum
    assert_eq!(propose_size(PositionDirection::Long, 200, 150), Ok(200));
    // maker buys out of a short position below the minimum
    assert_eq!(propose_size(PositionDirection::Short, 200, -150), Ok(200));
}

#[test]
fn adding_to_a_breached_position() {
    let breached = Err(CalcError::Code(ErrorCode::PositionLimitBreached));
    assert_eq!(propose_size(PositionDirection::Short, 200, 150), breached);
    assert_eq!(propose_size(PositionDirection::Long, 200, -150), breached);
}

#[test]
fn crossing_by_one_tick() {
    let o = order(PositionDirection::Short, 10, 0);
    // maker buys with worst bid 100: a taker at 100 crosses, one tick above does not
    let at = process_order(&o, Some(100), &market(0), 0, 100, -100, 100, PostOnlyParam::MustPostOnly, 1005);
    assert!(at.is_ok());
    let above = process_order(&o, Some(101), &market(0), 0, 100, -100, 100, PostOnlyParam::MustPostOnly, 1005);
    assert_eq!(above, Err(CalcError::Code(ErrorCode::BidNotCrossed)));
    // maker sells with worst ask 100: a taker at 100 crosses, one tick below does not
    let o = order(PositionDirection::Long, 10, 0);
    let at = process_order(&o, Some(100), &market(0), 0, 100, -100, 100, PostOnlyParam::MustPostOnly, 1005);
    assert!(at.is_ok());
    let below = process_order(&o, Some(99), &market(0), 0, 100, -100, 100, PostOnlyParam::MustPostOnly, 1005);
    assert_eq!(below, Err(CalcError::Code(ErrorCode::AskNotCrossed)));
}

#[test]
fn crossing_check_on_each_side() {
    assert_eq!(check_crossing(PositionDirection::Long, 100, 100), Ok(()));
    assert_eq!(check_crossing(PositionDirection::Long, 101, 100), Err(ErrorCode::BidNotCrossed));
    assert_eq!(check_crossing(PositionDirection::Short, 100, 100), Ok(()));
    assert_eq!(check_crossing(PositionDirection::Short, 99, 100), Err(ErrorCode::AskNotCrossed));
}

#[test]
fn proposal_fields() {
    let o = order(PositionDirection::Short, 30, 10);
    let p = process_order(&o, Some(95), &market(0), 0, 100, -100, 100, PostOnlyParam::Slide, 1005).unwrap();
    assert_eq!(
        p.order_params,
        OrderProposal {
            market_type: MarketType::Perp,
            market_index: 0,
            direction: PositionDirection::Long,
            base_asset_amount: 20,
            price: 95,
            post_only: PostOnlyParam::Slide,
            reduce_only: false,
        }
    );
    assert_eq!(p.taker_base_asset_amount_unfilled, 20);
    assert_eq!(p.taker_price, 95);
}

#[test]
fn remaining_below_min_order_size_is_rejected() {
    // 5 left against a market minimum of 10: no proposal larger than what is left
    let o = order(PositionDirection::Short, 5, 0);
    let r = process_order(&o, Some(95), &market(10), 0, 100, -100, 100, PostOnlyParam::Slide, 1005);
    assert_eq!(r, Err(CalcError::NothingToFill));
    let o = order(PositionDirection::Short, 10, 0);
    let p = process_order(&o, Some(95), &market(10), 0, 100, -100, 100, PostOnlyParam::Slide, 1005).unwrap();
    assert_eq!(p.taker_base_asset_amount_unfilled, 10);
    assert_eq!(p.order_params.base_asset_amount, 10);
}

#[test]
fn maker_uses_better_amm_price_within_worst() {
    let amm = MarketSnapshot { min_order_size: 0, amm: Some(AmmQuote { bid_price: 98, ask_price: 102 }) };
    // maker buys: the AMM bids 98 above the taker's 95, capped at the worst bid 97
    let o = order(PositionDirection::Short, 10, 0);
    let p = process_order(&o, Some(95), &amm, 0, 100, -100, 97, PostOnlyParam::Slide, 1005).unwrap();
    assert_eq!(p.order_params.price, 97);
    let p = process_order(&o, Some(95), &amm, 0, 100, -100, 99, PostOnlyParam::Slide, 1005).unwrap();
    assert_eq!(p.order_params.price, 98);
    // maker sells: the AMM asks 102 below the taker's 105, floored at the worst ask 103
    let o = order(PositionDirection::Long, 10, 0);
    let p = process_order(&o, Some(105), &amm, 0, 100, -100, 103, PostOnlyParam::Slide, 1005).unwrap();
    assert_eq!(p.order_params.price, 103);
    // without a limit price the taker's price is the AMM's on the taker's side
    let p = process_order(&o, None, &amm, 0, 100, -100, 100, PostOnlyParam::Slide, 1005).unwrap();
    assert_eq!(p.taker_price, 102);
}

#[test]
fn spot_order_without_price_is_rejected() {
    let mut o = order(PositionDirection::Long, 10, 0);
    o.market_type = MarketType::Spot;
    let r = process_order(&o, None, &market(0), 0, 100, -100, 100, PostOnlyParam::Slide, 1005);
    assert_eq!(r, Err(CalcError::Code(ErrorCode::TakerOrderNotFound)));
}

#[test]
fn overfilled_order_fails_closed() {
    let o = order(PositionDirection::Short, 10, 11);
    let r = process_order(&o, Some(100), &market(0), 0, 100, -100, 100, PostOnlyParam::Slide, 1005);
    assert_eq!(r, Err(CalcError::MathOverflow));
}

#[test]
fn worst_price_by_side_and_type() {
    let mut p = JitParams::default();
    p.bid = -5;
    p.ask = 7;
    assert_eq!(p.get_worst_price(1000, PositionDirection::Long), Ok(7));
    assert_eq!(p.get_worst_price(1000, PositionDirection::Short), Ok(5));
    p.price_type = PriceType::Oracle;
    assert_eq!(p.get_worst_price(1000, PositionDirection::Long), Ok(1007));
    assert_eq!(p.get_worst_price(1000, PositionDirection::Short), Ok(995));
    assert_eq!(p.get_worst_price(-1000, PositionDirection::Short), Ok(1005));
    assert_eq!(p.get_worst_price(i64::MAX, PositionDirection::Long), Err(CalcError::MathOverflow));
    let mut s = JitSwiftParams::default();
    assert_eq!(s.swift_order_uuid, [0u8; 8]);
    s.ask = 3;
    s.price_type = PriceType::Oracle;
    assert_eq!(s.get_worst_price(10, PositionDirection::Long), Ok(13));
}

#[test]
fn envelope_configuration() {
    let e = JitIxParams::new(0, 0, 1, 2, PriceType::Limit, None);
    assert!(!e.is_configured());
    let e = JitIxParams::new(10, 0, 1, 2, PriceType::Limit, None);
    assert!(e.is_configured());
    let p = e.to_jit_params(9);
    assert_eq!(p.taker_order_id, 9);
    assert_eq!(p.max_position, 10);
    assert_eq!(p.ask, 2);
}

#[test]
fn unconfigured_envelope_is_rejected() {
    let o = order(PositionDirection::Long, 10, 0);
    let r = process_order(&o, Some(100), &market(0), 100, 0, 0, 50, PostOnlyParam::MustPostOnly, 1005);
    assert_eq!(r, Err(CalcError::EnvelopeNotConfigured));
}

#[test]
fn spot_maker_price_ignores_amm() {
    let mut o = order(PositionDirection::Short, 10, 0);
    o.market_type = MarketType::Spot;
    let amm = MarketSnapshot { min_order_size: 0, amm: Some(AmmQuote { bid_price: 20, ask_price: 30 }) };
    let p = process_order(&o, Some(10), &amm, 0, 100, -100, 15, PostOnlyParam::Slide, 1005).unwrap();
    assert_eq!(p.order_params.price, 10);
}

#[test]
fn auction_end_slot_overflow_fails_closed() {
    let mut o = order(PositionDirection::Short, 10, 0);
    o.slot = u64::MAX;
    let r = process_order(&o, Some(100), &market(0), 0, 100, -100, 100, PostOnlyParam::Slide, 1005);
    assert_eq!(r, Err(CalcError::MathOverflow));
    let o = order(PositionDirection::Short, 10, 0);
    let r = process_order(&o, Some(100), &market(0), 0, 100, -100, 100, PostOnlyParam::Slide, u64::MAX);
    assert_eq!(r, Err(CalcError::MathOverflow));
}

#[test]
fn nothing_left_to_fill_is_rejected() {
    let o = order(PositionDirection::Short, 10, 10);
    let r = process_order(&o, Some(100), &market(0), 0, 100, -100, 100, PostOnlyParam::Slide, 1005);
    assert_eq!(r, Err(CalcError::NothingToFill));
}
