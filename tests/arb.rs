use jit_proxy::arb::{
    arb_orders, check_arb_outcome, find_arb, ArbPlan, BookLevel, BASE_PRECISION, MARGIN_PRECISION,
    QUOTE_PRECISION,
};
use jit_proxy::crossing::CalcError;
use jit_proxy::error::ErrorCode;
use jit_proxy::state::{MarketType, PositionDirection, PostOnlyParam};

#[test]
pub fn calculate_max_base_asset_amount() {
    let quote_asset_token_amount = 100 * QUOTE_PRECISION;
    let init_margin_ratio = (MARGIN_PRECISION / 10) as u32;
    let oracle_price: i64 = 100 * 1_000_000;

    let max_base_asset_amount = jit_proxy::arb::calculate_max_base_asset_amount(
        quote_asset_token_amount,
        init_margin_ratio,
        oracle_price,
    )
    .unwrap();

    assert_eq!(max_base_asset_amount, 9900000000);
}

#[test]
fn max_base_keeps_at_most_ten_quote_units() {
    // 10_000 quote units: one hundredth would be 100 units, but only 10 are kept back.
    let q = 10_000 * QUOTE_PRECISION;
    let r = jit_proxy::arb::calculate_max_base_asset_amount(q, 10_000, 1_000_000).unwrap();
    assert_eq!(r, (q - 10 * QUOTE_PRECISION) * BASE_PRECISION / 1_000_000);
}

#[test]
fn max_base_rejects_zero_ratio_and_price() {
    assert_eq!(
        jit_proxy::arb::calculate_max_base_asset_amount(1_000_000, 0, 1_000_000),
        Err(CalcError::MathOverflow)
    );
    assert_eq!(
        jit_proxy::arb::calculate_max_base_asset_amount(1_000_000, 1000, 0),
        Err(CalcError::MathOverflow)
    );
    assert_eq!(
        jit_proxy::arb::calculate_max_base_asset_amount(u128::MAX, 1000, 1),
        Err(CalcError::MathOverflow)
    );
}

fn level(price: u64, base_asset_amount: u64) -> BookLevel {
    BookLevel { price, base_asset_amount }
}

#[test]
fn arb_needs_both_sides_and_a_crossed_book() {
    assert_eq!(find_arb(None, Some(level(1, 1)), 0), Err(CalcError::Code(ErrorCode::NoBestBid)));
    assert_eq!(find_arb(Some(level(1, 1)), None, 0), Err(CalcError::Code(ErrorCode::NoBestAsk)));
    assert_eq!(
        find_arb(Some(level(99, 5)), Some(level(100, 5)), 0),
        Err(CalcError::Code(ErrorCode::NoArbOpportunity))
    );
}

#[test]
fn arb_starts_towards_flat() {
    let plan = find_arb(Some(level(101, 7)), Some(level(100, 5)), 10).unwrap();
    assert_eq!(plan.base_asset_amount, 5);
    assert_eq!(plan.intermediate_base, 5);
    assert_eq!(plan.start_direction, PositionDirection::Short);
    let plan = find_arb(Some(level(101, 7)), Some(level(100, 9)), -3).unwrap();
    assert_eq!(plan.base_asset_amount, 7);
    assert_eq!(plan.intermediate_base, 4);
    assert_eq!(plan.start_direction, PositionDirection::Long);
}

#[test]
fn arb_orders_in_plan_order() {
    let plan = ArbPlan {
        bid_price: 101,
        ask_price: 100,
        base_asset_amount: 50,
        intermediate_base: -50,
        start_direction: PositionDirection::Short,
    };
    let legs = arb_orders(&plan, 20, 1, 3).unwrap();
    assert_eq!(legs.len(), 2);
    assert_eq!(legs[0].direction, PositionDirection::Short);
    assert_eq!(legs[0].price, 101);
    assert_eq!(legs[1].direction, PositionDirection::Long);
    assert_eq!(legs[1].price, 100);
    assert_eq!(legs[0].base_asset_amount, 20);
    assert_eq!(legs[1].market_index, 3);
    assert_eq!(legs[1].market_type, MarketType::Perp);
    assert_eq!(legs[1].post_only, PostOnlyParam::Disabled);
    // raised to the minimum order size
    let legs = arb_orders(&plan, 20, 30, 3).unwrap();
    assert_eq!(legs[0].base_asset_amount, 30);
    assert_eq!(arb_orders(&plan, u128::MAX, 1, 3), Err(CalcError::MathOverflow));
}

#[test]
fn arb_outcome_requires_flat_and_profit() {
    assert_eq!(check_arb_outcome(5, 100, 5, 101), Ok(()));
    assert_eq!(check_arb_outcome(5, 100, 5, 100), Err(CalcError::Code(ErrorCode::NoArbOpportunity)));
    assert_eq!(check_arb_outcome(5, 100, 6, 200), Err(CalcError::Code(ErrorCode::NoArbOpportunity)));
}
