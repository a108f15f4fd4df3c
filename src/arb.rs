use vstd::prelude::*;
use crate::crossing::{in_i64, max, min, CalcError, OrderProposal};
use crate::error::ErrorCode;
use crate::state::{MarketType, PositionDirection, PostOnlyParam};

verus! {

/// One unit of quote asset.
pub const QUOTE_PRECISION: u128 = 1_000_000;

/// Scale of margin ratios.
pub const MARGIN_PRECISION: u128 = 10_000;

/// One unit of base asset.
pub const BASE_PRECISION: u128 = 1_000_000_000;

/// The collateral kept back: one hundredth of the quote amount, at most ten quote units.
pub open spec fn reserved_quote(quote: int) -> int {
    min(quote / 100, 10 * QUOTE_PRECISION as int)
}

/// Largest base amount that `quote` of free collateral carries at an initial margin ratio
/// of `ratio` and an oracle price of `price`, after keeping some collateral back.
pub open spec fn max_base_amount(quote: u128, ratio: u32, price: i64) -> Result<u128, CalcError> {
    let a = quote - reserved_quote(quote as int);
    let b = a * MARGIN_PRECISION;
    if b > u128::MAX || ratio == 0 {
        Err(CalcError::MathOverflow)
    } else {
        let c = b / (ratio as int);
        let d = c * BASE_PRECISION;
        if d > u128::MAX || price <= 0 {
            Err(CalcError::MathOverflow)
        } else {
            Ok((d / (price as int)) as u128)
        }
    }
}

/// How much base asset the free collateral `quote_asset_token_amount` can carry; the
/// oracle price and the initial margin ratio must be positive.
pub fn calculate_max_base_asset_amount(quote_asset_token_amount: u128, init_margin_ratio: u32, oracle_price: i64) -> (r:
    Result<u128, CalcError>)
    ensures
        r == max_base_amount(quote_asset_token_amount, init_margin_ratio, oracle_price),
{
    let q = quote_asset_token_amount;
    let share = q / 100;
    let reserved = if share <= 10 * QUOTE_PRECISION {
        share
    } else {
        10 * QUOTE_PRECISION
    };
    let a = q - reserved;
    let b = match a.checked_mul(MARGIN_PRECISION) {
        Some(b) => b,
        None => {
            return Err(CalcError::MathOverflow);
        },
    };
    if init_margin_ratio == 0 {
        return Err(CalcError::MathOverflow);
    }
    let c = b / (init_margin_ratio as u128);
    let d = match c.checked_mul(BASE_PRECISION) {
        Some(d) => d,
        None => {
            return Err(CalcError::MathOverflow);
        },
    };
    if oracle_price <= 0 {
        return Err(CalcError::MathOverflow);
    }
    Ok(d / (oracle_price as u128))
}

/// The best resting price on one side of a book, with the size there.
#[derive(Clone, Copy, Debug, PartialEq, Eq, Structural)]
pub struct BookLevel {
    pub price: u64,
    pub base_asset_amount: u64,
}

/// An arbitrage against a crossed book: sell at the best bid and buy at the best ask.
#[derive(Clone, Copy, Debug, PartialEq, Eq, Structural)]
pub struct ArbPlan {
    pub bid_price: u64,
    pub ask_price: u64,
    /// Size on offer at both levels.
    pub base_asset_amount: u64,
    /// The position between the two legs.
    pub intermediate_base: i64,
    /// Side of the first leg: the one that moves the position towards zero.
    pub start_direction: PositionDirection,
}

/// The arbitrage open to a user with position `base_init`, if the book is crossed.
pub open spec fn arb_plan(best_bid: Option<BookLevel>, best_ask: Option<BookLevel>, base_init: i64) -> Result<ArbPlan, CalcError> {
    match (best_bid, best_ask) {
        (None, _) => Err(CalcError::Code(ErrorCode::NoBestBid)),
        (Some(_), None) => Err(CalcError::Code(ErrorCode::NoBestAsk)),
        (Some(bid), Some(ask)) => if bid.price < ask.price {
            Err(CalcError::Code(ErrorCode::NoArbOpportunity))
        } else {
            let size = min(bid.base_asset_amount as int, ask.base_asset_amount as int);
            let start = if base_init >= 0 { PositionDirection::Short } else { PositionDirection::Long };
            let mid = if base_init >= 0 { base_init - size } else { base_init + size };
            if !in_i64(mid) {
                Err(CalcError::MathOverflow)
            } else {
                Ok(ArbPlan {
                    bid_price: bid.price,
                    ask_price: ask.price,
                    base_asset_amount: size as u64,
                    intermediate_base: mid as i64,
                    start_direction: start,
                })
            }
        },
    }
}

/// Finds the arbitrage between the best bid and best ask of a book.
pub fn find_arb(best_bid: Option<BookLevel>, best_ask: Option<BookLevel>, base_init: i64) -> (r: Result<ArbPlan, CalcError>)
    ensures
        r == arb_plan(best_bid, best_ask, base_init),
{
    let bid = match best_bid {
        Some(b) => b,
        None => {
            return Err(CalcError::Code(ErrorCode::NoBestBid));
        },
    };
    let ask = match best_ask {
        Some(a) => a,
        None => {
            return Err(CalcError::Code(ErrorCode::NoBestAsk));
        },
    };
    if bid.price < ask.price {
        return Err(CalcError::Code(ErrorCode::NoArbOpportunity));
    }
    let size = if bid.base_asset_amount <= ask.base_asset_amount {
        bid.base_asset_amount
    } else {
        ask.base_asset_amount
    };
    let (mid, start) = if base_init >= 0 {
        (base_init as i128 - size as i128, PositionDirection::Short)
    } else {
        (base_init as i128 + size as i128, PositionDirection::Long)
    };
    if mid < i64::MIN as i128 || mid > i64::MAX as i128 {
        return Err(CalcError::MathOverflow);
    }
    Ok(
        ArbPlan {
            bid_price: bid.price,
            ask_price: ask.price,
            base_asset_amount: size,
            intermediate_base: mid as i64,
            start_direction: start,
        },
    )
}

pub open spec fn arb_leg(direction: PositionDirection, price: u64, size: u64, market_index: u16) -> OrderProposal {
    OrderProposal {
        market_type: MarketType::Perp,
        market_index,
        direction,
        base_asset_amount: size,
        price,
        post_only: PostOnlyParam::Disabled,
        reduce_only: false,
    }
}

/// The size traded: the plan's, at most what the collateral carries, at least the
/// minimum order size.
pub open spec fn arb_size(plan: ArbPlan, max_base_asset_amount: u128, min_order_size: u64) -> Option<u64> {
    if max_base_asset_amount > u64::MAX {
        None
    } else {
        Some(max(min(plan.base_asset_amount as int, max_base_asset_amount as int), min_order_size as int) as u64)
    }
}

/// The two legs of a plan in the order they are placed: first on the plan's starting side.
pub open spec fn arb_legs(plan: ArbPlan, size: u64, market_index: u16) -> Seq<OrderProposal> {
    let buy = arb_leg(PositionDirection::Long, plan.ask_price, size, market_index);
    let sell = arb_leg(PositionDirection::Short, plan.bid_price, size, market_index);
    if plan.start_direction == PositionDirection::Long {
        seq![buy, sell]
    } else {
        seq![sell, buy]
    }
}

fn leg(direction: PositionDirection, price: u64, size: u64, market_index: u16) -> (r: OrderProposal)
    ensures
        r == arb_leg(direction, price, size, market_index),
{
    OrderProposal {
        market_type: MarketType::Perp,
        market_index,
        direction,
        base_asset_amount: size,
        price,
        post_only: PostOnlyParam::Disabled,
        reduce_only: false,
    }
}

/// The immediate-or-cancel orders that carry out `plan` on perpetual market `market_index`.
pub fn arb_orders(plan: &ArbPlan, max_base_asset_amount: u128, min_order_size: u64, market_index: u16) -> (r: Result<
    Vec<OrderProposal>,
    CalcError,
>)
    ensures
        match arb_size(*plan, max_base_asset_amount, min_order_size) {
            None => r == Err::<Vec<OrderProposal>, CalcError>(CalcError::MathOverflow),
            Some(size) => r is Ok && r->Ok_0@ == arb_legs(*plan, size, market_index),
        },
{
    if max_base_asset_amount > u64::MAX as u128 {
        return Err(CalcError::MathOverflow);
    }
    let cap = max_base_asset_amount as u64;
    let size = if plan.base_asset_amount <= cap {
        plan.base_asset_amount
    } else {
        cap
    };
    let size = if size >= min_order_size {
        size
    } else {
        min_order_size
    };
    let buy = leg(PositionDirection::Long, plan.ask_price, size, market_index);
    let sell = leg(PositionDirection::Short, plan.bid_price, size, market_index);
    let legs = if plan.start_direction == PositionDirection::Long {
        vec![buy, sell]
    } else {
        vec![sell, buy]
    };
    assert(legs@ =~= arb_legs(*plan, size, market_index));
    Ok(legs)
}

/// Whether the legs made money: the position is back where it was and the quote amount
/// grew.
pub open spec fn arb_profitable(base_init: i64, quote_init: i64, base_end: i64, quote_end: i64) -> bool {
    base_end == base_init && quote_end > quote_init
}

/// Rejects an arbitrage that left the position changed or did not gain.
pub fn check_arb_outcome(base_init: i64, quote_init: i64, base_end: i64, quote_end: i64) -> (r: Result<(), CalcError>)
    ensures
        arb_profitable(base_init, quote_init, base_end, quote_end) ==> r is Ok,
        !arb_profitable(base_init, quote_init, base_end, quote_end) ==> r == Err::<(), CalcError>(
            CalcError::Code(ErrorCode::NoArbOpportunity),
        ),
{
    if base_end != base_init || quote_end <= quote_init {
        return Err(CalcError::Code(ErrorCode::NoArbOpportunity));
    }
    Ok(())
}

} // verus!
