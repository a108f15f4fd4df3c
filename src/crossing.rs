use vstd::prelude::*;
use crate::error::ErrorCode;
use crate::params::{worst_price_result, JitParams, JitSwiftParams};
use crate::state::{opposite_spec, MarketType, Order, PositionDirection, PostOnlyParam, PriceType};

verus! {

/// Why no counter-order can be proposed.
#[derive(Clone, Copy, Debug, PartialEq, Eq, Structural)]
pub enum CalcError {
    /// A rejection that the maker program reports under its own code.
    Code(ErrorCode),
    /// An intermediate value left the range of its integer type.
    MathOverflow,
    /// The envelope's bounds are both zero: the instrument is not configured.
    EnvelopeNotConfigured,
    /// What is left of the taker's order is nothing, or less than the market's minimum
    /// order size.
    NothingToFill,
}

pub open spec fn in_i64(x: int) -> bool {
    i64::MIN <= x <= i64::MAX
}

pub open spec fn abs(x: int) -> int {
    if x < 0 { -x } else { x }
}

pub open spec fn min(a: int, b: int) -> int {
    if a <= b { a } else { b }
}

pub open spec fn max(a: int, b: int) -> int {
    if a >= b { a } else { b }
}

/// Whether a maker on side `maker` at worst price `worst` may trade at `taker_price`.
pub open spec fn crosses(maker: PositionDirection, taker_price: int, worst: int) -> bool {
    match maker {
        PositionDirection::Long => taker_price <= worst,
        PositionDirection::Short => taker_price >= worst,
    }
}

/// The rejection for a price that does not cross on the maker's side.
pub open spec fn not_crossed_error(maker: PositionDirection) -> ErrorCode {
    match maker {
        PositionDirection::Long => ErrorCode::BidNotCrossed,
        PositionDirection::Short => ErrorCode::AskNotCrossed,
    }
}

/// Room left in the envelope for a maker on side `maker`.
pub open spec fn headroom(maker: PositionDirection, max_position: int, min_position: int, existing: int) -> int {
    match maker {
        PositionDirection::Long => max_position - existing,
        PositionDirection::Short => existing - min_position,
    }
}

/// Size that the envelope allows against a taker with `unfilled` left.
pub open spec fn position_limit(
    max_position: i64,
    min_position: i64,
    maker: PositionDirection,
    unfilled: u64,
    existing: i64,
    min_order_size: u64,
) -> Result<u64, CalcError> {
    let h = headroom(maker, max_position as int, min_position as int, existing as int);
    if !in_i64(h) || min_order_size > i64::MAX as u64 {
        Err(CalcError::MathOverflow)
    } else if h <= min_order_size {
        Err(CalcError::Code(ErrorCode::PositionLimitBreached))
    } else {
        Ok(min(h, unfilled as int) as u64)
    }
}

fn unsigned_abs(x: i64) -> (r: u64)
    ensures
        r as int == abs(x as int),
{
    if x >= 0 {
        x as u64
    } else {
        (0i128 - x as i128) as u64
    }
}

/// Size of the maker's order: the envelope's headroom on the maker's side, at most the
/// taker's unfilled size. Rejects when the headroom does not exceed the minimum order size.
pub fn check_position_limits(
    max_position: i64,
    min_position: i64,
    maker_direction: PositionDirection,
    taker_base_asset_amount_unfilled: u64,
    maker_existing_position: i64,
    min_order_size: u64,
) -> (r: Result<u64, CalcError>)
    ensures
        r == position_limit(
            max_position,
            min_position,
            maker_direction,
            taker_base_asset_amount_unfilled,
            maker_existing_position,
            min_order_size,
        ),
{
    let size: i128 = match maker_direction {
        PositionDirection::Long => max_position as i128 - maker_existing_position as i128,
        PositionDirection::Short => maker_existing_position as i128 - min_position as i128,
    };
    if size < i64::MIN as i128 || size > i64::MAX as i128 || min_order_size > i64::MAX as u64 {
        return Err(CalcError::MathOverflow);
    }
    if size <= min_order_size as i128 {
        return Err(CalcError::Code(ErrorCode::PositionLimitBreached));
    }
    let size = unsigned_abs(size as i64);
    if size <= taker_base_asset_amount_unfilled {
        Ok(size)
    } else {
        Ok(taker_base_asset_amount_unfilled)
    }
}

/// Rejects a taker price that the maker's worst price does not cross.
pub fn check_crossing(maker_direction: PositionDirection, taker_price: u64, maker_worst_price: u64) -> (r: Result<
    (),
    ErrorCode,
>)
    ensures
        r is Ok <==> crosses(maker_direction, taker_price as int, maker_worst_price as int),
        r is Err ==> r == Err::<(), ErrorCode>(not_crossed_error(maker_direction)),
{
    match maker_direction {
        PositionDirection::Long => {
            if taker_price > maker_worst_price {
                return Err(ErrorCode::BidNotCrossed);
            }
        },
        PositionDirection::Short => {
            if taker_price < maker_worst_price {
                return Err(ErrorCode::AskNotCrossed);
            }
        },
    }
    Ok(())
}

} // verus!

verus! {

/// Best bid and ask of an instrument's continuous reference price (the AMM of a
/// perpetual market).
#[derive(Clone, Copy, Debug, PartialEq, Eq, Structural)]
pub struct AmmQuote {
    pub bid_price: u64,
    pub ask_price: u64,
}

/// What the maker reads of an instrument for one decision.
#[derive(Clone, Copy, Debug, PartialEq, Eq, Structural)]
pub struct MarketSnapshot {
    pub min_order_size: u64,
    /// Present where the instrument has a continuous reference price.
    pub amm: Option<AmmQuote>,
}

/// Counter-order that the maker places against a taker.
#[derive(Clone, Copy, Debug, PartialEq, Eq, Structural)]
pub struct OrderProposal {
    pub market_type: MarketType,
    pub market_index: u16,
    pub direction: PositionDirection,
    pub base_asset_amount: u64,
    pub price: u64,
    pub post_only: PostOnlyParam,
    pub reduce_only: bool,
}

/// A proposal with the taker figures it was computed from.
#[derive(Clone, Copy, Debug, PartialEq, Eq, Structural)]
pub struct ProcessedOrder {
    pub order_params: OrderProposal,
    /// What is left of the taker's order.
    pub taker_base_asset_amount_unfilled: u64,
    pub taker_price: u64,
}

/// The taker's price: the resolved limit price, or else the reference price on the
/// taker's side for a perpetual market.
pub open spec fn taker_price_of(order: Order, limit_price: Option<u64>, market: MarketSnapshot) -> Option<u64> {
    match limit_price {
        Some(p) => Some(p),
        None => match (order.market_type, market.amm) {
            (MarketType::Perp, Some(a)) => Some(
                match order.direction {
                    PositionDirection::Long => a.ask_price,
                    PositionDirection::Short => a.bid_price,
                },
            ),
            _ => None,
        },
    }
}

/// The maker's price: the taker's, or on a perpetual market the reference price where
/// that is at least as good for the taker, but never past the maker's worst price.
pub open spec fn maker_price_of(
    market_type: MarketType,
    maker: PositionDirection,
    taker_price: u64,
    worst: u64,
    amm: Option<AmmQuote>,
) -> u64 {
    match (market_type, amm) {
        (MarketType::Spot, _) | (_, None) => taker_price,
        (MarketType::Perp, Some(a)) => match maker {
            PositionDirection::Long => if taker_price <= a.bid_price {
                min(a.bid_price as int, worst as int) as u64
            } else {
                taker_price
            },
            PositionDirection::Short => if taker_price >= a.ask_price {
                max(a.ask_price as int, worst as int) as u64
            } else {
                taker_price
            },
        },
    }
}

/// The outcome of crossing `order` within an envelope.
pub open spec fn propose(
    order: Order,
    limit_price: Option<u64>,
    market: MarketSnapshot,
    maker_existing_position: i64,
    max_position: i64,
    min_position: i64,
    maker_worst_price: u64,
    post_only: PostOnlyParam,
    slot: u64,
) -> Result<ProcessedOrder, CalcError> {
    let maker = opposite_spec(order.direction);
    if max_position == 0 && min_position == 0 {
        Err(CalcError::EnvelopeNotConfigured)
    } else if !auction_end_in_range(order, slot) {
        Err(CalcError::MathOverflow)
    } else {
    match taker_price_of(order, limit_price, market) {
        None => Err(CalcError::Code(ErrorCode::TakerOrderNotFound)),
        Some(tp) => if !crosses(maker, tp as int, maker_worst_price as int) {
            Err(CalcError::Code(not_crossed_error(maker)))
        } else if order.base_asset_amount < order.base_asset_amount_filled {
            Err(CalcError::MathOverflow)
        } else {
            let unfilled = (order.base_asset_amount - order.base_asset_amount_filled) as u64;
            if unfilled == 0 || unfilled < market.min_order_size {
                Err(CalcError::NothingToFill)
            } else {
            match position_limit(
                max_position,
                min_position,
                maker,
                unfilled,
                maker_existing_position,
                market.min_order_size,
            ) {
                Err(e) => Err(e),
                Ok(size) => Ok(
                    ProcessedOrder {
                        order_params: OrderProposal {
                            market_type: order.market_type,
                            market_index: order.market_index,
                            direction: maker,
                            base_asset_amount: size,
                            price: maker_price_of(order.market_type, maker, tp, maker_worst_price, market.amm),
                            post_only,
                            reduce_only: false,
                        },
                        taker_base_asset_amount_unfilled: unfilled,
                        taker_price: tp,
                    },
                ),
            }
            }
        },
    }
    }
}

/// Whether the auction's end slot and the current slot `slot` are in the range of `i64`,
/// where the slots left in the auction are counted.
pub open spec fn auction_end_in_range(order: Order, slot: u64) -> bool {
    order.slot + order.auction_duration <= i64::MAX && slot <= i64::MAX
}

/// Turns a taker's order into the maker's counter-order: resolves the taker's price,
/// checks that it crosses the maker's worst price, prices the maker and sizes it within
/// the envelope. `limit_price` is the order's price as resolved at the current slot
/// against the oracle, `None` where the order has none; `slot` is the current slot.
pub fn process_order(
    taker_order: &Order,
    limit_price: Option<u64>,
    market: &MarketSnapshot,
    maker_existing_position: i64,
    max_position: i64,
    min_position: i64,
    maker_worst_price: u64,
    post_only: PostOnlyParam,
    slot: u64,
) -> (r: Result<ProcessedOrder, CalcError>)
    ensures
        r == propose(
            *taker_order,
            limit_price,
            *market,
            maker_existing_position,
            max_position,
            min_position,
            maker_worst_price,
            post_only,
            slot,
        ),
{
    if max_position == 0 && min_position == 0 {
        return Err(CalcError::EnvelopeNotConfigured);
    }
    if taker_order.slot as u128 + taker_order.auction_duration as u128 > i64::MAX as u128
        || slot > i64::MAX as u64 {
        return Err(CalcError::MathOverflow);
    }
    let taker_direction = taker_order.direction;
    let taker_price = match limit_price {
        Some(p) => p,
        None => {
            match (taker_order.market_type, market.amm) {
                (MarketType::Perp, Some(a)) => match taker_direction {
                    PositionDirection::Long => a.ask_price,
                    PositionDirection::Short => a.bid_price,
                },
                _ => {
                    return Err(CalcError::Code(ErrorCode::TakerOrderNotFound));
                },
            }
        },
    };
    let maker_direction = taker_direction.opposite();
    match check_crossing(maker_direction, taker_price, maker_worst_price) {
        Ok(()) => {},
        Err(e) => {
            return Err(CalcError::Code(e));
        },
    }
    let maker_price = match (taker_order.market_type, market.amm) {
        (MarketType::Spot, _) | (_, None) => taker_price,
        (MarketType::Perp, Some(a)) => match maker_direction {
            PositionDirection::Long => if taker_price <= a.bid_price {
                if a.bid_price <= maker_worst_price {
                    a.bid_price
                } else {
                    maker_worst_price
                }
            } else {
                taker_price
            },
            PositionDirection::Short => if taker_price >= a.ask_price {
                if a.ask_price >= maker_worst_price {
                    a.ask_price
                } else {
                    maker_worst_price
                }
            } else {
                taker_price
            },
        },
    };
    if taker_order.base_asset_amount < taker_order.base_asset_amount_filled {
        return Err(CalcError::MathOverflow);
    }
    let remaining = taker_order.base_asset_amount - taker_order.base_asset_amount_filled;
    let unfilled = remaining;
    if unfilled == 0 || unfilled < market.min_order_size {
        return Err(CalcError::NothingToFill);
    }
    let size = match check_position_limits(
        max_position,
        min_position,
        maker_direction,
        unfilled,
        maker_existing_position,
        market.min_order_size,
    ) {
        Ok(s) => s,
        Err(e) => {
            return Err(e);
        },
    };
    Ok(
        ProcessedOrder {
            order_params: OrderProposal {
                market_type: taker_order.market_type,
                market_index: taker_order.market_index,
                direction: maker_direction,
                base_asset_amount: size,
                price: maker_price,
                post_only,
                reduce_only: false,
            },
            taker_base_asset_amount_unfilled: unfilled,
            taker_price,
        },
    )
}

/// A proposal is only ever made at a taker price that crosses the maker's worst price,
/// and the maker's own price never goes past that worst price; a price that does not
/// cross is rejected with the error of the maker's side.
pub proof fn lemma_proposal_crosses(
    order: Order,
    limit_price: Option<u64>,
    market: MarketSnapshot,
    existing: i64,
    max_position: i64,
    min_position: i64,
    worst: u64,
    post_only: PostOnlyParam,
    slot: u64,
)
    ensures
        ({
            let r = propose(order, limit_price, market, existing, max_position, min_position, worst, post_only, slot);
            let maker = opposite_spec(order.direction);
            &&& r is Ok ==> crosses(maker, r->Ok_0.taker_price as int, worst as int)
            &&& r is Ok ==> crosses(maker, r->Ok_0.order_params.price as int, worst as int)
            &&& r is Ok ==> r->Ok_0.order_params.direction == maker
            &&& forall|tp: u64| taker_price_of(order, limit_price, market) == Some(tp)
                && !(max_position == 0 && min_position == 0) && auction_end_in_range(order, slot)
                && !crosses(maker, tp as int, worst as int)
                ==> r == Err::<ProcessedOrder, CalcError>(CalcError::Code(not_crossed_error(maker)))
        }),
{
}

/// A proposal's size is positive, at least the minimum order size, at most what is left
/// of the taker's order, and a full fill at that size keeps the maker's position within
/// the envelope.
pub proof fn lemma_proposal_size_bound(
    order: Order,
    limit_price: Option<u64>,
    market: MarketSnapshot,
    existing: i64,
    max_position: i64,
    min_position: i64,
    worst: u64,
    post_only: PostOnlyParam,
    slot: u64,
)
    ensures
        ({
            let r = propose(order, limit_price, market, existing, max_position, min_position, worst, post_only, slot);
            let size = r->Ok_0.order_params.base_asset_amount as int;
            let remaining = order.base_asset_amount - order.base_asset_amount_filled;
            r is Ok ==> {
                &&& 0 < size
                &&& market.min_order_size <= size
                &&& size <= r->Ok_0.taker_base_asset_amount_unfilled
                &&& size <= remaining
                &&& r->Ok_0.order_params.direction == PositionDirection::Long ==> existing + size <= max_position
                &&& r->Ok_0.order_params.direction == PositionDirection::Short ==> existing - size >= min_position
            }
        }),
{
}

} // verus!

verus! {

/// The taker's unfilled size after the maker's order went in: what is left of its
/// order, or zero where the order is gone.
pub open spec fn unfilled_after(order_after: Option<Order>) -> int {
    match order_after {
        None => 0,
        Some(o) => o.base_asset_amount - o.base_asset_amount_filled,
    }
}

/// Rejects a placement that left the taker's unfilled size where it was (`NoFill`).
/// `order_after` is the taker's order as read after the placement, `None` where it is gone.
pub fn check_taker_filled(taker_base_asset_amount_unfilled: u64, order_after: Option<Order>) -> (r: Result<(), CalcError>)
    ensures
        (order_after is Some && order_after->Some_0.base_asset_amount < order_after->Some_0.base_asset_amount_filled)
            ==> r == Err::<(), CalcError>(CalcError::MathOverflow),
        !(order_after is Some && order_after->Some_0.base_asset_amount < order_after->Some_0.base_asset_amount_filled)
            ==> (r is Ok <==> unfilled_after(order_after) != taker_base_asset_amount_unfilled as int),
        r is Err && !(order_after is Some && order_after->Some_0.base_asset_amount
            < order_after->Some_0.base_asset_amount_filled) ==> r == Err::<(), CalcError>(
            CalcError::Code(ErrorCode::NoFill),
        ),
{
    let after = match order_after {
        None => 0,
        Some(o) => {
            if o.base_asset_amount < o.base_asset_amount_filled {
                return Err(CalcError::MathOverflow);
            }
            o.base_asset_amount - o.base_asset_amount_filled
        },
    };
    if after == taker_base_asset_amount_unfilled {
        return Err(CalcError::Code(ErrorCode::NoFill));
    }
    Ok(())
}

/// An entry of a taker's list of signed orders: the order's identifier and the id of
/// the order it became.
#[derive(Clone, Copy, Debug)]
pub struct SignedOrderId {
    pub uuid: [u8; 8],
    pub order_id: u32,
}

/// Index of the first entry with identifier `uuid`.
pub open spec fn first_with_uuid(ids: Seq<SignedOrderId>, uuid: Seq<u8>, i: int) -> bool {
    0 <= i < ids.len() && ids[i].uuid@ == uuid && forall|k: int| 0 <= k < i ==> ids[k].uuid@ != uuid
}

fn same_uuid(a: &[u8; 8], b: &[u8; 8]) -> (r: bool)
    ensures
        r == (a@ == b@),
{
    let mut i: usize = 0;
    while i < 8
        invariant
            i <= 8,
            a@.len() == 8,
            b@.len() == 8,
            forall|k: int| 0 <= k < i ==> a@[k] == b@[k],
        decreases 8 - i,
    {
        if a[i] != b[i] {
            return false;
        }
        i = i + 1;
    }
    assert(a@ =~= b@);
    true
}

/// The id of the order that the signed order `uuid` became, from the taker's list.
pub fn find_signed_order_id(ids: &Vec<SignedOrderId>, uuid: [u8; 8]) -> (r: Result<u32, CalcError>)
    ensures
        r is Ok ==> exists|i: int| first_with_uuid(ids@, uuid@, i) && r->Ok_0 == ids@[i].order_id,
        r is Err ==> r == Err::<u32, CalcError>(CalcError::Code(ErrorCode::SignedMsgOrderDoesNotExist))
            && forall|k: int| 0 <= k < ids.len() ==> ids@[k].uuid@ != uuid@,
{
    let mut i: usize = 0;
    while i < ids.len()
        invariant
            i <= ids.len(),
            forall|k: int| 0 <= k < i ==> ids@[k].uuid@ != uuid@,
        decreases ids.len() - i,
    {
        if same_uuid(&ids[i].uuid, &uuid) {
            assert(first_with_uuid(ids@, uuid@, i as int));
            return Ok(ids[i].order_id);
        }
        i = i + 1;
    }
    Err(CalcError::Code(ErrorCode::SignedMsgOrderDoesNotExist))
}

} // verus!

verus! {

/// The post-only mode used where the envelope names none.
pub open spec fn post_only_or_default(p: Option<PostOnlyParam>) -> PostOnlyParam {
    match p {
        Some(m) => m,
        None => PostOnlyParam::MustPostOnly,
    }
}

/// The outcome of the maker program's fill of an auction order within envelope bounds
/// `max_position`/`min_position`, worst prices from `bid`/`ask`, and a post-only mode.
pub open spec fn jit_result(
    bid: i64,
    ask: i64,
    price_type: PriceType,
    max_position: i64,
    min_position: i64,
    post_only: Option<PostOnlyParam>,
    taker_order: Order,
    limit_price: Option<u64>,
    market: MarketSnapshot,
    maker_existing_position: i64,
    oracle_price: i64,
    slot: u64,
) -> Result<ProcessedOrder, CalcError> {
    match worst_price_result(bid, ask, price_type, oracle_price, taker_order.direction) {
        Err(e) => Err(e),
        Ok(w) => propose(
            taker_order,
            limit_price,
            market,
            maker_existing_position,
            max_position,
            min_position,
            w,
            post_only_or_default(post_only),
            slot,
        ),
    }
}

fn resolve_post_only(p: Option<PostOnlyParam>) -> (r: PostOnlyParam)
    ensures
        r == post_only_or_default(p),
{
    match p {
        Some(m) => m,
        None => PostOnlyParam::MustPostOnly,
    }
}

/// The counter-order that the maker program places against `taker_order` under `params`,
/// at oracle price `oracle_price` and current slot `slot`.
pub fn jit(
    params: JitParams,
    taker_order: &Order,
    limit_price: Option<u64>,
    market: &MarketSnapshot,
    maker_existing_position: i64,
    oracle_price: i64,
    slot: u64,
) -> (r: Result<ProcessedOrder, CalcError>)
    ensures
        r == jit_result(
            params.bid,
            params.ask,
            params.price_type,
            params.max_position,
            params.min_position,
            params.post_only,
            *taker_order,
            limit_price,
            *market,
            maker_existing_position,
            oracle_price,
            slot,
        ),
{
    let worst = match params.get_worst_price(oracle_price, taker_order.direction) {
        Ok(w) => w,
        Err(e) => {
            return Err(e);
        },
    };
    process_order(
        taker_order,
        limit_price,
        market,
        maker_existing_position,
        params.max_position,
        params.min_position,
        worst,
        resolve_post_only(params.post_only),
        slot,
    )
}

/// The counter-order that the maker program places against the order that a signed
/// order became, under `params`, at oracle price `oracle_price` and current slot `slot`.
pub fn jit_swift(
    params: JitSwiftParams,
    taker_order: &Order,
    limit_price: Option<u64>,
    market: &MarketSnapshot,
    maker_existing_position: i64,
    oracle_price: i64,
    slot: u64,
) -> (r: Result<ProcessedOrder, CalcError>)
    ensures
        r == jit_result(
            params.bid,
            params.ask,
            params.price_type,
            params.max_position,
            params.min_position,
            params.post_only,
            *taker_order,
            limit_price,
            *market,
            maker_existing_position,
            oracle_price,
            slot,
        ),
{
    let worst = match params.get_worst_price(oracle_price, taker_order.direction) {
        Ok(w) => w,
        Err(e) => {
            return Err(e);
        },
    };
    process_order(
        taker_order,
        limit_price,
        market,
        maker_existing_position,
        params.max_position,
        params.min_position,
        worst,
        resolve_post_only(params.post_only),
        slot,
    )
}

} // verus!

verus! {

/// Whether `orders[i]` is the first order with id `order_id`.
pub open spec fn first_with_id(orders: Seq<Order>, order_id: u32, i: int) -> bool {
    0 <= i < orders.len() && orders[i].order_id == order_id && forall|k: int|
        0 <= k < i ==> orders[k].order_id != order_id
}

/// The taker's order with id `order_id`, from the orders of its account.
pub fn find_order(orders: &Vec<Order>, order_id: u32) -> (r: Result<Order, CalcError>)
    ensures
        r is Ok ==> exists|i: int| first_with_id(orders@, order_id, i) && r->Ok_0 == orders@[i],
        r is Err ==> r == Err::<Order, CalcError>(CalcError::Code(ErrorCode::TakerOrderNotFound))
            && forall|k: int| 0 <= k < orders.len() ==> orders@[k].order_id != order_id,
{
    let mut i: usize = 0;
    while i < orders.len()
        invariant
            i <= orders.len(),
            forall|k: int| 0 <= k < i ==> orders@[k].order_id != order_id,
        decreases orders.len() - i,
    {
        if orders[i].order_id == order_id {
            assert(first_with_id(orders@, order_id, i as int));
            return Ok(orders[i]);
        }
        i = i + 1;
    }
    Err(CalcError::Code(ErrorCode::TakerOrderNotFound))
}

} // verus!
