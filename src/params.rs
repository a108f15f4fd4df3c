use vstd::prelude::*;
use crate::crossing::{abs, in_i64, CalcError};
use crate::state::{PositionDirection, PostOnlyParam, PriceType};

verus! {

/// The maker's worst acceptable price against a taker on side `taker`: the envelope's ask
/// against a buyer and its bid against a seller, either literally or added to the oracle
/// price. `None` where that sum leaves `i64`.
pub open spec fn worst_price(bid: i64, ask: i64, price_type: PriceType, oracle_price: i64, taker: PositionDirection) -> Option<u64> {
    let offset = match taker {
        PositionDirection::Long => ask as int,
        PositionDirection::Short => bid as int,
    };
    match price_type {
        PriceType::Limit => Some(abs(offset) as u64),
        PriceType::Oracle => {
            let s = oracle_price as int + offset;
            if in_i64(s) { Some(abs(s) as u64) } else { None }
        },
    }
}

pub open spec fn worst_price_result(bid: i64, ask: i64, price_type: PriceType, oracle_price: i64, taker: PositionDirection) -> Result<u64, CalcError> {
    match worst_price(bid, ask, price_type, oracle_price, taker) {
        Some(p) => Ok(p),
        None => Err(CalcError::MathOverflow),
    }
}

fn compute_worst_price(bid: i64, ask: i64, price_type: PriceType, oracle_price: i64, taker: PositionDirection) -> (r: Result<u64, CalcError>)
    ensures
        r == worst_price_result(bid, ask, price_type, oracle_price, taker),
{
    let offset: i64 = match taker {
        PositionDirection::Long => ask,
        PositionDirection::Short => bid,
    };
    let v: i128 = match price_type {
        PriceType::Limit => offset as i128,
        PriceType::Oracle => oracle_price as i128 + offset as i128,
    };
    if v < i64::MIN as i128 || v > i64::MAX as i128 {
        return Err(CalcError::MathOverflow);
    }
    if v >= 0 {
        Ok(v as u64)
    } else {
        Ok((0 - v) as u64)
    }
}

/// Envelope of one instrument: the maker's position bounds and worst prices.
#[derive(Clone, Copy, Debug, PartialEq, Eq, Structural)]
pub struct JitParams {
    pub taker_order_id: u32,
    pub max_position: i64,
    pub min_position: i64,
    pub bid: i64,
    pub ask: i64,
    pub price_type: PriceType,
    pub post_only: Option<PostOnlyParam>,
}

impl JitParams {
    /// An envelope with no bounds, literal prices of zero and no post-only choice.
    pub fn default() -> (r: Self)
        ensures
            r == (JitParams {
                taker_order_id: 0,
                max_position: 0,
                min_position: 0,
                bid: 0,
                ask: 0,
                price_type: PriceType::Limit,
                post_only: None,
            }),
    {
        JitParams {
            taker_order_id: 0,
            max_position: 0,
            min_position: 0,
            bid: 0,
            ask: 0,
            price_type: PriceType::Limit,
            post_only: None,
        }
    }

    /// Worst price at which the maker trades against a taker on side `taker_direction`.
    pub fn get_worst_price(self, oracle_price: i64, taker_direction: PositionDirection) -> (r: Result<u64, CalcError>)
        ensures
            r == worst_price_result(self.bid, self.ask, self.price_type, oracle_price, taker_direction),
    {
        compute_worst_price(self.bid, self.ask, self.price_type, oracle_price, taker_direction)
    }
}

/// Envelope for a signed order, which is named by its 8-byte identifier.
#[derive(Clone, Copy, Debug)]
pub struct JitSwiftParams {
    pub swift_order_uuid: [u8; 8],
    pub max_position: i64,
    pub min_position: i64,
    pub bid: i64,
    pub ask: i64,
    pub price_type: PriceType,
    pub post_only: Option<PostOnlyParam>,
}

impl JitSwiftParams {
    /// An envelope with no bounds, a zero identifier, literal prices of zero and no
    /// post-only choice.
    pub fn default() -> (r: Self)
        ensures
            r.swift_order_uuid@ == seq![0u8, 0u8, 0u8, 0u8, 0u8, 0u8, 0u8, 0u8],
            r.max_position == 0,
            r.min_position == 0,
            r.bid == 0,
            r.ask == 0,
            r.price_type == PriceType::Limit,
            r.post_only is None,
    {
        let r = JitSwiftParams {
            swift_order_uuid: [0u8; 8],
            max_position: 0,
            min_position: 0,
            bid: 0,
            ask: 0,
            price_type: PriceType::Limit,
            post_only: None,
        };
        assert(r.swift_order_uuid@ =~= seq![0u8, 0u8, 0u8, 0u8, 0u8, 0u8, 0u8, 0u8]);
        r
    }

    /// Worst price at which the maker trades against a taker on side `taker_direction`.
    pub fn get_worst_price(self, oracle_price: i64, taker_direction: PositionDirection) -> (r: Result<u64, CalcError>)
        ensures
            r == worst_price_result(self.bid, self.ask, self.price_type, oracle_price, taker_direction),
    {
        compute_worst_price(self.bid, self.ask, self.price_type, oracle_price, taker_direction)
    }
}

/// Envelope that the operator configures per instrument for the client side.
#[derive(Clone, Copy, Debug, PartialEq, Eq, Structural)]
pub struct JitIxParams {
    pub max_position: i64,
    pub min_position: i64,
    pub bid: i64,
    pub ask: i64,
    pub price_type: PriceType,
    pub post_only: Option<PostOnlyParam>,
}

impl JitIxParams {
    pub fn new(
        max_position: i64,
        min_position: i64,
        bid: i64,
        ask: i64,
        price_type: PriceType,
        post_only: Option<PostOnlyParam>,
    ) -> (r: Self)
        ensures
            r == (JitIxParams { max_position, min_position, bid, ask, price_type, post_only }),
    {
        JitIxParams { max_position, min_position, bid, ask, price_type, post_only }
    }

    /// Whether bounds are configured: an envelope whose bounds are both zero is not.
    pub open spec fn spec_is_configured(&self) -> bool {
        !(self.max_position == 0 && self.min_position == 0)
    }

    pub fn is_configured(&self) -> (r: bool)
        ensures
            r == self.spec_is_configured(),
    {
        !(self.max_position == 0 && self.min_position == 0)
    }

    /// The program's envelope for the taker order `taker_order_id`.
    pub fn to_jit_params(&self, taker_order_id: u32) -> (r: JitParams)
        ensures
            r == (JitParams {
                taker_order_id,
                max_position: self.max_position,
                min_position: self.min_position,
                bid: self.bid,
                ask: self.ask,
                price_type: self.price_type,
                post_only: self.post_only,
            }),
    {
        JitParams {
            taker_order_id,
            max_position: self.max_position,
            min_position: self.min_position,
            bid: self.bid,
            ask: self.ask,
            price_type: self.price_type,
            post_only: self.post_only,
        }
    }
}

} // verus!
