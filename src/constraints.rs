use vstd::prelude::*;
use crate::crossing::{in_i64, CalcError};
use crate::error::ErrorCode;
use crate::state::MarketType;

verus! {

/// Bounds that a user's net position, with all open orders filled, must stay within on
/// one market.
#[derive(Clone, Copy, Debug, PartialEq, Eq, Structural)]
pub struct OrderConstraint {
    pub max_position: i64,
    pub min_position: i64,
    pub market_index: u16,
    pub market_type: MarketType,
}

/// A user's position on one market, with the size of its open bids (positive) and open
/// asks (negative).
#[derive(Clone, Copy, Debug, PartialEq, Eq, Structural)]
pub struct PositionSnapshot {
    pub base_asset_amount: i64,
    pub open_bids: i64,
    pub open_asks: i64,
}

/// The outcome of checking a position against a constraint.
pub open spec fn constraint_result(c: OrderConstraint, current: i64, open_bids: i64, open_asks: i64) -> Result<(), CalcError> {
    let max_long = current + open_bids;
    let max_short = current + open_asks;
    if !in_i64(max_long) {
        Err(CalcError::MathOverflow)
    } else if max_long > c.max_position {
        Err(CalcError::Code(ErrorCode::OrderSizeBreached))
    } else if !in_i64(max_short) {
        Err(CalcError::MathOverflow)
    } else if max_short < c.min_position {
        Err(CalcError::Code(ErrorCode::OrderSizeBreached))
    } else {
        Ok(())
    }
}

impl OrderConstraint {
    /// Rejects a position whose open bids could take it above the maximum, or whose open
    /// asks could take it below the minimum.
    pub fn check(&self, current_position: i64, open_bids: i64, open_asks: i64) -> (r: Result<(), CalcError>)
        ensures
            r == constraint_result(*self, current_position, open_bids, open_asks),
    {
        let max_long = current_position as i128 + open_bids as i128;
        if max_long < i64::MIN as i128 || max_long > i64::MAX as i128 {
            return Err(CalcError::MathOverflow);
        }
        if max_long > self.max_position as i128 {
            return Err(CalcError::Code(ErrorCode::OrderSizeBreached));
        }
        let max_short = current_position as i128 + open_asks as i128;
        if max_short < i64::MIN as i128 || max_short > i64::MAX as i128 {
            return Err(CalcError::MathOverflow);
        }
        if max_short < self.min_position as i128 {
            return Err(CalcError::Code(ErrorCode::OrderSizeBreached));
        }
        Ok(())
    }
}

/// The first failing constraint from index `i` on; a constraint on a market where the
/// user holds no position is passed over.
pub open spec fn constraints_result(cs: Seq<OrderConstraint>, ps: Seq<Option<PositionSnapshot>>, i: int) -> Result<(), CalcError>
    decreases cs.len() - i,
{
    if i < 0 || i >= cs.len() {
        Ok(())
    } else {
        match ps[i] {
            None => constraints_result(cs, ps, i + 1),
            Some(p) => match constraint_result(cs[i], p.base_asset_amount, p.open_bids, p.open_asks) {
                Err(e) => Err(e),
                Ok(()) => constraints_result(cs, ps, i + 1),
            },
        }
    }
}

/// Checks each constraint against the user's position on its market, `positions[i]`
/// being the position for `constraints[i]`, and stops at the first that fails.
pub fn check_order_constraints(
    constraints: &Vec<OrderConstraint>,
    positions: &Vec<Option<PositionSnapshot>>,
) -> (r: Result<(), CalcError>)
    requires
        constraints.len() == positions.len(),
    ensures
        r == constraints_result(constraints@, positions@, 0),
{
    let mut i: usize = 0;
    while i < constraints.len()
        invariant
            i <= constraints.len(),
            constraints.len() == positions.len(),
            constraints_result(constraints@, positions@, 0) == constraints_result(
                constraints@,
                positions@,
                i as int,
            ),
        decreases constraints.len() - i,
    {
        match positions[i] {
            None => {},
            Some(p) => {
                let c = constraints[i];
                match c.check(p.base_asset_amount, p.open_bids, p.open_asks) {
                    Ok(()) => {},
                    Err(e) => {
                        return Err(e);
                    },
                }
            },
        }
        i = i + 1;
    }
    Ok(())
}

} // verus!
