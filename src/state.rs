use vstd::prelude::*;

verus! {

/// How the maker's order must behave when it would take liquidity.
#[derive(Clone, Copy, Debug, PartialEq, Eq, Structural)]
pub enum PostOnlyParam {
    /// No post-only requirement.
    Disabled,
    /// The transaction fails if the order cannot be post only.
    MustPostOnly,
    /// The transaction succeeds and the order is not placed if it cannot be post only.
    TryPostOnly,
    /// The price is moved so that the order is post only.
    Slide,
}

/// Whether the envelope's bid and ask are literal prices or offsets from the oracle.
#[derive(Clone, Copy, Debug, PartialEq, Eq, Structural)]
pub enum PriceType {
    Limit,
    Oracle,
}

/// Kind of market an instrument trades on.
#[derive(Clone, Copy, Debug, PartialEq, Eq, Structural)]
pub enum MarketType {
    Perp,
    Spot,
}

/// Side of an order.
#[derive(Clone, Copy, Debug, PartialEq, Eq, Structural)]
pub enum PositionDirection {
    Long,
    Short,
}

pub open spec fn opposite_spec(d: PositionDirection) -> PositionDirection {
    match d {
        PositionDirection::Long => PositionDirection::Short,
        PositionDirection::Short => PositionDirection::Long,
    }
}

impl PositionDirection {
    /// The other side.
    pub fn opposite(self) -> (r: PositionDirection)
        ensures
            r == opposite_spec(self),
    {
        match self {
            PositionDirection::Long => PositionDirection::Short,
            PositionDirection::Short => PositionDirection::Long,
        }
    }
}

} // verus!

verus! {

/// Life-cycle state of an order.
#[derive(Clone, Copy, Debug, PartialEq, Eq, Structural)]
pub enum OrderStatus {
    Init,
    Open,
    Filled,
    Canceled,
}

/// Snapshot of a taker's order, as observed on one update.
#[derive(Clone, Copy, Debug, PartialEq, Eq, Structural)]
pub struct Order {
    pub order_id: u32,
    pub status: OrderStatus,
    pub market_type: MarketType,
    pub market_index: u16,
    pub direction: PositionDirection,
    pub base_asset_amount: u64,
    pub base_asset_amount_filled: u64,
    /// Slot at which the auction started.
    pub slot: u64,
    /// Length of the auction, in slots.
    pub auction_duration: u8,
}

impl Order {
    /// What is left of the order; `None` where more is filled than was ordered.
    pub fn unfilled(&self) -> (r: Option<u64>)
        ensures
            self.base_asset_amount_filled <= self.base_asset_amount ==> r == Some(
                (self.base_asset_amount - self.base_asset_amount_filled) as u64,
            ),
            self.base_asset_amount_filled > self.base_asset_amount ==> r is None,
    {
        if self.base_asset_amount_filled <= self.base_asset_amount {
            Some(self.base_asset_amount - self.base_asset_amount_filled)
        } else {
            None
        }
    }
}

} // verus!
