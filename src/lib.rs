//! Decision engine of a just-in-time liquidity maker: how to cross a taker's
//! auction order within a position envelope, which auctions to attempt, and
//! when a fill run stops.

pub mod arb;
pub mod concurrent;
pub mod constraints;
pub mod crossing;
pub mod error;
pub mod fill;
pub mod jitter;
pub mod params;
pub mod registry;
pub mod state;
pub mod types;
