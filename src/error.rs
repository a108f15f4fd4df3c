use vstd::prelude::*;

verus! {

/// Failures of the maker program, numbered from `ERROR_CODE_OFFSET` in this order.
#[derive(Clone, Copy, Debug, PartialEq, Eq, Structural)]
pub enum ErrorCode {
    BidNotCrossed,
    AskNotCrossed,
    TakerOrderNotFound,
    OrderSizeBreached,
    NoBestBid,
    NoBestAsk,
    NoArbOpportunity,
    UnprofitableArb,
    PositionLimitBreached,
    NoFill,
    SignedMsgOrderDoesNotExist,
}

/// Number of the first program error.
pub const ERROR_CODE_OFFSET: u32 = 6000;

pub open spec fn code_index(e: ErrorCode) -> u32 {
    match e {
        ErrorCode::BidNotCrossed => 0,
        ErrorCode::AskNotCrossed => 1,
        ErrorCode::TakerOrderNotFound => 2,
        ErrorCode::OrderSizeBreached => 3,
        ErrorCode::NoBestBid => 4,
        ErrorCode::NoBestAsk => 5,
        ErrorCode::NoArbOpportunity => 6,
        ErrorCode::UnprofitableArb => 7,
        ErrorCode::PositionLimitBreached => 8,
        ErrorCode::NoFill => 9,
        ErrorCode::SignedMsgOrderDoesNotExist => 10,
    }
}


/// The message under which the program reports an error: the variant's name.
pub open spec fn error_name(e: ErrorCode) -> Seq<char> {
    match e {
        ErrorCode::BidNotCrossed => "BidNotCrossed"@,
        ErrorCode::AskNotCrossed => "AskNotCrossed"@,
        ErrorCode::TakerOrderNotFound => "TakerOrderNotFound"@,
        ErrorCode::OrderSizeBreached => "OrderSizeBreached"@,
        ErrorCode::NoBestBid => "NoBestBid"@,
        ErrorCode::NoBestAsk => "NoBestAsk"@,
        ErrorCode::NoArbOpportunity => "NoArbOpportunity"@,
        ErrorCode::UnprofitableArb => "UnprofitableArb"@,
        ErrorCode::PositionLimitBreached => "PositionLimitBreached"@,
        ErrorCode::NoFill => "NoFill"@,
        ErrorCode::SignedMsgOrderDoesNotExist => "SignedMsgOrderDoesNotExist"@,
    }
}

impl ErrorCode {
    /// The program's message for this error.
    pub fn name(self) -> (r: &'static str)
        ensures
            r@ == error_name(self),
    {
        match self {
            ErrorCode::BidNotCrossed => "BidNotCrossed",
            ErrorCode::AskNotCrossed => "AskNotCrossed",
            ErrorCode::TakerOrderNotFound => "TakerOrderNotFound",
            ErrorCode::OrderSizeBreached => "OrderSizeBreached",
            ErrorCode::NoBestBid => "NoBestBid",
            ErrorCode::NoBestAsk => "NoBestAsk",
            ErrorCode::NoArbOpportunity => "NoArbOpportunity",
            ErrorCode::UnprofitableArb => "UnprofitableArb",
            ErrorCode::PositionLimitBreached => "PositionLimitBreached",
            ErrorCode::NoFill => "NoFill",
            ErrorCode::SignedMsgOrderDoesNotExist => "SignedMsgOrderDoesNotExist",
        }
    }

    /// The number under which the program reports this error.
    pub fn code(self) -> (r: u32)
        ensures
            r == ERROR_CODE_OFFSET + code_index(self),
    {
        let i: u32 = match self {
            ErrorCode::BidNotCrossed => 0,
            ErrorCode::AskNotCrossed => 1,
            ErrorCode::TakerOrderNotFound => 2,
            ErrorCode::OrderSizeBreached => 3,
            ErrorCode::NoBestBid => 4,
            ErrorCode::NoBestAsk => 5,
            ErrorCode::NoArbOpportunity => 6,
            ErrorCode::UnprofitableArb => 7,
            ErrorCode::PositionLimitBreached => 8,
            ErrorCode::NoFill => 9,
            ErrorCode::SignedMsgOrderDoesNotExist => 10,
        };
        ERROR_CODE_OFFSET + i
    }
}

} // verus!
