use vstd::prelude::*;
use crate::error::{error_name, ErrorCode};

verus! {

/// Error of the maker's client: a failure reported by the exchange program,
/// or one reported by the transport in front of it.
#[derive(Debug)]
pub enum JitError {
    Drift(String),
    Sdk(String),
}

impl JitError {
    /// The error for a rejection by the maker program, carrying the program's message.
    pub fn from_code(error: ErrorCode) -> (r: JitError)
        ensures
            r matches JitError::Drift(m) && m@ == error_name(error),
    {
        JitError::Drift(error.name().to_string())
    }
}

/// Compute-unit price and limit attached to a submitted transaction.
#[derive(Clone, Copy, Debug)]
pub struct ComputeBudgetParams {
    microlamports_per_cu: u64,
    cu_limit: u32,
}

impl ComputeBudgetParams {
    pub closed spec fn spec_microlamports_per_cu(&self) -> u64 {
        self.microlamports_per_cu
    }

    pub closed spec fn spec_cu_limit(&self) -> u32 {
        self.cu_limit
    }

    pub fn new(microlamports_per_cu: u64, cu_limit: u32) -> (r: Self)
        ensures
            r.spec_microlamports_per_cu() == microlamports_per_cu,
            r.spec_cu_limit() == cu_limit,
    {
        Self { microlamports_per_cu, cu_limit }
    }

    pub fn microlamports_per_cu(&self) -> (r: u64)
        ensures
            r == self.spec_microlamports_per_cu(),
    {
        self.microlamports_per_cu
    }

    pub fn cu_limit(&self) -> (r: u32)
        ensures
            r == self.spec_cu_limit(),
    {
        self.cu_limit
    }
}

} // verus!
