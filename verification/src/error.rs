use vstd::prelude::*;

verus! {

/// Failure reasons surfaced by the pool math core. Every computation
/// returns one of these instead of panicking; a failure aborts the whole
/// operation and leaves all touched state unchanged.
#[derive(Clone, Copy, Debug, PartialEq, Eq, Structural)]
pub enum ErrorCode {
    /// A square-root price lies outside the supported global price range.
    PriceOutOfBounds,
    /// A tick index lies outside the supported symmetric tick bounds.
    TickOutOfBounds,
    /// The operation category is disabled on the pool, or the signer does
    /// not own the position.
    NotApproved,
    /// A caller-specified maximum (on add) or minimum (on remove) token
    /// amount was violated.
    PriceSlippageExceeded,
    /// A liquidity removal would drive a balance below zero.
    LiquiditySubValueError,
    /// A checked arithmetic step overflowed the representable range.
    MathOverflow,
}

impl ErrorCode {
    /// A short human-readable name for the failure reason.
    pub fn name(&self) -> String {
        match self {
            ErrorCode::PriceOutOfBounds => "price out of bounds".to_string(),
            ErrorCode::TickOutOfBounds => "tick out of bounds".to_string(),
            ErrorCode::NotApproved => "not approved".to_string(),
            ErrorCode::PriceSlippageExceeded => "price slippage exceeded".to_string(),
            ErrorCode::LiquiditySubValueError => "liquidity sub value error".to_string(),
            ErrorCode::MathOverflow => "math overflow".to_string(),
        }
    }
}

} // verus!
