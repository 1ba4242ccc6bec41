use vstd::prelude::*;

verus! {

/// Failures of the minting engine.
#[derive(Debug, Clone, Copy, PartialEq, Eq, Structural)]
pub enum MintError {
    /// The basket's target weights sum to zero.
    ZeroTotalWeight,
    /// An intermediate value does not fit in 128 bits.
    Overflow,
    /// A lending-receipt price that scales to zero.
    ZeroPrice,
    /// An internal stage was invoked by someone other than the contract.
    Unauthorized,
    /// Two lists that must run in parallel differ in length.
    LengthMismatch,
}

} // verus!
