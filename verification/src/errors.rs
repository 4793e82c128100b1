//! The error taxonomy: configuration errors, existence errors, and state
//! errors, each fatal or recoverable as its variant documents.

use vstd::prelude::*;

verus! {

/// Everything that can go wrong while constructing a pool or deriving a
/// price from it.
#[derive(Debug, Clone, PartialEq, Eq)]
pub enum PoolError {
    /// The requested fee tier is outside the closed set {1, 5, 30, 100}
    /// basis points. Detected before any external call; fatal to the
    /// construction attempt.
    InvalidFeeTier { bp: u32 },
    /// The requested token symbol is absent from the registry. Detected
    /// before pool construction begins; fatal to the attempt.
    TokenNotFound { symbol: String },
    /// The external resolver returned the sentinel zero address: no pool
    /// exists for the pair and fee tier. Fatal; existence does not change
    /// within a session.
    PoolDoesNotExist { token_0_symbol: String, token_1_symbol: String, bp: u32 },
    /// A price was requested before any event was observed. Recoverable:
    /// wait for the first event.
    UninitializedPool,
}

} // verus!
