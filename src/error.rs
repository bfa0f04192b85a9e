use vstd::prelude::*;

verus! {

/// Failures of the transaction-construction core.
#[derive(Debug, Clone, Copy, PartialEq, Eq, Structural)]
pub enum BridgeError {
    /// A selector is not valid UTF-8.
    Encoding,
    /// A message or address buffer does not have its fixed protocol width.
    SizeMismatch,
    /// The signature's recovery indicator lies outside `{27, 28}`.
    InvalidRecoveryId,
    /// No off-curve program address exists for the given seeds.
    DerivationExhausted,
}

} // verus!
