//! Client-side construction of wrapped-asset bridge transactions: address
//! derivation, the mint authorization message, the secp256k1 verification
//! instruction, token program instructions and the ordered instruction
//! bundles.

pub mod address;
pub mod bundle;
pub mod burn;
pub mod bytes;
pub mod codec;
pub mod error;
pub mod hashing;
pub mod instruction;
pub mod plan;
pub mod secp;
pub mod token;
