//! Validator-side adapter for a BFT consensus engine driving a tributary chain.

use vstd::prelude::*;

pub mod adapter;
pub mod crypto;
pub mod in_instructions;
pub mod signer;
pub mod validators;

