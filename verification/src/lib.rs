//! Assembly of the single transaction that mints one non-fungible token:
//! creating the mint account, its associated token account and its metadata
//! account, and minting exactly one unit, in one atomic bundle.
//!
//! The instruction encodings and the address derivations are the token
//! programs' own, reached through a small trusted boundary in [`sdk`]; the
//! choice of instructions, their order and every argument handed to the
//! encoders is verified here.

pub mod addr;
pub mod builders;
pub mod sdk;
pub mod txn;
