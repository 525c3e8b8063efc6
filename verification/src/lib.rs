//! Request validation, domain operations and the response envelope behind a
//! JSON service that hands out Solana primitives: key pairs, message
//! signatures and unsigned instructions.
//!
//! Every operation is a function from a typed request to a typed response or
//! a classified error. Encoding, signing and instruction encoding are done by
//! the crates that own them; the calls stand behind small functions whose
//! contracts are taken on trust and say so.

pub mod config;
pub mod error;
pub mod text;
pub mod codec;
pub mod pubkey;
pub mod keys;
pub mod instruction;
pub mod types;
pub mod utils;
pub mod handlers;
