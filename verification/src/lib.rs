//! A constant-product automated market maker for Solana: the decoding of its
//! instructions, the checks on their accounts, the pool's configuration and
//! lifecycle, and the token movements that settle each instruction, each with
//! a contract that Verus proves.

pub mod account;
pub mod address;
pub mod codec;
pub mod error;
pub mod instructions;
pub mod laws;
pub mod processor;
pub mod runtime;
pub mod state;
pub mod token;
