//! A token escrow program's logic, verified: instruction dispatch, account
//! validation, the escrow record's encoding, and the steps (token movements,
//! account creation and closing) each instruction takes.
//!
//! The instruction handlers in [`instructions`] take the accounts as plain values
//! and return either the error the program fails with or the steps for the runtime
//! to carry out, in order.

pub mod account;
pub mod address;
pub mod error;
pub mod instructions;
pub mod laws;
pub mod pda;
pub mod plan;
pub mod rent;
pub mod state;
