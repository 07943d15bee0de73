//! Dispatch core of a confidential smart-contract runtime.
//!
//! A host submits contract bytecode together with encrypted user messages.
//! Each call (`init`, `handle` or `query`) is driven as a [`dispatch::Call`]:
//! a deterministic state machine that decides, after every piece of outside
//! work (parsing, key derivation, signature checks, decryption, the metered
//! engine, encryption), what has to happen next and with which values.
//!
//! - [`dispatch`]: the executable call, its events and actions.
//! - [`model`]: the mathematical model that the call follows step for step.
//! - [`laws`]: what is proved of every call.
//! - [`message`]: the wire formats of secret messages and query inputs.
//! - [`validation`]: the code-hash prefix that binds a plaintext to a contract.
//! - [`keys`]: layout, extraction and authentication of contract keys.
//! - [`env`]: the blockchain view in both schemas, stamping and projection.
//! - [`hexcode`]: hexadecimal text.
//! - [`error`]: the error kinds that the host sees.

pub mod dispatch;
pub mod env;
pub mod error;
pub mod hexcode;
pub mod keys;
pub mod laws;
pub mod message;
pub mod model;
pub mod validation;
