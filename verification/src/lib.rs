//! A minimal on-chain state holder.
//!
//! One account stores a single record: a 64-bit value together with the
//! 32-byte identity that is allowed to change it. Three instructions act on
//! that record: `Initialize` writes a fresh record, `SetValue` replaces the
//! value (and only the value) after checking the caller's authority, and
//! `GetValue` reads the value back. Every step — decoding the instruction
//! bytes, validating ownership, signature and authority, and the byte-exact
//! reads and writes of the record layout — is specified and verified here.

pub mod account;
pub mod codec;
pub mod dispatch;
pub mod error;
pub mod instruction;
pub mod laws;
pub mod validate;
