//! Codec for the PC/SC pseudo-APDU convention used by contactless storage
//! cards (ISO 14443 part 3 / ISO 15693 part 3 memory tags).
//!
//! The crate classifies raw Answer-To-Reset byte strings, encodes typed
//! commands into wire frames, and decodes raw response frames into payload
//! and status-word values with advisory diagnostic meaning. Every codec
//! operation is a pure, bounded transformation over owned byte buffers and
//! carries a contract that pins down its result exactly.

pub mod atr;
pub mod command;
