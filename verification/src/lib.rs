//! Hardware-backed Ed25519 signing via the OpenPGP card application of a
//! YubiKey.
//!
//! - [`discovery`]: find a card, and tell which one it is.
//! - [`pin`]: refuse cards with the PINs that they were shipped with.
//! - [`provision`]: generate a key on the card, and have every use of it
//!   confirmed by a touch.
//! - [`sign`]: sign messages.
//! - [`card`]: the operations that a card offers, and the record of their use
//!   that the contracts speak of.
//! - [`reply`]: what the card libraries answer, as plain values.
//! - [`error`]: the error type of all of these.
//! - [`testing`], [`tlv`], [`text`]: a card without hardware, and what it is
//!   made of.
//! - [`laws`]: what holds of all of these, whatever the readers and the card
//!   answer.

pub mod card;
pub mod discovery;
pub mod error;
pub mod laws;
pub mod pin;
pub mod provision;
pub mod reply;
pub mod sign;
pub mod testing;
pub mod text;
pub mod tlv;

pub use crate::error::YubiError;
