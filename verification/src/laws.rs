//! What the operations of this crate are for, as laws of the operations.
//!
//! Most laws speak of calls: `call_ensures(f, args, r)` says that a call of `f`
//! with `args` may give `r`. So a law relates what goes into an operation, what
//! the readers and the card answer to the questions that are put to them, and
//! what comes out; it does so without the notions in which the operation's own
//! contract is written.
//!
//! - [`words`]: the words that the laws are written in, and what is proved
//!   of them.
//! - [`signing`]: a signature in a transaction follows the card.
//! - [`identity`]: which card it is and what key it holds, as the card
//!   tells it.
//! - [`shipped_pins`]: a check for shipped PINs follows the card, and what
//!   it costs.
//! - [`setting_up`]: setting up a card follows the card.
//! - [`steps`]: whole calls, from the readers to the result, step by step.
//! - [`finding`]: finding a card: the first that opens.
//! - [`failures`]: what is made of a failure, and what a person is told.
//! - [`answers`]: what a card answered as a key or a signature, accepted or
//!   not.
//! - [`questions`]: one question of this crate is one call, and it is
//!   noted.
//! - [`data_objects`]: data objects hold their tag, the length and the
//!   value.
//! - [`fake_card`]: what the card without hardware answers, and what it
//!   keeps.

pub mod answers;
pub mod data_objects;
pub mod failures;
pub mod fake_card;
pub mod finding;
pub mod identity;
pub mod questions;
pub mod setting_up;
pub mod shipped_pins;
pub mod signing;
pub mod steps;
pub mod words;
