//! Clone-on-write values that tell from their length and capacity whether
//! they own their data.
//!
//! A [`generic::Cow`] is either a view into data that somebody else owns or a
//! buffer of its own. Which of the two it is, is decided by its packed length
//! and capacity alone: a capacity other than zero means that a buffer is
//! owned. How length and capacity are packed is the choice of a layout:
//! [`wide::Wide`] keeps a word for each, [`lean::Lean`] and
//! [`skinny::Cursed`] make them share one.

pub mod error;
pub mod traits;
pub mod wide;
pub mod lean;
pub mod skinny;
pub mod generic;
pub mod compare;
pub mod order;

pub use error::OwnedVariantError;
pub use wide::Cow;
