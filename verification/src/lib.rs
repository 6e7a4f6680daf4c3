//! Either-types for fields that accept more than one wire representation.
//!
//! A field of type [`StringOrStruct`], [`StringOrStructOrVec`] or
//! [`SingleOrVec`] may arrive as a bare string, as a structured object or as
//! a sequence. Which variant is built is decided by the top-level shape of
//! the buffered [`serde_value::Value`] alone; the payload is then decoded by
//! the decoder of the chosen variant. Encoding hands the payload of the
//! active variant to its encoder, without a tag.
//!
//! - [`enums`]: the three types, and what their clones are.
//! - [`value`]: the shape of a buffered value, and how a value of no
//!   accepted shape is described in an error.
//! - [`de`]: decoding by shape.
//! - [`se`]: encoding without a tag.
//! - [`laws`]: what holds of the two together, round trips among it.
//!
//! Payload types are free: the library never asks how a payload is decoded
//! or encoded, it is handed the function that does it.

pub mod de;
pub mod enums;
pub mod laws;
pub mod se;
pub mod value;

pub use enums::{SingleOrVec, StringOrStruct, StringOrStructOrVec};
