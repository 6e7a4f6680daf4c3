//! The buffered value and its shape.
//!
//! A value is buffered as a [`serde_value::Value`] before its target is
//! chosen. The choice looks at the top-level variant only. What a value of
//! no accepted shape is reported as is a [`serde_value::Unexpected`].

use serde_value::{DeserializerError, Unexpected, Value};
use vstd::prelude::*;
use vstd::utf8::{decode_utf8, valid_utf8};

verus! {

/// `serde_value::Value`, the buffered value. It is declared with its
/// variants, which are read from the crate's own definition: nothing is
/// assumed about them, and what follows matches on them directly.
#[verifier::external_type_specification]
pub struct ExValue(Value);

/// `serde_value::Unexpected`, what a mismatch error says it found. Declared
/// with its variants, as `Value` is.
#[verifier::external_type_specification]
pub struct ExUnexpected(Unexpected);

/// `serde_value::DeserializerError`, the error of decoding from a `Value`.
/// Declared with its variants, as `Value` is.
#[verifier::external_type_specification]
pub struct ExDeserializerError(DeserializerError);

/// The top-level kind of a value, as far as the either-types tell values
/// apart.
#[derive(Clone, Copy, Debug, PartialEq, Eq, Structural)]
pub enum Shape {
    /// A string or a byte string.
    String,
    /// A sequence.
    Sequence,
    /// A map.
    Mapping,
    /// Anything else: a boolean, a number, a character, unit, an option or a
    /// newtype wrapper.
    Other,
}

/// The shape of `value`. Nothing below the top level is looked at.
pub open spec fn shape_of(value: Value) -> Shape {
    match value {
        Value::String(_) | Value::Bytes(_) => Shape::String,
        Value::Seq(_) => Shape::Sequence,
        Value::Map(_) => Shape::Mapping,
        _ => Shape::Other,
    }
}

/// Classifies `value` by its top-level variant.
pub fn shape(value: &Value) -> (s: Shape)
    ensures
        s == shape_of(*value),
{
    match value {
        Value::String(_) | Value::Bytes(_) => Shape::String,
        Value::Seq(_) => Shape::Sequence,
        Value::Map(_) => Shape::Mapping,
        _ => Shape::Other,
    }
}

/// `found` says what `value` is, for a message about a value that was not
/// expected: a scalar with its value widened to 64 bits, text and bytes with
/// their contents, anything else by its kind alone. Of a 32-bit float only
/// the kind is stated here.
pub open spec fn describes(found: Unexpected, value: Value) -> bool {
    match value {
        Value::Bool(b) => found == Unexpected::Bool(b),
        Value::U8(n) => found == Unexpected::Unsigned(n as u64),
        Value::U16(n) => found == Unexpected::Unsigned(n as u64),
        Value::U32(n) => found == Unexpected::Unsigned(n as u64),
        Value::U64(n) => found == Unexpected::Unsigned(n),
        Value::I8(n) => found == Unexpected::Signed(n as i64),
        Value::I16(n) => found == Unexpected::Signed(n as i64),
        Value::I32(n) => found == Unexpected::Signed(n as i64),
        Value::I64(n) => found == Unexpected::Signed(n),
        Value::F32(_) => found is Float,
        Value::F64(n) => found == Unexpected::Float(n),
        Value::Char(c) => found == Unexpected::Char(c),
        Value::String(s) => found == Unexpected::Str(s),
        Value::Unit => found is Unit,
        Value::Option(_) => found is Option,
        Value::Newtype(_) => found is NewtypeStruct,
        Value::Seq(_) => found is Seq,
        Value::Map(_) => found is Map,
        Value::Bytes(b) => found matches Unexpected::Bytes(c) && c@ == b@,
    }
}

/// Describes `value` for a type-mismatch error.
pub fn unexpected(value: &Value) -> (found: Unexpected)
    ensures
        describes(found, *value),
{
    match value {
        Value::Bool(b) => Unexpected::Bool(*b),
        Value::U8(n) => Unexpected::Unsigned(*n as u64),
        Value::U16(n) => Unexpected::Unsigned(*n as u64),
        Value::U32(n) => Unexpected::Unsigned(*n as u64),
        Value::U64(n) => Unexpected::Unsigned(*n),
        Value::I8(n) => Unexpected::Signed(*n as i64),
        Value::I16(n) => Unexpected::Signed(*n as i64),
        Value::I32(n) => Unexpected::Signed(*n as i64),
        Value::I64(n) => Unexpected::Signed(*n),
        Value::F32(n) => Unexpected::Float((*n).into()),
        Value::F64(n) => Unexpected::Float(*n),
        Value::Char(c) => Unexpected::Char(*c),
        Value::String(s) => Unexpected::Str(s.clone()),
        Value::Unit => Unexpected::Unit,
        Value::Option(_) => Unexpected::Option,
        Value::Newtype(_) => Unexpected::NewtypeStruct,
        Value::Seq(_) => Unexpected::Seq,
        Value::Map(_) => Unexpected::Map,
        Value::Bytes(b) => Unexpected::Bytes(b.clone()),
    }
}

/// `result` is what decoding `value` as a `String` gives, where `value` has
/// the shape of a string: the text itself; for bytes, their UTF-8 decoding,
/// or the error that names the bytes where they are not UTF-8.
pub open spec fn decodes_text(value: Value, result: Result<String, DeserializerError>) -> bool {
    match value {
        Value::String(s) => result matches Ok(t) && t == s,
        Value::Bytes(b) => if valid_utf8(b@) {
            result matches Ok(t) && t@ == decode_utf8(b@)
        } else {
            &&& result matches Err(DeserializerError::InvalidValue(Unexpected::Bytes(c), e))
            &&& c@ == b@
            &&& e@ == "a string"@
        },
        _ => true,
    }
}

/// Decodes `value` as a `String`, by `serde_value::Value::deserialize_into`
/// and so by serde's own `Deserialize` for `String`.
///
/// Believed, not proved: a `Value::String` comes back as it is; a
/// `Value::Bytes` is checked by `String::from_utf8`, which gives the decoded
/// text, or else the error `InvalidValue` with the same bytes and the words
/// `a string`. Of values of another shape nothing is claimed.
#[verifier::external_body]
pub(crate) fn decode_string(value: Value) -> (result: Result<String, DeserializerError>)
    ensures
        decodes_text(value, result),
{
    value.deserialize_into::<String>()
}

} // verus!
