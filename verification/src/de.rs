//! Decoding: from a buffered value to an either-type.
//!
//! The variant is chosen by the shape of the value and by nothing else. A
//! string or byte string is decoded as text and never offered to a payload
//! decoder; a sequence or a map goes to the decoder of the variant that
//! takes it, and what that decoder answers is final: no other variant is
//! tried after a failure.
//!
//! A payload decoder is any function from the buffered value to the payload
//! or to an error of the caller's choice. For a payload type `T` that serde
//! can decode it is
//! `|value| T::deserialize(ValueDeserializer::new(value))`.

use crate::enums::{SingleOrVec, StringOrStruct, StringOrStructOrVec};
use crate::value::{decode_string, decodes_text, describes, shape, shape_of, unexpected, Shape};
use serde_value::{DeserializerError, Value};
use vstd::prelude::*;

verus! {

/// Why a value could not be decoded into an either-type.
#[derive(Debug)]
pub enum Error<E> {
    /// The value was refused as it stands. `InvalidType`: its shape is none
    /// that the target takes. `InvalidValue`: it is a byte string that is
    /// not UTF-8, where text was to be decoded.
    Value(DeserializerError),
    /// The shape was accepted and the decoder of the payload failed. Its
    /// error is handed on as it came.
    Payload(E),
}

/// `result` is the type mismatch for `value`: the error `InvalidType` that
/// describes `value` and carries the words `expected`.
pub open spec fn mismatched<T, E>(
    value: Value,
    expected: Seq<char>,
    result: Result<T, Error<E>>,
) -> bool {
    &&& result matches Err(Error::Value(DeserializerError::InvalidType(found, words)))
    &&& describes(found, value)
    &&& words@ == expected
}

impl<S, V> StringOrStructOrVec<S, V> {
    /// What the either-type accepts, as the mismatch error words it.
    pub open spec fn expected() -> Seq<char> {
        "String, Struct or Vec"@
    }

    /// `result` is a decoding of `value`, with `expected` as the words for
    /// what is accepted:
    /// - for a string or a byte string, its text in `String`, or the error
    ///   of the text decoder, whatever the two payload decoders would make
    ///   of it;
    /// - for a sequence, what `decode_vec` gave for `value`: the payload in
    ///   `Vec`, or its error as the payload error;
    /// - for a map, what `decode_struct` gave for `value`: the payload in
    ///   `Struct`, or its error as the payload error;
    /// - for any other shape, the type mismatch.
    pub open spec fn decoded<E, DS, DV>(
        value: Value,
        expected: Seq<char>,
        decode_struct: DS,
        decode_vec: DV,
        result: Result<Self, Error<E>>,
    ) -> bool where DS: FnOnce(Value) -> Result<S, E>, DV: FnOnce(Value) -> Result<V, E> {
        match shape_of(value) {
            Shape::String => match result {
                Ok(StringOrStructOrVec::String(text)) => decodes_text(value, Ok(text)),
                Err(Error::Value(error)) => decodes_text(value, Err(error)),
                _ => false,
            },
            Shape::Sequence => match result {
                Ok(StringOrStructOrVec::Vec(v)) => call_ensures(decode_vec, (value,), Ok(v)),
                Err(Error::Payload(error)) => call_ensures(decode_vec, (value,), Err(error)),
                _ => false,
            },
            Shape::Mapping => match result {
                Ok(StringOrStructOrVec::Struct(s)) => call_ensures(decode_struct, (value,), Ok(s)),
                Err(Error::Payload(error)) => call_ensures(decode_struct, (value,), Err(error)),
                _ => false,
            },
            Shape::Other => mismatched(value, expected, result),
        }
    }

    /// Decodes `value` by its shape; `expected` words the mismatch error.
    /// Only the decoder that the shape selects is called, once, on `value`
    /// itself.
    pub fn deserialize_with_expected<E, DS, DV>(
        value: Value,
        expected: &str,
        decode_struct: DS,
        decode_vec: DV,
    ) -> (result: Result<Self, Error<E>>) where
        DS: FnOnce(Value) -> Result<S, E>,
        DV: FnOnce(Value) -> Result<V, E>,

        requires
            shape_of(value) == Shape::Mapping ==> call_requires(decode_struct, (value,)),
            shape_of(value) == Shape::Sequence ==> call_requires(decode_vec, (value,)),
        ensures
            Self::decoded(value, expected@, decode_struct, decode_vec, result),
    {
        match shape(&value) {
            Shape::String => match decode_string(value) {
                Ok(text) => Ok(Self::String(text)),
                Err(error) => Err(Error::Value(error)),
            },
            Shape::Sequence => match decode_vec(value) {
                Ok(v) => Ok(Self::Vec(v)),
                Err(error) => Err(Error::Payload(error)),
            },
            Shape::Mapping => match decode_struct(value) {
                Ok(s) => Ok(Self::Struct(s)),
                Err(error) => Err(Error::Payload(error)),
            },
            Shape::Other => Err(
                Error::Value(
                    DeserializerError::InvalidType(unexpected(&value), expected.to_string()),
                ),
            ),
        }
    }

    /// Decodes `value` as a string, a structured value or a sequence.
    pub fn deserialize<E, DS, DV>(
        value: Value,
        decode_struct: DS,
        decode_vec: DV,
    ) -> (result: Result<Self, Error<E>>) where
        DS: FnOnce(Value) -> Result<S, E>,
        DV: FnOnce(Value) -> Result<V, E>,

        requires
            shape_of(value) == Shape::Mapping ==> call_requires(decode_struct, (value,)),
            shape_of(value) == Shape::Sequence ==> call_requires(decode_vec, (value,)),
        ensures
            Self::decoded(value, Self::expected(), decode_struct, decode_vec, result),
    {
        Self::deserialize_with_expected(value, "String, Struct or Vec", decode_struct, decode_vec)
    }
}

impl<S> StringOrStruct<S> {
    /// What the either-type accepts, as the mismatch error words it.
    pub open spec fn expected() -> Seq<char> {
        "String or Struct"@
    }

    /// A three-way result with two of its cases merged: `Struct` and `Vec`
    /// both become `Struct`.
    pub open spec fn collapse<E>(
        wide: Result<StringOrStructOrVec<S, S>, Error<E>>,
    ) -> Result<Self, Error<E>> {
        match wide {
            Ok(StringOrStructOrVec::String(text)) => Ok(StringOrStruct::String(text)),
            Ok(StringOrStructOrVec::Struct(s)) => Ok(StringOrStruct::Struct(s)),
            Ok(StringOrStructOrVec::Vec(s)) => Ok(StringOrStruct::Struct(s)),
            Err(error) => Err(error),
        }
    }

    /// `result` is a decoding of `value`:
    /// - for a string or a byte string, its text in `String`, or the error
    ///   of the text decoder, whatever `decode` would make of it;
    /// - for a sequence and for a map alike, what `decode` gave for `value`:
    ///   the payload in `Struct`, or its error as the payload error;
    /// - for any other shape, the type mismatch that expects
    ///   `String or Struct`.
    pub open spec fn decoded<E, D>(
        value: Value,
        decode: D,
        result: Result<Self, Error<E>>,
    ) -> bool where D: Fn(Value) -> Result<S, E> {
        match shape_of(value) {
            Shape::String => match result {
                Ok(StringOrStruct::String(text)) => decodes_text(value, Ok(text)),
                Err(Error::Value(error)) => decodes_text(value, Err(error)),
                _ => false,
            },
            Shape::Sequence | Shape::Mapping => match result {
                Ok(StringOrStruct::Struct(s)) => call_ensures(decode, (value,), Ok(s)),
                Err(Error::Payload(error)) => call_ensures(decode, (value,), Err(error)),
                _ => false,
            },
            Shape::Other => mismatched(value, Self::expected(), result),
        }
    }

    /// Decodes `value` as a string or as a structured value. It is the
    /// three-way decoding with `S` in both payload places and the result
    /// collapsed, so a sequence is decoded into `S` itself.
    pub fn deserialize<E, D>(value: Value, decode: D) -> (result: Result<Self, Error<E>>) where
        D: Fn(Value) -> Result<S, E>,

        requires
            shape_of(value) == Shape::Mapping || shape_of(value) == Shape::Sequence
                ==> call_requires(decode, (value,)),
        ensures
            Self::decoded(value, decode, result),
    {
        let wide = StringOrStructOrVec::<S, S>::deserialize_with_expected(
            value,
            "String or Struct",
            &decode,
            &decode,
        );
        match wide {
            Ok(StringOrStructOrVec::String(text)) => Ok(StringOrStruct::String(text)),
            Ok(StringOrStructOrVec::Struct(s)) | Ok(StringOrStructOrVec::Vec(s)) => Ok(
                StringOrStruct::Struct(s),
            ),
            Err(error) => Err(error),
        }
    }
}

impl<S> SingleOrVec<S> {
    /// `result` is a decoding of `value`: for a sequence, what `decode_vec`
    /// gave for `value`, in `Vec`; for every other shape, strings and maps
    /// among them, what `decode_single` gave for `value`, in `Single`. An
    /// error is the error of the decoder that was called: no shape is
    /// refused here.
    pub open spec fn decoded<E, D, DV>(
        value: Value,
        decode_single: D,
        decode_vec: DV,
        result: Result<Self, E>,
    ) -> bool where D: FnOnce(Value) -> Result<S, E>, DV: FnOnce(Value) -> Result<Vec<S>, E> {
        match shape_of(value) {
            Shape::Sequence => match result {
                Ok(SingleOrVec::Vec(v)) => call_ensures(decode_vec, (value,), Ok(v)),
                Ok(SingleOrVec::Single(_)) => false,
                Err(error) => call_ensures(decode_vec, (value,), Err(error)),
            },
            _ => match result {
                Ok(SingleOrVec::Single(s)) => call_ensures(decode_single, (value,), Ok(s)),
                Ok(SingleOrVec::Vec(_)) => false,
                Err(error) => call_ensures(decode_single, (value,), Err(error)),
            },
        }
    }

    /// Decodes `value` as a sequence of `S` if it is a sequence, and as one
    /// `S` otherwise.
    pub fn deserialize<E, D, DV>(
        value: Value,
        decode_single: D,
        decode_vec: DV,
    ) -> (result: Result<Self, E>) where
        D: FnOnce(Value) -> Result<S, E>,
        DV: FnOnce(Value) -> Result<Vec<S>, E>,

        requires
            shape_of(value) == Shape::Sequence ==> call_requires(decode_vec, (value,)),
            shape_of(value) != Shape::Sequence ==> call_requires(decode_single, (value,)),
        ensures
            Self::decoded(value, decode_single, decode_vec, result),
    {
        match shape(&value) {
            Shape::Sequence => match decode_vec(value) {
                Ok(v) => Ok(Self::Vec(v)),
                Err(error) => Err(error),
            },
            _ => match decode_single(value) {
                Ok(s) => Ok(Self::Single(s)),
                Err(error) => Err(error),
            },
        }
    }
}

} // verus!
