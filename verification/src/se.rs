//! Encoding: from an either-type to what its payload's encoder writes.
//!
//! An either-type writes no tag of its own. The payload of the active
//! variant goes to the encoder of that variant, together with the
//! serializer, and what the encoder returns is the result. The output is
//! therefore the one that the payload alone would have given.
//!
//! An encoder is any function of the payload and the serializer. For a
//! payload that serde can encode it is
//! `|payload, serializer| payload.serialize(serializer)`.

use crate::enums::{SingleOrVec, StringOrStruct, StringOrStructOrVec};
use vstd::prelude::*;

verus! {

impl<S, V> StringOrStructOrVec<S, V> {
    /// `result` is what the encoder of the active variant gave for the
    /// payload and `serializer`.
    pub open spec fn encoded<C, R, ET, ES, EV>(
        self,
        serializer: C,
        encode_string: ET,
        encode_struct: ES,
        encode_vec: EV,
        result: R,
    ) -> bool where
        ET: FnOnce(&String, C) -> R,
        ES: FnOnce(&S, C) -> R,
        EV: FnOnce(&V, C) -> R,
    {
        match self {
            StringOrStructOrVec::String(text) => call_ensures(
                encode_string,
                (&text, serializer),
                result,
            ),
            StringOrStructOrVec::Struct(s) => call_ensures(encode_struct, (&s, serializer), result),
            StringOrStructOrVec::Vec(v) => call_ensures(encode_vec, (&v, serializer), result),
        }
    }

    /// Encodes the payload of the active variant into `serializer`, by the
    /// encoder of that variant. The other encoders are not called.
    pub fn serialize<C, R, ET, ES, EV>(
        &self,
        serializer: C,
        encode_string: ET,
        encode_struct: ES,
        encode_vec: EV,
    ) -> (result: R) where
        ET: FnOnce(&String, C) -> R,
        ES: FnOnce(&S, C) -> R,
        EV: FnOnce(&V, C) -> R,

        requires
            *self matches StringOrStructOrVec::String(text) ==> call_requires(
                encode_string,
                (&text, serializer),
            ),
            *self matches StringOrStructOrVec::Struct(s) ==> call_requires(
                encode_struct,
                (&s, serializer),
            ),
            *self matches StringOrStructOrVec::Vec(v) ==> call_requires(
                encode_vec,
                (&v, serializer),
            ),
        ensures
            self.encoded(serializer, encode_string, encode_struct, encode_vec, result),
    {
        match self {
            StringOrStructOrVec::String(s) => encode_string(s, serializer),
            StringOrStructOrVec::Struct(s) => encode_struct(s, serializer),
            StringOrStructOrVec::Vec(v) => encode_vec(v, serializer),
        }
    }
}

impl<S> StringOrStruct<S> {
    /// `result` is what the encoder of the active variant gave for the
    /// payload and `serializer`.
    pub open spec fn encoded<C, R, ET, ES>(
        self,
        serializer: C,
        encode_string: ET,
        encode_struct: ES,
        result: R,
    ) -> bool where ET: FnOnce(&String, C) -> R, ES: FnOnce(&S, C) -> R {
        match self {
            StringOrStruct::String(text) => call_ensures(
                encode_string,
                (&text, serializer),
                result,
            ),
            StringOrStruct::Struct(s) => call_ensures(encode_struct, (&s, serializer), result),
        }
    }

    /// Encodes the payload of the active variant into `serializer`, by the
    /// encoder of that variant. The other encoder is not called.
    pub fn serialize<C, R, ET, ES>(
        &self,
        serializer: C,
        encode_string: ET,
        encode_struct: ES,
    ) -> (result: R) where ET: FnOnce(&String, C) -> R, ES: FnOnce(&S, C) -> R
        requires
            *self matches StringOrStruct::String(text) ==> call_requires(
                encode_string,
                (&text, serializer),
            ),
            *self matches StringOrStruct::Struct(s) ==> call_requires(
                encode_struct,
                (&s, serializer),
            ),
        ensures
            self.encoded(serializer, encode_string, encode_struct, result),
    {
        match self {
            StringOrStruct::String(s) => encode_string(s, serializer),
            StringOrStruct::Struct(s) => encode_struct(s, serializer),
        }
    }
}

impl<S> SingleOrVec<S> {
    /// `result` is what the encoder of the active variant gave for the
    /// payload and `serializer`.
    pub open spec fn encoded<C, R, ES, EV>(
        self,
        serializer: C,
        encode_single: ES,
        encode_vec: EV,
        result: R,
    ) -> bool where ES: FnOnce(&S, C) -> R, EV: FnOnce(&Vec<S>, C) -> R {
        match self {
            SingleOrVec::Single(s) => call_ensures(encode_single, (&s, serializer), result),
            SingleOrVec::Vec(v) => call_ensures(encode_vec, (&v, serializer), result),
        }
    }

    /// Encodes the payload of the active variant into `serializer`, by the
    /// encoder of that variant. The other encoder is not called.
    pub fn serialize<C, R, ES, EV>(
        &self,
        serializer: C,
        encode_single: ES,
        encode_vec: EV,
    ) -> (result: R) where ES: FnOnce(&S, C) -> R, EV: FnOnce(&Vec<S>, C) -> R
        requires
            *self matches SingleOrVec::Single(s) ==> call_requires(
                encode_single,
                (&s, serializer),
            ),
            *self matches SingleOrVec::Vec(v) ==> call_requires(encode_vec, (&v, serializer)),
        ensures
            self.encoded(serializer, encode_single, encode_vec, result),
    {
        match self {
            SingleOrVec::Single(s) => encode_single(s, serializer),
            SingleOrVec::Vec(s) => encode_vec(s, serializer),
        }
    }
}

} // verus!
