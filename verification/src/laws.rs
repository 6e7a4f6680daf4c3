//! What holds of decoding and encoding together.
//!
//! The laws speak of any payload types, any decoders and encoders and any
//! format. A format appears as a relation `reads`: `reads(output, value)`
//! says that `value` is what gets buffered when the output of an encoder is
//! read back.

use crate::de::Error;
use crate::enums::{SingleOrVec, StringOrStruct, StringOrStructOrVec};
use crate::value::{decodes_text, shape_of, Shape};
use serde_value::Value;
use vstd::prelude::*;

verus! {

/// The variant of a decoded `StringOrStructOrVec` follows from the shape of
/// the value alone: a string or byte string gives `String`, a sequence
/// `Vec`, a map `Struct`, and no other shape gives a value at all.
pub proof fn lemma_variant_follows_shape<S, V, E, DS, DV>(
    value: Value,
    expected: Seq<char>,
    decode_struct: DS,
    decode_vec: DV,
    result: Result<StringOrStructOrVec<S, V>, Error<E>>,
) where DS: FnOnce(Value) -> Result<S, E>, DV: FnOnce(Value) -> Result<V, E>
    requires
        StringOrStructOrVec::decoded(value, expected, decode_struct, decode_vec, result),
    ensures
        (result matches Ok(either) ==> match shape_of(value) {
            Shape::String => either is String,
            Shape::Sequence => either is Vec,
            Shape::Mapping => either is Struct,
            Shape::Other => false,
        }),
        shape_of(value) == Shape::Other ==> result matches Err(Error::Value(_)),
{
}

/// A string is decoded as text whatever the payload decoders are: the
/// result is the `String` variant holding the text of `value`, or, for bytes
/// that are not UTF-8, the error of the text decoder, and the same result is
/// a decoding of `value` under any other pair of decoders. No payload
/// decoder is asked, even one that would accept the string.
pub proof fn lemma_text_ignores_payload_decoders<S, V, E, DS, DV, DS2, DV2>(
    value: Value,
    expected: Seq<char>,
    decode_struct: DS,
    decode_vec: DV,
    other_decode_struct: DS2,
    other_decode_vec: DV2,
    result: Result<StringOrStructOrVec<S, V>, Error<E>>,
) where
    DS: FnOnce(Value) -> Result<S, E>,
    DV: FnOnce(Value) -> Result<V, E>,
    DS2: FnOnce(Value) -> Result<S, E>,
    DV2: FnOnce(Value) -> Result<V, E>,

    requires
        shape_of(value) == Shape::String,
        StringOrStructOrVec::decoded(value, expected, decode_struct, decode_vec, result),
    ensures
        StringOrStructOrVec::decoded(
            value,
            expected,
            other_decode_struct,
            other_decode_vec,
            result,
        ),
        (match result {
            Ok(StringOrStructOrVec::String(text)) => decodes_text(value, Ok(text)),
            Err(Error::Value(error)) => decodes_text(value, Err(error)),
            _ => false,
        }),
        value matches Value::String(text) ==> result == Ok::<_, Error<E>>(
            StringOrStructOrVec::<S, V>::String(text),
        ),
{
}

/// The same law for `StringOrStruct`: a string is decoded as text whatever
/// the payload decoder is.
pub proof fn lemma_text_ignores_struct_decoder<S, E, D, D2>(
    value: Value,
    decode: D,
    other_decode: D2,
    result: Result<StringOrStruct<S>, Error<E>>,
) where D: Fn(Value) -> Result<S, E>, D2: Fn(Value) -> Result<S, E>
    requires
        shape_of(value) == Shape::String,
        StringOrStruct::decoded(value, decode, result),
    ensures
        StringOrStruct::decoded(value, other_decode, result),
        (match result {
            Ok(StringOrStruct::String(text)) => decodes_text(value, Ok(text)),
            Err(Error::Value(error)) => decodes_text(value, Err(error)),
            _ => false,
        }),
        value matches Value::String(text) ==> result == Ok::<_, Error<E>>(
            StringOrStruct::<S>::String(text),
        ),
{
}

/// Decoding a `StringOrStruct` is decoding a `StringOrStructOrVec` with the
/// same payload type and the same decoder in both places, expecting
/// `String or Struct`, and merging `Vec` into `Struct`.
pub proof fn lemma_two_way_is_collapsed_three_way<S, E, D>(
    value: Value,
    decode: D,
    wide: Result<StringOrStructOrVec<S, S>, Error<E>>,
) where D: Fn(Value) -> Result<S, E>
    requires
        StringOrStructOrVec::decoded(value, StringOrStruct::<S>::expected(), decode, decode, wide),
    ensures
        StringOrStruct::decoded(value, decode, StringOrStruct::collapse(wide)),
{
}

/// The format reads a written string back as that string: whatever
/// `encode_string` gives for a text and `serializer` is buffered as the
/// string value that holds the text.
pub open spec fn text_reads_back<C, R, ET>(
    encode_string: ET,
    serializer: C,
    reads: spec_fn(R, Value) -> bool,
) -> bool where ET: FnOnce(&String, C) -> R {
    forall|text: String, out: R, value: Value|
        #[trigger] call_ensures(encode_string, (&text, serializer), out) && #[trigger] reads(
            out,
            value,
        ) ==> value == Value::String(text)
}

/// `decode` undoes `encode` through the format: whatever `encode` gives for
/// a payload and `serializer` is buffered as a value whose shape `shapes`
/// accepts, and from that value `decode` gives the payload back and nothing
/// else.
pub open spec fn payload_reads_back<T, C, R, E, EN, DE>(
    encode: EN,
    serializer: C,
    reads: spec_fn(R, Value) -> bool,
    shapes: spec_fn(Shape) -> bool,
    decode: DE,
) -> bool where EN: FnOnce(&T, C) -> R, DE: FnOnce(Value) -> Result<T, E> {
    forall|payload: T, out: R, value: Value|
        #[trigger] call_ensures(encode, (&payload, serializer), out) && #[trigger] reads(
            out,
            value,
        ) ==> {
            &&& shapes(shape_of(value))
            &&& forall|r: Result<T, E>| #[trigger]
                call_ensures(decode, (value,), r) ==> r == Ok::<T, E>(payload)
        }
}

/// Round trip of a `StringOrStruct`: encoding a value and decoding what is
/// read back gives the value again.
///
/// It holds where the format reads a written string back as that string,
/// and where the payload is written as a map or a sequence from which
/// `decode` gives the payload back. A payload that is written as a string
/// is left out: it would come back in the `String` variant.
pub proof fn lemma_string_or_struct_round_trip<S, C, R, E, ET, ES, D>(
    either: StringOrStruct<S>,
    serializer: C,
    encode_string: ET,
    encode_struct: ES,
    output: R,
    reads: spec_fn(R, Value) -> bool,
    wire: Value,
    decode: D,
    result: Result<StringOrStruct<S>, Error<E>>,
) where ET: FnOnce(&String, C) -> R, ES: FnOnce(&S, C) -> R, D: Fn(Value) -> Result<S, E>
    requires
        either.encoded(serializer, encode_string, encode_struct, output),
        reads(output, wire),
        StringOrStruct::decoded(wire, decode, result),
        text_reads_back(encode_string, serializer, reads),
        payload_reads_back(
            encode_struct,
            serializer,
            reads,
            |shape: Shape| shape == Shape::Mapping || shape == Shape::Sequence,
            decode,
        ),
    ensures
        result == Ok::<_, Error<E>>(either),
{
}

/// Round trip of a `StringOrStructOrVec`: encoding a value and decoding
/// what is read back gives the value again.
///
/// It holds where the format reads a written string back as that string,
/// where the `Struct` payload is written as a map from which
/// `decode_struct` gives it back, and where the `Vec` payload is written as
/// a sequence from which `decode_vec` gives it back.
pub proof fn lemma_string_or_struct_or_vec_round_trip<S, V, C, R, E, ET, ES, EV, DS, DV>(
    either: StringOrStructOrVec<S, V>,
    serializer: C,
    encode_string: ET,
    encode_struct: ES,
    encode_vec: EV,
    output: R,
    reads: spec_fn(R, Value) -> bool,
    wire: Value,
    decode_struct: DS,
    decode_vec: DV,
    result: Result<StringOrStructOrVec<S, V>, Error<E>>,
) where
    ET: FnOnce(&String, C) -> R,
    ES: FnOnce(&S, C) -> R,
    EV: FnOnce(&V, C) -> R,
    DS: FnOnce(Value) -> Result<S, E>,
    DV: FnOnce(Value) -> Result<V, E>,

    requires
        either.encoded(serializer, encode_string, encode_struct, encode_vec, output),
        reads(output, wire),
        StringOrStructOrVec::decoded(
            wire,
            StringOrStructOrVec::<S, V>::expected(),
            decode_struct,
            decode_vec,
            result,
        ),
        text_reads_back(encode_string, serializer, reads),
        payload_reads_back(
            encode_struct,
            serializer,
            reads,
            |shape: Shape| shape == Shape::Mapping,
            decode_struct,
        ),
        payload_reads_back(
            encode_vec,
            serializer,
            reads,
            |shape: Shape| shape == Shape::Sequence,
            decode_vec,
        ),
    ensures
        result == Ok::<_, Error<E>>(either),
{
}

/// A `Single` is written without a wrapper: what encoding it gives is what
/// the encoder of `S` gives for the payload, so a decoder that knows `S`
/// alone, and undoes that encoder, reads the payload back from it.
pub proof fn lemma_single_is_written_bare<S, C, R, E, ES, EV, D>(
    payload: S,
    serializer: C,
    encode_single: ES,
    encode_vec: EV,
    output: R,
    reads: spec_fn(R, Value) -> bool,
    wire: Value,
    decode: D,
    result: Result<S, E>,
) where ES: FnOnce(&S, C) -> R, EV: FnOnce(&Vec<S>, C) -> R, D: FnOnce(Value) -> Result<S, E>
    requires
        SingleOrVec::Single(payload).encoded(serializer, encode_single, encode_vec, output),
        reads(output, wire),
        call_ensures(decode, (wire,), result),
        payload_reads_back(encode_single, serializer, reads, |shape: Shape| true, decode),
    ensures
        call_ensures(encode_single, (&payload, serializer), output),
        result == Ok::<S, E>(payload),
{
}

/// Round trip of a `SingleOrVec`: encoding a value and decoding what is
/// read back gives the value again.
///
/// It holds where the sequence is written as a sequence from which
/// `decode_vec` gives it back, and where the single payload is written as
/// anything but a sequence, from which `decode_single` gives it back. A
/// single payload that is itself written as a sequence is left out: it
/// would be offered to `decode_vec`.
pub proof fn lemma_single_or_vec_round_trip<S, C, R, E, ES, EV, D, DV>(
    either: SingleOrVec<S>,
    serializer: C,
    encode_single: ES,
    encode_vec: EV,
    output: R,
    reads: spec_fn(R, Value) -> bool,
    wire: Value,
    decode_single: D,
    decode_vec: DV,
    result: Result<SingleOrVec<S>, E>,
) where
    ES: FnOnce(&S, C) -> R,
    EV: FnOnce(&Vec<S>, C) -> R,
    D: FnOnce(Value) -> Result<S, E>,
    DV: FnOnce(Value) -> Result<Vec<S>, E>,

    requires
        either.encoded(serializer, encode_single, encode_vec, output),
        reads(output, wire),
        SingleOrVec::decoded(wire, decode_single, decode_vec, result),
        payload_reads_back(
            encode_single,
            serializer,
            reads,
            |shape: Shape| shape != Shape::Sequence,
            decode_single,
        ),
        payload_reads_back(
            encode_vec,
            serializer,
            reads,
            |shape: Shape| shape == Shape::Sequence,
            decode_vec,
        ),
    ensures
        result == Ok::<SingleOrVec<S>, E>(either),
{
}

} // verus!
