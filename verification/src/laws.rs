//! The laws the three functions obey, proved from their contracts: the
//! encode/decode round trip, null propagation, text-path delegation,
//! tag enforcement, fail-fast batch semantics, and scalar/batch
//! equivalence.

use vstd::prelude::*;

use crate::codec::{
    canonical_text_of, is_uuid_text, lemma_canonical_text_bytes, lemma_canonical_text_valid,
    uuid_bytes_of, version_of,
};
use crate::model::{CodecError, DataKind, FieldMetaView, TextKind, ValueView};
use crate::string_to_uuid::{all_texts_valid, encode_opt, spec_encode};
use crate::uuid_to_string::{all_bins_len16, decode_opt, spec_decode, spec_decode_return_field};
use crate::uuid_version::{
    is_binary16_view, spec_version, spec_version_of_binary, spec_version_return_field, version_opt,
};

verus! {

/// Round trip: for every syntactically valid UUID text, encoding it and
/// decoding the result gives canonical text naming the same 128-bit
/// value.
pub proof fn lemma_round_trip(t: Seq<char>)
    requires
        is_uuid_text(t),
    ensures
        is_uuid_text(canonical_text_of(uuid_bytes_of(t))),
        uuid_bytes_of(canonical_text_of(uuid_bytes_of(t))) == uuid_bytes_of(t),
{
    lemma_canonical_text_valid(uuid_bytes_of(t));
    lemma_canonical_text_bytes(uuid_bytes_of(t));
}

/// Round trip at the invocation level, for a scalar: encoding valid text
/// yields its 16 bytes tagged as 16-wide binary, decoding those yields
/// the canonical text, and that text names the same value as the
/// original.
pub proof fn lemma_round_trip_scalar(k: TextKind, t: Seq<char>)
    requires
        is_uuid_text(t),
    ensures
        spec_encode(ValueView::TextScalar(k, Some(t))) == Ok::<ValueView, CodecError>(
            ValueView::BinaryScalar(16, Some(uuid_bytes_of(t))),
        ),
        spec_decode(ValueView::BinaryScalar(16, Some(uuid_bytes_of(t)))) == Ok::<
            ValueView,
            CodecError,
        >(ValueView::TextScalar(TextKind::Utf8View, Some(canonical_text_of(uuid_bytes_of(t))))),
        uuid_bytes_of(canonical_text_of(uuid_bytes_of(t))) == uuid_bytes_of(t),
{
    lemma_round_trip(t);
}

/// Null propagation, scalar shape: a null input element yields a null
/// output element from every function, never an error.
pub proof fn lemma_null_propagation_scalar(k: TextKind)
    ensures
        spec_encode(ValueView::TextScalar(k, None)) == Ok::<ValueView, CodecError>(
            ValueView::BinaryScalar(16, None),
        ),
        spec_decode(ValueView::BinaryScalar(16, None)) == Ok::<ValueView, CodecError>(
            ValueView::TextScalar(TextKind::Utf8View, None),
        ),
        spec_version(ValueView::BinaryScalar(16, None)) == Ok::<ValueView, CodecError>(
            ValueView::UIntScalar(None),
        ),
        spec_version(ValueView::TextScalar(k, None)) == Ok::<ValueView, CodecError>(
            ValueView::UIntScalar(None),
        ),
{
}

/// Null propagation, batch shape: in a batch that succeeds, a null
/// element stays null in the output of every function.
pub proof fn lemma_null_propagation_batch(
    k: TextKind,
    texts: Seq<Option<Seq<char>>>,
    bins: Seq<Option<Seq<u8>>>,
    i: int,
)
    requires
        all_texts_valid(texts),
        all_bins_len16(bins),
        0 <= i < texts.len(),
        0 <= i < bins.len(),
        texts[i] is None,
        bins[i] is None,
    ensures
        spec_encode(ValueView::TextArray(k, texts)) matches Ok(out) && out
            == ValueView::BinaryArray(16, texts.map_values(|o: Option<Seq<char>>| encode_opt(o)))
            && texts.map_values(|o: Option<Seq<char>>| encode_opt(o))[i] is None,
        spec_decode(ValueView::BinaryArray(16, bins)) matches Ok(out) && out
            == ValueView::TextArray(
            TextKind::Utf8View,
            bins.map_values(|o: Option<Seq<u8>>| decode_opt(o)),
        ) && bins.map_values(|o: Option<Seq<u8>>| decode_opt(o))[i] is None,
        spec_version(ValueView::BinaryArray(16, bins)) matches Ok(out) && out
            == ValueView::UIntArray(bins.map_values(|o: Option<Seq<u8>>| version_opt(o)))
            && bins.map_values(|o: Option<Seq<u8>>| version_opt(o))[i] is None,
{
}

/// Text-path delegation: on any value that is not already 16-wide
/// binary, `uuid_version` answers exactly what `string_to_uuid` followed
/// by version extraction answers, errors included.
pub proof fn lemma_version_delegates_to_encode(v: ValueView)
    requires
        !is_binary16_view(v),
    ensures
        spec_version(v) == (match spec_encode(v) {
            Ok(bv) => spec_version_of_binary(bv),
            Err(e) => Err(e),
        }),
{
}

/// Text-path delegation, scalar form: the version of a valid UUID still
/// in text form is the version of its encoding.
pub proof fn lemma_text_version_equals_encoded_version(k: TextKind, t: Seq<char>)
    requires
        is_uuid_text(t),
    ensures
        spec_encode(ValueView::TextScalar(k, Some(t))) matches Ok(bv) && spec_version(
            ValueView::TextScalar(k, Some(t)),
        ) == spec_version_of_binary(bv),
        spec_version(ValueView::TextScalar(k, Some(t))) == Ok::<ValueView, CodecError>(
            ValueView::UIntScalar(Some(version_of(uuid_bytes_of(t)))),
        ),
{
}

/// Tag enforcement: a 16-byte binary field without the canonical-UUID
/// tag is rejected with `SchemaError` by the functions that read binary,
/// even though the physical size matches.
pub proof fn lemma_tag_enforcement(f: FieldMetaView)
    requires
        f.data_kind == DataKind::FixedSizeBinary(16),
        !f.uuid_tag,
    ensures
        spec_decode_return_field(seq![f]) == Err::<FieldMetaView, CodecError>(
            CodecError::SchemaError,
        ),
        spec_version_return_field(seq![f]) == Err::<FieldMetaView, CodecError>(
            CodecError::SchemaError,
        ),
{
}

/// Fail-fast batch semantics: one malformed text element fails the whole
/// encode call with `ParseError`; no partial batch exists.
pub proof fn lemma_fail_fast_batch(k: TextKind, vals: Seq<Option<Seq<char>>>, i: int)
    requires
        0 <= i < vals.len(),
        vals[i] matches Some(t) && !is_uuid_text(t),
    ensures
        spec_encode(ValueView::TextArray(k, vals)) == Err::<ValueView, CodecError>(
            CodecError::ParseError,
        ),
{
    assert(!all_texts_valid(vals));
}

/// Whether a value is a single scalar.
pub open spec fn is_scalar_view(v: ValueView) -> bool {
    match v {
        ValueView::TextScalar(_, _) => true,
        ValueView::BinaryScalar(_, _) => true,
        ValueView::UIntScalar(_) => true,
        _ => false,
    }
}

/// The one-element batch holding the same value as a scalar.
pub open spec fn as_singleton_batch(v: ValueView) -> ValueView {
    match v {
        ValueView::TextScalar(k, o) => ValueView::TextArray(k, seq![o]),
        ValueView::BinaryScalar(w, o) => ValueView::BinaryArray(w, seq![o]),
        ValueView::UIntScalar(o) => ValueView::UIntArray(seq![o]),
        _ => v,
    }
}

/// A successful outcome turned into its one-element batch shape.
pub open spec fn as_singleton_result(r: Result<ValueView, CodecError>) -> Result<
    ValueView,
    CodecError,
> {
    match r {
        Ok(v) => Ok(as_singleton_batch(v)),
        Err(e) => Err(e),
    }
}

/// Version extraction agrees between a one-element 16-wide binary batch
/// and the matching scalar, for an element that is null or 16 bytes
/// long.
proof fn lemma_singleton_binary_version(o: Option<Seq<u8>>)
    requires
        o matches Some(b) ==> b.len() == 16,
    ensures
        spec_version_of_binary(ValueView::BinaryArray(16, seq![o])) == as_singleton_result(
            spec_version_of_binary(ValueView::BinaryScalar(16, o)),
        ),
{
    assert(seq![o][0] == o);
    assert(all_bins_len16(seq![o]));
    assert(seq![o].map_values(|e: Option<Seq<u8>>| version_opt(e)) =~= seq![version_opt(o)]);
}

/// Scalar/batch equivalence: invoking any function on a one-element
/// batch answers exactly the one-element batch of what invoking it on
/// the scalar answers.
pub proof fn lemma_scalar_batch_equivalence(v: ValueView)
    requires
        is_scalar_view(v),
    ensures
        spec_encode(as_singleton_batch(v)) == as_singleton_result(spec_encode(v)),
        spec_decode(as_singleton_batch(v)) == as_singleton_result(spec_decode(v)),
        spec_version(as_singleton_batch(v)) == as_singleton_result(spec_version(v)),
{
    match v {
        ValueView::TextScalar(k, o) => {
            match o {
                None => {
                    assert(all_texts_valid(seq![o]));
                    assert(seq![o].map_values(|e: Option<Seq<char>>| encode_opt(e)) =~= seq![
                        encode_opt(o),
                    ]);
                    lemma_singleton_binary_version(encode_opt(o));
                },
                Some(t) => {
                    if is_uuid_text(t) {
                        assert(all_texts_valid(seq![o]));
                        assert(seq![o].map_values(|e: Option<Seq<char>>| encode_opt(e)) =~= seq![
                            encode_opt(o),
                        ]);
                        lemma_singleton_binary_version(encode_opt(o));
                    } else {
                        assert(seq![o][0] == o);
                        assert(!all_texts_valid(seq![o]));
                    }
                },
            }
        },
        ValueView::BinaryScalar(w, o) => {
            match o {
                None => {
                    assert(all_bins_len16(seq![o]));
                    assert(seq![o].map_values(|e: Option<Seq<u8>>| decode_opt(e)) =~= seq![
                        decode_opt(o),
                    ]);
                    assert(seq![o].map_values(|e: Option<Seq<u8>>| version_opt(e)) =~= seq![
                        version_opt(o),
                    ]);
                },
                Some(b) => {
                    if b.len() == 16 {
                        assert(all_bins_len16(seq![o]));
                        assert(seq![o].map_values(|e: Option<Seq<u8>>| decode_opt(e)) =~= seq![
                            decode_opt(o),
                        ]);
                        assert(seq![o].map_values(|e: Option<Seq<u8>>| version_opt(e)) =~= seq![
                            version_opt(o),
                        ]);
                    } else {
                        assert(seq![o][0] == o);
                        assert(!all_bins_len16(seq![o]));
                    }
                },
            }
        },
        _ => {},
    }
}

} // verus!
