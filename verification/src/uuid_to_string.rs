//! `uuid_to_string`: canonical 16-byte UUID binary, tagged as canonical
//! UUID in its field metadata, to canonical lowercase hyphenated text.

use vstd::prelude::*;

use crate::codec::{canonical_text_of, format_uuid_text};
use crate::model::{
    ArrayValue, CodecError, ColumnarValue, DataKind, FieldMeta, FieldMetaView, FunctionSignature,
    ScalarValue, TextKind, TypeSignature, ValueView, Volatility, bin_opt_view, field_result_view,
    fields_view, result_view, text_opt_view, texts_view,
};

verus! {

/// Whether every present binary element of a batch holds exactly 16
/// bytes.
pub open spec fn all_bins_len16(vals: Seq<Option<Seq<u8>>>) -> bool {
    forall|i: int| 0 <= i < vals.len() ==> ((#[trigger] vals[i]) matches Some(b) ==> b.len() == 16)
}

/// One decoded element: null stays null, 16 bytes become their canonical
/// text.
pub open spec fn decode_opt(o: Option<Seq<u8>>) -> Option<Seq<char>> {
    match o {
        None => None,
        Some(b) => Some(canonical_text_of(b)),
    }
}

/// What invoking `uuid_to_string` returns for each input: the same shape
/// with every 16-byte element decoded to canonical text, `ParseError` on
/// the first element of another length, `InternalShapeError` on any
/// shape that is not 16-wide fixed binary.
pub open spec fn spec_decode(v: ValueView) -> Result<ValueView, CodecError> {
    match v {
        ValueView::BinaryArray(w, vals) => if w == 16 {
            if all_bins_len16(vals) {
                Ok(ValueView::TextArray(
                    TextKind::Utf8View,
                    vals.map_values(|o: Option<Seq<u8>>| decode_opt(o)),
                ))
            } else {
                Err(CodecError::ParseError)
            }
        } else {
            Err(CodecError::InternalShapeError)
        },
        ValueView::BinaryScalar(w, o) => if w == 16 {
            match o {
                None => Ok(ValueView::TextScalar(TextKind::Utf8View, None)),
                Some(b) => if b.len() == 16 {
                    Ok(ValueView::TextScalar(TextKind::Utf8View, Some(canonical_text_of(b))))
                } else {
                    Err(CodecError::ParseError)
                },
            }
        } else {
            Err(CodecError::InternalShapeError)
        },
        _ => Err(CodecError::InternalShapeError),
    }
}

/// What return-schema deduction for `uuid_to_string` answers: one
/// 16-byte binary argument whose field carries the canonical-UUID tag
/// gives a nullable text field; anything else is a `SchemaError`.
pub open spec fn spec_decode_return_field(args: Seq<FieldMetaView>) -> Result<
    FieldMetaView,
    CodecError,
> {
    if args.len() == 1 && args[0].data_kind == DataKind::FixedSizeBinary(16) && args[0].uuid_tag {
        Ok(FieldMetaView {
            name: "uuid_to_string"@,
            data_kind: DataKind::Utf8View,
            nullable: true,
            uuid_tag: false,
        })
    } else {
        Err(CodecError::SchemaError)
    }
}

/// The UUID-to-text scalar function.  Stateless: it holds only its fixed
/// signature.
#[derive(Debug, Clone, PartialEq, Eq, Hash)]
pub struct UuidToString {
    pub signature: FunctionSignature,
}

/// The declared signature of `uuid_to_string`: exactly one 16-byte
/// binary argument, immutable.
pub open spec fn spec_uuid_to_string_signature(s: FunctionSignature) -> bool {
    &&& s.type_signature matches TypeSignature::Exact(kinds) && kinds@ =~= seq![
        DataKind::FixedSizeBinary(16),
    ]
    &&& s.volatility == Volatility::Immutable
}

impl Default for UuidToString {
    fn default() -> (r: Self)
        ensures
            spec_uuid_to_string_signature(r.signature),
    {
        let mut kinds: Vec<DataKind> = Vec::new();
        kinds.push(DataKind::FixedSizeBinary(16));
        UuidToString {
            signature: FunctionSignature {
                type_signature: TypeSignature::Exact(kinds),
                volatility: Volatility::Immutable,
            },
        }
    }
}

impl UuidToString {
    /// The function's stable name.
    pub fn name(&self) -> (r: &'static str)
        ensures
            r@ == "uuid_to_string"@,
    {
        "uuid_to_string"
    }

    /// The function's declared signature.
    pub fn signature(&self) -> (r: &FunctionSignature)
        ensures
            *r == self.signature,
    {
        &self.signature
    }

    /// Deduces the return field from the argument fields.  The
    /// canonical-UUID tag is required: it is the only thing that
    /// distinguishes a UUID from arbitrary 16-byte binary.
    pub fn return_field_from_args(&self, arg_fields: &Vec<FieldMeta>) -> (r: Result<
        FieldMeta,
        CodecError,
    >)
        ensures
            field_result_view(r) == spec_decode_return_field(fields_view(arg_fields@)),
    {
        if arg_fields.len() != 1 {
            return Err(CodecError::SchemaError);
        }
        let f = &arg_fields[0];
        let kind_ok = match f.data_kind {
            DataKind::FixedSizeBinary(w) => w == 16,
            _ => false,
        };
        if !kind_ok || !f.uuid_tag {
            return Err(CodecError::SchemaError);
        }
        Ok(FieldMeta {
            name: String::from_str("uuid_to_string"),
            data_kind: DataKind::Utf8View,
            nullable: true,
            uuid_tag: false,
        })
    }

    /// Invokes the function on a batch or a scalar: null stays null, 16
    /// bytes become canonical lowercase hyphenated text, an element of
    /// any other length fails the whole call with `ParseError`, and a
    /// wrong shape fails with `InternalShapeError`.
    pub fn invoke_with_args(&self, input: ColumnarValue) -> (r: Result<ColumnarValue, CodecError>)
        ensures
            result_view(r) == spec_decode(input@),
    {
        match input {
            ColumnarValue::Array(ArrayValue::FixedSizeBinary(w, vals)) => {
                if w != 16 {
                    return Err(CodecError::InternalShapeError);
                }
                let ghost bv = crate::model::bins_view(vals@);
                let mut out: Vec<Option<String>> = Vec::new();
                let mut i: usize = 0;
                while i < vals.len()
                    invariant
                        i <= vals.len(),
                        w == 16,
                        bv == crate::model::bins_view(vals@),
                        input@ == ValueView::BinaryArray(w, bv),
                        out@.len() == i,
                        forall|m: int| 0 <= m < i ==> text_opt_view(#[trigger] out@[m])
                            == decode_opt(bv[m]),
                        forall|m: int| 0 <= m < i ==> ((#[trigger] bv[m]) matches Some(b)
                            ==> b.len() == 16),
                    decreases vals.len() - i,
                {
                    match &vals[i] {
                        None => {
                            out.push(None);
                        },
                        Some(b) => {
                            if b.len() != 16 {
                                proof {
                                    assert(bv[i as int] == bin_opt_view(vals@[i as int]));
                                    assert(!all_bins_len16(bv));
                                }
                                return Err(CodecError::ParseError);
                            }
                            out.push(Some(format_uuid_text(b)));
                        },
                    }
                    i += 1;
                }
                proof {
                    assert(texts_view(out@) =~= bv.map_values(
                        |o: Option<Seq<u8>>| decode_opt(o)));
                }
                Ok(ColumnarValue::Array(ArrayValue::Text(TextKind::Utf8View, out)))
            },
            ColumnarValue::Scalar(ScalarValue::FixedSizeBinary(w, o)) => {
                if w != 16 {
                    return Err(CodecError::InternalShapeError);
                }
                match o {
                    None => Ok(ColumnarValue::Scalar(ScalarValue::Text(TextKind::Utf8View, None))),
                    Some(b) => {
                        if b.len() != 16 {
                            return Err(CodecError::ParseError);
                        }
                        Ok(ColumnarValue::Scalar(ScalarValue::Text(
                            TextKind::Utf8View,
                            Some(format_uuid_text(&b)),
                        )))
                    },
                }
            },
            _ => Err(CodecError::InternalShapeError),
        }
    }
}

} // verus!
