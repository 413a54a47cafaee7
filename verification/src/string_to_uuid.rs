//! `string_to_uuid`: text to canonical 16-byte UUID binary, tagged as
//! canonical UUID in the returned schema.

use vstd::prelude::*;

use crate::codec::{is_uuid_text, parse_uuid_text, uuid_bytes_of};
use crate::model::{
    ArrayValue, CodecError, ColumnarValue, DataKind, FieldMeta, FieldMetaView, FunctionSignature,
    ScalarValue, TextKind, TypeSignature, ValueView, Volatility, bin_opt_view, field_result_view,
    fields_view, is_text_kind, result_view, text_opt_view, texts_view,
};

verus! {

/// Whether every present text element of a batch is valid UUID text.
pub open spec fn all_texts_valid(vals: Seq<Option<Seq<char>>>) -> bool {
    forall|i: int| 0 <= i < vals.len() ==> ((#[trigger] vals[i]) matches Some(t) ==> is_uuid_text(t))
}

/// One encoded element: null stays null, text becomes its 16 bytes.
pub open spec fn encode_opt(o: Option<Seq<char>>) -> Option<Seq<u8>> {
    match o {
        None => None,
        Some(t) => Some(uuid_bytes_of(t)),
    }
}

/// What invoking `string_to_uuid` returns for each input: the same shape
/// with every text element parsed, `ParseError` on the first invalid
/// element, `InternalShapeError` on a non-text shape.
pub open spec fn spec_encode(v: ValueView) -> Result<ValueView, CodecError> {
    match v {
        ValueView::TextArray(k, vals) => if all_texts_valid(vals) {
            Ok(ValueView::BinaryArray(16, vals.map_values(|o: Option<Seq<char>>| encode_opt(o))))
        } else {
            Err(CodecError::ParseError)
        },
        ValueView::TextScalar(k, o) => match o {
            None => Ok(ValueView::BinaryScalar(16, None)),
            Some(t) => if is_uuid_text(t) {
                Ok(ValueView::BinaryScalar(16, Some(uuid_bytes_of(t))))
            } else {
                Err(CodecError::ParseError)
            },
        },
        _ => Err(CodecError::InternalShapeError),
    }
}

/// What return-schema deduction for `string_to_uuid` answers: one
/// text-like argument gives a nullable 16-byte binary field carrying the
/// canonical-UUID tag; anything else is a `SchemaError`.
pub open spec fn spec_encode_return_field(args: Seq<FieldMetaView>) -> Result<
    FieldMetaView,
    CodecError,
> {
    if args.len() == 1 && is_text_kind(args[0].data_kind) {
        Ok(FieldMetaView {
            name: "string_to_uuid"@,
            data_kind: DataKind::FixedSizeBinary(16),
            nullable: true,
            uuid_tag: true,
        })
    } else {
        Err(CodecError::SchemaError)
    }
}

/// The text-to-UUID scalar function.  Stateless: it holds only its fixed
/// signature.
#[derive(Debug, Clone, PartialEq, Eq, Hash)]
pub struct StringToUuid {
    pub signature: FunctionSignature,
}

/// The declared signature of `string_to_uuid`: one text-like argument,
/// immutable.
pub open spec fn spec_string_to_uuid_signature() -> FunctionSignature {
    FunctionSignature {
        type_signature: TypeSignature::TextLike(1),
        volatility: Volatility::Immutable,
    }
}

impl Default for StringToUuid {
    fn default() -> (r: Self)
        ensures
            r.signature == spec_string_to_uuid_signature(),
    {
        StringToUuid {
            signature: FunctionSignature {
                type_signature: TypeSignature::TextLike(1),
                volatility: Volatility::Immutable,
            },
        }
    }
}

impl StringToUuid {
    /// The function's stable name.
    pub fn name(&self) -> (r: &'static str)
        ensures
            r@ == "string_to_uuid"@,
    {
        "string_to_uuid"
    }

    /// The function's declared signature.
    pub fn signature(&self) -> (r: &FunctionSignature)
        ensures
            *r == self.signature,
    {
        &self.signature
    }

    /// Deduces the return field from the argument fields.
    pub fn return_field_from_args(&self, arg_fields: &Vec<FieldMeta>) -> (r: Result<
        FieldMeta,
        CodecError,
    >)
        ensures
            field_result_view(r) == spec_encode_return_field(fields_view(arg_fields@)),
    {
        if arg_fields.len() != 1 {
            return Err(CodecError::SchemaError);
        }
        match arg_fields[0].data_kind {
            DataKind::Utf8 | DataKind::LargeUtf8 | DataKind::Utf8View => {},
            _ => {
                return Err(CodecError::SchemaError);
            },
        }
        Ok(FieldMeta {
            name: String::from_str("string_to_uuid"),
            data_kind: DataKind::FixedSizeBinary(16),
            nullable: true,
            uuid_tag: true,
        })
    }

    /// Invokes the function on a batch or a scalar: null stays null,
    /// text becomes 16 bytes, the first invalid element fails the whole
    /// call with `ParseError`, and a non-text shape fails with
    /// `InternalShapeError`.
    pub fn invoke_with_args(&self, input: ColumnarValue) -> (r: Result<ColumnarValue, CodecError>)
        ensures
            result_view(r) == spec_encode(input@),
    {
        match input {
            ColumnarValue::Array(ArrayValue::Text(k, vals)) => {
                let ghost tv = texts_view(vals@);
                let mut out: Vec<Option<Vec<u8>>> = Vec::new();
                let mut i: usize = 0;
                while i < vals.len()
                    invariant
                        i <= vals.len(),
                        tv == texts_view(vals@),
                        input@ == ValueView::TextArray(k, tv),
                        out@.len() == i,
                        forall|m: int| 0 <= m < i ==> bin_opt_view(#[trigger] out@[m])
                            == encode_opt(tv[m]),
                        forall|m: int| 0 <= m < i ==> ((#[trigger] tv[m]) matches Some(t)
                            ==> is_uuid_text(t)),
                    decreases vals.len() - i,
                {
                    match &vals[i] {
                        None => {
                            out.push(None);
                        },
                        Some(s) => {
                            match parse_uuid_text(s.as_str()) {
                                Some(b) => {
                                    out.push(Some(b));
                                },
                                None => {
                                    proof {
                                        assert(tv[i as int] == text_opt_view(vals@[i as int]));
                                        assert(tv[i as int] matches Some(t) && !is_uuid_text(t));
                                        assert(!all_texts_valid(tv));
                                        assert(input@ == ValueView::TextArray(k, tv));
                                    }
                                    return Err(CodecError::ParseError);
                                },
                            }
                        },
                    }
                    i += 1;
                }
                proof {
                    assert(crate::model::bins_view(out@) =~= tv.map_values(
                        |o: Option<Seq<char>>| encode_opt(o)));
                }
                Ok(ColumnarValue::Array(ArrayValue::FixedSizeBinary(16, out)))
            },
            ColumnarValue::Scalar(ScalarValue::Text(k, o)) => match o {
                None => Ok(ColumnarValue::Scalar(ScalarValue::FixedSizeBinary(16, None))),
                Some(s) => match parse_uuid_text(s.as_str()) {
                    Some(b) => Ok(ColumnarValue::Scalar(ScalarValue::FixedSizeBinary(
                        16,
                        Some(b),
                    ))),
                    None => Err(CodecError::ParseError),
                },
            },
            _ => Err(CodecError::InternalShapeError),
        }
    }
}

} // verus!
