//! `uuid_version`: the RFC 4122 version nibble of a UUID given either as
//! canonical 16-byte binary or as text.  Text is first normalized by
//! delegating to `string_to_uuid`, so the two parse paths agree by
//! construction.

use vstd::prelude::*;

use crate::codec::{uuid_version_of, version_of};
use crate::model::{
    ArrayValue, CodecError, ColumnarValue, DataKind, FieldMeta, FieldMetaView, FunctionSignature,
    ScalarValue, TypeSignature, ValueView, Volatility, bin_opt_view, field_result_view,
    fields_view, is_text_kind, result_view,
};
use crate::string_to_uuid::{StringToUuid, spec_encode};
use crate::uuid_to_string::all_bins_len16;

verus! {

/// One extracted element: null stays null, 16 bytes yield their version
/// nibble.
pub open spec fn version_opt(o: Option<Seq<u8>>) -> Option<u32> {
    match o {
        None => None,
        Some(b) => Some(version_of(b)),
    }
}

/// Whether a value already has the canonical binary shape: fixed
/// 16-byte binary, as a batch or a scalar.
pub open spec fn is_binary16_view(v: ValueView) -> bool {
    match v {
        ValueView::BinaryArray(w, _) => w == 16,
        ValueView::BinaryScalar(w, _) => w == 16,
        _ => false,
    }
}

/// What extracting the version from an already-binary value returns:
/// the same shape with every 16-byte element replaced by its version
/// nibble widened to 32 bits, `ParseError` on an element of another
/// length.
pub open spec fn spec_version_of_binary(v: ValueView) -> Result<ValueView, CodecError> {
    match v {
        ValueView::BinaryArray(w, vals) => if all_bins_len16(vals) {
            Ok(ValueView::UIntArray(vals.map_values(|o: Option<Seq<u8>>| version_opt(o))))
        } else {
            Err(CodecError::ParseError)
        },
        ValueView::BinaryScalar(w, o) => match o {
            None => Ok(ValueView::UIntScalar(None)),
            Some(b) => if b.len() == 16 {
                Ok(ValueView::UIntScalar(Some(version_of(b))))
            } else {
                Err(CodecError::ParseError)
            },
        },
        _ => Err(CodecError::InternalShapeError),
    }
}

/// What invoking `uuid_version` returns for each input: a 16-byte binary
/// shape is read directly; any other shape is first handed to
/// `string_to_uuid`, whose outcome (including any `ParseError` or
/// `InternalShapeError`) decides the call.
pub open spec fn spec_version(v: ValueView) -> Result<ValueView, CodecError> {
    if is_binary16_view(v) {
        spec_version_of_binary(v)
    } else {
        match spec_encode(v) {
            Ok(bv) => spec_version_of_binary(bv),
            Err(e) => Err(e),
        }
    }
}

/// What return-schema deduction for `uuid_version` answers: one
/// argument, either 16-byte binary carrying the canonical-UUID tag or
/// any text-like encoding (text carries no tag and none is checked); on
/// success the field is a nullable unsigned 32-bit integer, and any
/// other argument is a `SchemaError`.
pub open spec fn spec_version_return_field(args: Seq<FieldMetaView>) -> Result<
    FieldMetaView,
    CodecError,
> {
    if args.len() == 1 && ((args[0].data_kind == DataKind::FixedSizeBinary(16)
        && args[0].uuid_tag) || is_text_kind(args[0].data_kind)) {
        Ok(FieldMetaView {
            name: "uuid_version"@,
            data_kind: DataKind::UInt32,
            nullable: true,
            uuid_tag: false,
        })
    } else {
        Err(CodecError::SchemaError)
    }
}

/// The version-extraction scalar function.  Stateless: it holds only its
/// fixed signature.
#[derive(Debug, Clone, PartialEq, Eq, Hash)]
pub struct UuidVersion {
    pub signature: FunctionSignature,
}

/// The declared signature of `uuid_version`: one argument, either the
/// 16-byte binary shape or any text encoding, immutable.
pub open spec fn spec_uuid_version_signature(s: FunctionSignature) -> bool {
    &&& s.type_signature matches TypeSignature::Uniform(n, kinds) && n == 1 && kinds@ =~= seq![
        DataKind::FixedSizeBinary(16),
        DataKind::Utf8,
        DataKind::Utf8View,
        DataKind::LargeUtf8,
    ]
    &&& s.volatility == Volatility::Immutable
}

impl Default for UuidVersion {
    fn default() -> (r: Self)
        ensures
            spec_uuid_version_signature(r.signature),
    {
        let mut kinds: Vec<DataKind> = Vec::new();
        kinds.push(DataKind::FixedSizeBinary(16));
        kinds.push(DataKind::Utf8);
        kinds.push(DataKind::Utf8View);
        kinds.push(DataKind::LargeUtf8);
        UuidVersion {
            signature: FunctionSignature {
                type_signature: TypeSignature::Uniform(1, kinds),
                volatility: Volatility::Immutable,
            },
        }
    }
}

/// Whether a runtime value already has the canonical binary shape.
fn is_binary16(v: &ColumnarValue) -> (r: bool)
    ensures
        r == is_binary16_view(v@),
{
    match v {
        ColumnarValue::Array(ArrayValue::FixedSizeBinary(w, _)) => *w == 16,
        ColumnarValue::Scalar(ScalarValue::FixedSizeBinary(w, _)) => *w == 16,
        _ => false,
    }
}

/// Reads the version nibble out of a value already in the canonical
/// binary shape.
fn version_from_binary(input: ColumnarValue) -> (r: Result<ColumnarValue, CodecError>)
    requires
        is_binary16_view(input@),
    ensures
        result_view(r) == spec_version_of_binary(input@),
{
    match input {
        ColumnarValue::Array(ArrayValue::FixedSizeBinary(w, vals)) => {
            let ghost bv = crate::model::bins_view(vals@);
            let mut out: Vec<Option<u32>> = Vec::new();
            let mut i: usize = 0;
            while i < vals.len()
                invariant
                    i <= vals.len(),
                    bv == crate::model::bins_view(vals@),
                    input@ == ValueView::BinaryArray(w, bv),
                    out@.len() == i,
                    forall|m: int| 0 <= m < i ==> #[trigger] out@[m] == version_opt(bv[m]),
                    forall|m: int| 0 <= m < i ==> ((#[trigger] bv[m]) matches Some(b)
                        ==> b.len() == 16),
                decreases vals.len() - i,
            {
                match &vals[i] {
                    None => {
                        out.push(None);
                    },
                    Some(b) => {
                        if b.len() != 16 {
                            proof {
                                assert(bv[i as int] == bin_opt_view(vals@[i as int]));
                                assert(!all_bins_len16(bv));
                            }
                            return Err(CodecError::ParseError);
                        }
                        out.push(Some(uuid_version_of(b)));
                    },
                }
                i += 1;
            }
            proof {
                assert(out@ =~= bv.map_values(|o: Option<Seq<u8>>| version_opt(o)));
            }
            Ok(ColumnarValue::Array(ArrayValue::UInt32(out)))
        },
        ColumnarValue::Scalar(ScalarValue::FixedSizeBinary(w, o)) => match o {
            None => Ok(ColumnarValue::Scalar(ScalarValue::UInt32(None))),
            Some(b) => {
                if b.len() != 16 {
                    return Err(CodecError::ParseError);
                }
                Ok(ColumnarValue::Scalar(ScalarValue::UInt32(Some(uuid_version_of(&b)))))
            },
        },
        _ => Err(CodecError::InternalShapeError),
    }
}

impl UuidVersion {
    /// The function's stable name.
    pub fn name(&self) -> (r: &'static str)
        ensures
            r@ == "uuid_version"@,
    {
        "uuid_version"
    }

    /// The function's declared signature.
    pub fn signature(&self) -> (r: &FunctionSignature)
        ensures
            *r == self.signature,
    {
        &self.signature
    }

    /// Deduces the return field from the argument fields.  The one
    /// argument must be 16-byte binary carrying the canonical-UUID tag,
    /// or text-like (text carries no tag and none is checked); any other
    /// logical type is rejected.
    pub fn return_field_from_args(&self, arg_fields: &Vec<FieldMeta>) -> (r: Result<
        FieldMeta,
        CodecError,
    >)
        ensures
            field_result_view(r) == spec_version_return_field(fields_view(arg_fields@)),
    {
        if arg_fields.len() != 1 {
            return Err(CodecError::SchemaError);
        }
        let f = &arg_fields[0];
        let accepted = match f.data_kind {
            DataKind::FixedSizeBinary(w) => w == 16 && f.uuid_tag,
            DataKind::Utf8 | DataKind::LargeUtf8 | DataKind::Utf8View => true,
            _ => false,
        };
        if !accepted {
            return Err(CodecError::SchemaError);
        }
        Ok(FieldMeta {
            name: String::from_str("uuid_version"),
            data_kind: DataKind::UInt32,
            nullable: true,
            uuid_tag: false,
        })
    }

    /// Invokes the function on a batch or a scalar: a 16-byte binary
    /// shape is read directly; anything else is first handed to
    /// `string_to_uuid`, and any error of that delegation propagates
    /// unchanged.  Null stays null throughout.
    pub fn invoke_with_args(&self, input: ColumnarValue) -> (r: Result<ColumnarValue, CodecError>)
        ensures
            result_view(r) == spec_version(input@),
    {
        if is_binary16(&input) {
            version_from_binary(input)
        } else {
            let codec = StringToUuid::default();
            match codec.invoke_with_args(input) {
                Ok(binary) => {
                    proof {
                        assert(is_binary16_view(binary@));
                    }
                    version_from_binary(binary)
                },
                Err(e) => Err(e),
            }
        }
    }
}

} // verus!
