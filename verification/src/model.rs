//! The data model the three scalar functions operate on: logical types
//! with their semantic UUID tag, nullable columnar batches and single
//! scalar values, and the error kinds.

use vstd::prelude::*;

verus! {

/// The three interchangeable physical encodings of text.
#[derive(Debug, Clone, Copy, PartialEq, Eq, Structural)]
pub enum TextKind {
    Utf8,
    LargeUtf8,
    Utf8View,
}

/// The logical type of a field, as far as these functions read it.
#[derive(Debug, Clone, Copy, PartialEq, Eq, Hash, Structural)]
pub enum DataKind {
    Utf8,
    LargeUtf8,
    Utf8View,
    FixedSizeBinary(u32),
    UInt32,
    Other,
}

/// Why a call failed.
#[derive(Debug, Clone, Copy, PartialEq, Eq, Structural)]
pub enum CodecError {
    /// Wrong argument count, unsupported logical type, or a missing
    /// canonical-UUID tag; raised during return-schema deduction.
    SchemaError,
    /// Text that is not a valid UUID, or malformed byte content; fails
    /// the whole batch or scalar call.
    ParseError,
    /// The runtime value's physical shape did not match the declared
    /// signature.
    InternalShapeError,
}

/// A field descriptor: name, logical type, nullability, and whether the
/// field's metadata carries the canonical-UUID tag.
#[derive(Debug, Clone, PartialEq, Eq)]
pub struct FieldMeta {
    pub name: String,
    pub data_kind: DataKind,
    pub nullable: bool,
    pub uuid_tag: bool,
}

/// The mathematical value of a `FieldMeta`.
pub struct FieldMetaView {
    pub name: Seq<char>,
    pub data_kind: DataKind,
    pub nullable: bool,
    pub uuid_tag: bool,
}

impl View for FieldMeta {
    type V = FieldMetaView;

    open spec fn view(&self) -> FieldMetaView {
        FieldMetaView {
            name: self.name@,
            data_kind: self.data_kind,
            nullable: self.nullable,
            uuid_tag: self.uuid_tag,
        }
    }
}

/// A whole columnar batch: an ordered, fixed-length, nullable sequence.
#[derive(Debug, Clone, PartialEq, Eq)]
pub enum ArrayValue {
    Text(TextKind, Vec<Option<String>>),
    FixedSizeBinary(u32, Vec<Option<Vec<u8>>>),
    UInt32(Vec<Option<u32>>),
}

/// A single optional value.
#[derive(Debug, Clone, PartialEq, Eq)]
pub enum ScalarValue {
    Text(TextKind, Option<String>),
    FixedSizeBinary(u32, Option<Vec<u8>>),
    UInt32(Option<u32>),
}

/// What an invocation is given and what it returns: a batch or a scalar.
#[derive(Debug, Clone, PartialEq, Eq)]
pub enum ColumnarValue {
    Array(ArrayValue),
    Scalar(ScalarValue),
}

/// The mathematical value of a `ColumnarValue`: shape, physical type and
/// contents, with text as character sequences and binary as byte
/// sequences.
pub enum ValueView {
    TextArray(TextKind, Seq<Option<Seq<char>>>),
    BinaryArray(u32, Seq<Option<Seq<u8>>>),
    UIntArray(Seq<Option<u32>>),
    TextScalar(TextKind, Option<Seq<char>>),
    BinaryScalar(u32, Option<Seq<u8>>),
    UIntScalar(Option<u32>),
}

/// The view of one nullable text element.
pub open spec fn text_opt_view(o: Option<String>) -> Option<Seq<char>> {
    match o {
        Some(s) => Some(s@),
        None => None,
    }
}

/// The view of one nullable binary element.
pub open spec fn bin_opt_view(o: Option<Vec<u8>>) -> Option<Seq<u8>> {
    match o {
        Some(b) => Some(b@),
        None => None,
    }
}

/// The views of a batch of nullable text elements.
pub open spec fn texts_view(v: Seq<Option<String>>) -> Seq<Option<Seq<char>>> {
    v.map_values(|o: Option<String>| text_opt_view(o))
}

/// The views of a batch of nullable binary elements.
pub open spec fn bins_view(v: Seq<Option<Vec<u8>>>) -> Seq<Option<Seq<u8>>> {
    v.map_values(|o: Option<Vec<u8>>| bin_opt_view(o))
}

impl View for ArrayValue {
    type V = ValueView;

    open spec fn view(&self) -> ValueView {
        match self {
            ArrayValue::Text(k, v) => ValueView::TextArray(*k, texts_view(v@)),
            ArrayValue::FixedSizeBinary(w, v) => ValueView::BinaryArray(*w, bins_view(v@)),
            ArrayValue::UInt32(v) => ValueView::UIntArray(v@),
        }
    }
}

impl View for ScalarValue {
    type V = ValueView;

    open spec fn view(&self) -> ValueView {
        match self {
            ScalarValue::Text(k, o) => ValueView::TextScalar(*k, text_opt_view(*o)),
            ScalarValue::FixedSizeBinary(w, o) => ValueView::BinaryScalar(*w, bin_opt_view(*o)),
            ScalarValue::UInt32(o) => ValueView::UIntScalar(*o),
        }
    }
}

impl View for ColumnarValue {
    type V = ValueView;

    open spec fn view(&self) -> ValueView {
        match self {
            ColumnarValue::Array(a) => a@,
            ColumnarValue::Scalar(s) => s@,
        }
    }
}

/// The view of an invocation's outcome.
pub open spec fn result_view(r: Result<ColumnarValue, CodecError>) -> Result<ValueView, CodecError> {
    match r {
        Ok(v) => Ok(v@),
        Err(e) => Err(e),
    }
}

/// The view of a return-schema deduction's outcome.
pub open spec fn field_result_view(r: Result<FieldMeta, CodecError>) -> Result<
    FieldMetaView,
    CodecError,
> {
    match r {
        Ok(f) => Ok(f@),
        Err(e) => Err(e),
    }
}

/// The views of the argument fields handed to return-schema deduction.
pub open spec fn fields_view(v: Seq<FieldMeta>) -> Seq<FieldMetaView> {
    v.map_values(|f: FieldMeta| f@)
}

/// Whether a logical type is text-like.
pub open spec fn is_text_kind(k: DataKind) -> bool {
    k == DataKind::Utf8 || k == DataKind::LargeUtf8 || k == DataKind::Utf8View
}

/// How the host declares one of these functions: arity and accepted
/// logical types, and the promise that the function is pure.
#[derive(Debug, Clone, PartialEq, Eq, Hash)]
pub enum TypeSignature {
    /// One text-like argument, any physical text encoding.
    TextLike(u32),
    /// Arguments of exactly the listed types.
    Exact(Vec<DataKind>),
    /// The given number of arguments, each drawn from one set of types.
    Uniform(u32, Vec<DataKind>),
}

/// How often a call on the same input may change its result.
#[derive(Debug, Clone, Copy, PartialEq, Eq, Hash, Structural)]
pub enum Volatility {
    Immutable,
    Stable,
    Volatile,
}

/// A function's declared signature.
#[derive(Debug, Clone, PartialEq, Eq, Hash)]
pub struct FunctionSignature {
    pub type_signature: TypeSignature,
    pub volatility: Volatility,
}

} // verus!
