//! The magic-value bridge: a serializer adapter whose single legal terminal
//! operation accepts one machine-word integer and hands it back unchanged,
//! now typed as an opaque transmuted field.
//!
//! Magic value types are structs of one or two machine words (a pointer, a
//! pointer plus a length, a pointer plus a pointer). When asked to serialize
//! themselves they emit exactly those words through this bridge; the caller
//! reinterprets the words back into the original representation. Every other
//! terminal operation of a structured serializer is a contract violation:
//! reaching one means a magic value type is malformed, so the unverified
//! adapter around this module aborts there instead of returning an error that
//! could be swallowed. This module holds the verified core of that rule: the
//! identity of the legal path, and the predicate saying which kind is legal.

use vstd::prelude::*;

verus! {

/// A single machine word, as wide as a pointer on the build target. Its
/// meaning is defined entirely by the producer/consumer pair that agreed to
/// tunnel a representation through it.
pub type TransmutedField = usize;

/// The minimal serializer that magic value types write their words into.
/// It is stateless; each use is a single self-contained call.
pub struct FieldSerializer {}

/// Every terminal operation a structured serializer offers, by kind. The
/// bridge legalizes `Word` alone; an unverified adapter maps each illegal
/// serializer entry point to its kind and aborts with that kind's name.
pub enum ValueKind {
    /// The pointer-width integer path: the one legal terminal operation.
    Word,
    Bool,
    I8,
    I16,
    I32,
    I64,
    U8,
    U16,
    U32,
    U64,
    Float32,
    Float64,
    Character,
    Text,
    Bytes,
    OptionNone,
    OptionSome,
    Unit,
    UnitStruct,
    UnitVariant,
    NewtypeStruct,
    NewtypeVariant,
    Sequence,
    Tuple,
    TupleStruct,
    TupleVariant,
    Mapping,
    Struct,
    StructVariant,
}

/// Which terminal operations the bridge accepts: exactly the machine-word
/// path, nothing else.
pub open spec fn bridge_accepts(kind: ValueKind) -> bool {
    kind == ValueKind::Word
}

/// Of all the terminal operations a structured serializer offers, the bridge
/// legalizes exactly one: the machine-word path. Every other kind is a
/// contract violation and must abort rather than produce a value.
pub proof fn lemma_single_legal_kind(kind: ValueKind)
    ensures
        bridge_accepts(kind) <==> kind == ValueKind::Word,
{
}

impl FieldSerializer {
    /// The single legal terminal operation: accept one machine word and
    /// return it bit-identical, now read as an opaque transmuted field.
    pub fn serialize_word(self, word: TransmutedField) -> (r: TransmutedField)
        ensures
            r == word,
    {
        word
    }
}

/// Whether the bridge accepts a terminal operation of the given kind.
pub fn accepts(kind: &ValueKind) -> (r: bool)
    ensures
        r == bridge_accepts(*kind),
{
    match kind {
        ValueKind::Word => true,
        _ => false,
    }
}

/// The name of a value kind, as a diagnostic for the abort message raised
/// when that kind is routed through the bridge.
pub open spec fn spec_kind_name(kind: ValueKind) -> Seq<char> {
    match kind {
        ValueKind::Word => "machine word"@,
        ValueKind::Bool => "bool"@,
        ValueKind::I8 => "i8"@,
        ValueKind::I16 => "i16"@,
        ValueKind::I32 => "i32"@,
        ValueKind::I64 => "i64"@,
        ValueKind::U8 => "u8"@,
        ValueKind::U16 => "u16"@,
        ValueKind::U32 => "u32"@,
        ValueKind::U64 => "u64"@,
        ValueKind::Float32 => "f32"@,
        ValueKind::Float64 => "f64"@,
        ValueKind::Character => "char"@,
        ValueKind::Text => "&str"@,
        ValueKind::Bytes => "&[u8]"@,
        ValueKind::OptionNone => "none"@,
        ValueKind::OptionSome => "some"@,
        ValueKind::Unit => "unit"@,
        ValueKind::UnitStruct => "unit struct"@,
        ValueKind::UnitVariant => "unit variant"@,
        ValueKind::NewtypeStruct => "newtype struct"@,
        ValueKind::NewtypeVariant => "newtype variant"@,
        ValueKind::Sequence => "seq"@,
        ValueKind::Tuple => "tuple"@,
        ValueKind::TupleStruct => "tuple struct"@,
        ValueKind::TupleVariant => "tuple variant"@,
        ValueKind::Mapping => "map"@,
        ValueKind::Struct => "struct"@,
        ValueKind::StructVariant => "struct variant"@,
    }
}

/// The diagnostic name of a value kind, for the abort message of the
/// unverified serializer adapter.
pub fn kind_name(kind: &ValueKind) -> (r: &'static str)
    ensures
        r@ == spec_kind_name(*kind),
{
    match kind {
        ValueKind::Word => "machine word",
        ValueKind::Bool => "bool",
        ValueKind::I8 => "i8",
        ValueKind::I16 => "i16",
        ValueKind::I32 => "i32",
        ValueKind::I64 => "i64",
        ValueKind::U8 => "u8",
        ValueKind::U16 => "u16",
        ValueKind::U32 => "u32",
        ValueKind::U64 => "u64",
        ValueKind::Float32 => "f32",
        ValueKind::Float64 => "f64",
        ValueKind::Character => "char",
        ValueKind::Text => "&str",
        ValueKind::Bytes => "&[u8]",
        ValueKind::OptionNone => "none",
        ValueKind::OptionSome => "some",
        ValueKind::Unit => "unit",
        ValueKind::UnitStruct => "unit struct",
        ValueKind::UnitVariant => "unit variant",
        ValueKind::NewtypeStruct => "newtype struct",
        ValueKind::NewtypeVariant => "newtype variant",
        ValueKind::Sequence => "seq",
        ValueKind::Tuple => "tuple",
        ValueKind::TupleStruct => "tuple struct",
        ValueKind::TupleVariant => "tuple variant",
        ValueKind::Mapping => "map",
        ValueKind::Struct => "struct",
        ValueKind::StructVariant => "struct variant",
    }
}

} // verus!
