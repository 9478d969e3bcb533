//! The pure mapping from each schema primitive wire kind to its
//! target-language type, and the naming of the runtime codec type that
//! handles wire (de)serialization for a field.

use vstd::prelude::*;
use vstd::string::StringExecFns;
use crate::ident::RustIdentWithPath;
use crate::ident::SymView;
use crate::ident::sym_code;
use crate::rust_types::CodegenError;
use crate::rust_types::RustType;
use crate::rust_types::RustTypeV;
use crate::strutil::capitalize;
use crate::strutil::capitalized;

verus! {

/// A schema field's wire kind, as the descriptor reports it.
#[allow(non_camel_case_types)]
#[derive(Copy, Clone, Debug, PartialEq, Eq, Structural)]
pub enum Type {
    TYPE_DOUBLE,
    TYPE_FLOAT,
    TYPE_INT32,
    TYPE_INT64,
    TYPE_UINT32,
    TYPE_UINT64,
    TYPE_SINT32,
    TYPE_SINT64,
    TYPE_FIXED32,
    TYPE_FIXED64,
    TYPE_SFIXED32,
    TYPE_SFIXED64,
    TYPE_BOOL,
    TYPE_STRING,
    TYPE_BYTES,
    TYPE_ENUM,
    TYPE_MESSAGE,
    TYPE_GROUP,
}

/// The schema-language name of each wire kind.
pub open spec fn protobuf_name_spec(field_type: Type) -> Seq<char> {
    match field_type {
        Type::TYPE_DOUBLE => "double"@,
        Type::TYPE_FLOAT => "float"@,
        Type::TYPE_INT32 => "int32"@,
        Type::TYPE_INT64 => "int64"@,
        Type::TYPE_UINT32 => "uint32"@,
        Type::TYPE_UINT64 => "uint64"@,
        Type::TYPE_SINT32 => "sint32"@,
        Type::TYPE_SINT64 => "sint64"@,
        Type::TYPE_FIXED32 => "fixed32"@,
        Type::TYPE_FIXED64 => "fixed64"@,
        Type::TYPE_SFIXED32 => "sfixed32"@,
        Type::TYPE_SFIXED64 => "sfixed64"@,
        Type::TYPE_BOOL => "bool"@,
        Type::TYPE_STRING => "string"@,
        Type::TYPE_BYTES => "bytes"@,
        Type::TYPE_ENUM => "enum"@,
        Type::TYPE_MESSAGE => "message"@,
        Type::TYPE_GROUP => "group"@,
    }
}

/// The schema-language name of a wire kind.
pub fn protobuf_name(field_type: Type) -> (r: &'static str)
    ensures
        r@ == protobuf_name_spec(field_type),
{
    match field_type {
        Type::TYPE_DOUBLE => "double",
        Type::TYPE_FLOAT => "float",
        Type::TYPE_INT32 => "int32",
        Type::TYPE_INT64 => "int64",
        Type::TYPE_UINT32 => "uint32",
        Type::TYPE_UINT64 => "uint64",
        Type::TYPE_SINT32 => "sint32",
        Type::TYPE_SINT64 => "sint64",
        Type::TYPE_FIXED32 => "fixed32",
        Type::TYPE_FIXED64 => "fixed64",
        Type::TYPE_SFIXED32 => "sfixed32",
        Type::TYPE_SFIXED64 => "sfixed64",
        Type::TYPE_BOOL => "bool",
        Type::TYPE_STRING => "string",
        Type::TYPE_BYTES => "bytes",
        Type::TYPE_ENUM => "enum",
        Type::TYPE_MESSAGE => "message",
        Type::TYPE_GROUP => "group",
    }
}

/// The target-language type representing each primitive wire kind; the
/// enum, message and group kinds have no primitive mapping here.
pub open spec fn rust_name_spec(field_type: Type) -> Option<RustTypeV> {
    match field_type {
        Type::TYPE_DOUBLE => Some(RustTypeV::Float(64)),
        Type::TYPE_FLOAT => Some(RustTypeV::Float(32)),
        Type::TYPE_INT32 => Some(RustTypeV::Int(true, 32)),
        Type::TYPE_INT64 => Some(RustTypeV::Int(true, 64)),
        Type::TYPE_UINT32 => Some(RustTypeV::Int(false, 32)),
        Type::TYPE_UINT64 => Some(RustTypeV::Int(false, 64)),
        Type::TYPE_SINT32 => Some(RustTypeV::Int(true, 32)),
        Type::TYPE_SINT64 => Some(RustTypeV::Int(true, 64)),
        Type::TYPE_FIXED32 => Some(RustTypeV::Int(false, 32)),
        Type::TYPE_FIXED64 => Some(RustTypeV::Int(false, 64)),
        Type::TYPE_SFIXED32 => Some(RustTypeV::Int(true, 32)),
        Type::TYPE_SFIXED64 => Some(RustTypeV::Int(true, 64)),
        Type::TYPE_BOOL => Some(RustTypeV::Bool),
        Type::TYPE_STRING => Some(RustTypeV::String),
        Type::TYPE_BYTES => Some(
            RustTypeV::Vec(Box::new(RustTypeV::Int(false, 8))),
        ),
        _ => None,
    }
}

/// Map a primitive wire kind to its target-language type; fails loudly
/// for the enum, message and group kinds.
pub fn rust_name(field_type: Type) -> (r: Result<RustType, CodegenError>)
    ensures
        (match r {
            Ok(t) => rust_name_spec(field_type) == Some(t@),
            Err(e) => rust_name_spec(field_type) is None
                && e == CodegenError::UnknownPrimitiveKind,
        }),
{
    proof {
        reveal_with_fuel(crate::rust_types::rt_view, 3);
    }
    match field_type {
        Type::TYPE_DOUBLE => Ok(RustType::Float(64)),
        Type::TYPE_FLOAT => Ok(RustType::Float(32)),
        Type::TYPE_INT32 => Ok(RustType::Int(true, 32)),
        Type::TYPE_INT64 => Ok(RustType::Int(true, 64)),
        Type::TYPE_UINT32 => Ok(RustType::Int(false, 32)),
        Type::TYPE_UINT64 => Ok(RustType::Int(false, 64)),
        Type::TYPE_SINT32 => Ok(RustType::Int(true, 32)),
        Type::TYPE_SINT64 => Ok(RustType::Int(true, 64)),
        Type::TYPE_FIXED32 => Ok(RustType::Int(false, 32)),
        Type::TYPE_FIXED64 => Ok(RustType::Int(false, 64)),
        Type::TYPE_SFIXED32 => Ok(RustType::Int(true, 32)),
        Type::TYPE_SFIXED64 => Ok(RustType::Int(true, 64)),
        Type::TYPE_BOOL => Ok(RustType::Bool),
        Type::TYPE_STRING => Ok(RustType::String),
        Type::TYPE_BYTES => Ok(RustType::Vec(Box::new(RustType::u8()))),
        Type::TYPE_ENUM | Type::TYPE_GROUP | Type::TYPE_MESSAGE => Err(
            CodegenError::UnknownPrimitiveKind,
        ),
    }
}

/// Which buffer representation the generated code uses for bytes and
/// string fields: the default owned buffers, or the shared
/// reference-counted buffers.
#[derive(Copy, Clone, Debug, PartialEq, Eq, Structural)]
pub enum PrimitiveTypeVariant {
    Default,
    Carllerche,
}

/// Mathematical view of a codec-type request.
pub enum TypeGenV {
    Primitive(Type, PrimitiveTypeVariant),
    Message(SymView),
    EnumOrUnknown(SymView),
    Enum(SymView),
}

/// A request for the name of the runtime codec type that carries a
/// field's wire (de)serialization.
#[derive(Debug)]
pub enum ProtobufTypeGen {
    Primitive(Type, PrimitiveTypeVariant),
    Message(RustIdentWithPath),
    EnumOrUnknown(RustIdentWithPath),
    Enum(RustIdentWithPath),
}

impl View for ProtobufTypeGen {
    type V = TypeGenV;

    open spec fn view(&self) -> TypeGenV {
        match self {
            ProtobufTypeGen::Primitive(t, v) => TypeGenV::Primitive(*t, *v),
            ProtobufTypeGen::Message(n) => TypeGenV::Message(n@),
            ProtobufTypeGen::EnumOrUnknown(n) => TypeGenV::EnumOrUnknown(n@),
            ProtobufTypeGen::Enum(n) => TypeGenV::Enum(n@),
        }
    }
}

/// The codec type name for a request, where one is defined: the shared
/// buffer representation exists only for the bytes and string kinds.
pub open spec fn type_gen_spec(g: TypeGenV) -> Option<Seq<char>> {
    match g {
        TypeGenV::Primitive(t, variant) => match variant {
            PrimitiveTypeVariant::Default => Some(
                "::protobuf::types::ProtobufType"@ + capitalized(protobuf_name_spec(t)),
            ),
            PrimitiveTypeVariant::Carllerche => match t {
                Type::TYPE_BYTES => Some("::protobuf::types::ProtobufTypeCarllercheBytes"@),
                Type::TYPE_STRING => Some("::protobuf::types::ProtobufTypeCarllercheChars"@),
                _ => None,
            },
        },
        TypeGenV::Message(n) => Some(
            "::protobuf::types::ProtobufTypeMessage<"@ + sym_code(n) + ">"@,
        ),
        TypeGenV::EnumOrUnknown(n) => Some(
            "::protobuf::types::ProtobufTypeEnumOrUnknown<"@ + sym_code(n) + ">"@,
        ),
        TypeGenV::Enum(n) => Some(
            "::protobuf::types::ProtobufTypeEnum<"@ + sym_code(n) + ">"@,
        ),
    }
}

impl ProtobufTypeGen {
    /// The name of the runtime codec type for this request; fails for a
    /// shared-buffer request on a kind that has no shared representation.
    pub fn rust_type(&self) -> (r: Result<String, CodegenError>)
        ensures
            (match r {
                Ok(s) => type_gen_spec(self@) == Some(s@),
                Err(e) => type_gen_spec(self@) is None
                    && e == CodegenError::UnrepresentableOperation,
            }),
    {
        match self {
            ProtobufTypeGen::Primitive(t, PrimitiveTypeVariant::Default) => {
                let mut r = String::from_str("::protobuf::types::ProtobufType");
                r.append(capitalize(protobuf_name(*t)).as_str());
                Ok(r)
            },
            ProtobufTypeGen::Primitive(Type::TYPE_BYTES, PrimitiveTypeVariant::Carllerche) => {
                Ok(String::from_str("::protobuf::types::ProtobufTypeCarllercheBytes"))
            },
            ProtobufTypeGen::Primitive(Type::TYPE_STRING, PrimitiveTypeVariant::Carllerche) => {
                Ok(String::from_str("::protobuf::types::ProtobufTypeCarllercheChars"))
            },
            ProtobufTypeGen::Primitive(..) => Err(CodegenError::UnrepresentableOperation),
            ProtobufTypeGen::Message(n) => {
                let mut r = String::from_str("::protobuf::types::ProtobufTypeMessage<");
                r.append(n.to_code().as_str());
                r.append(">");
                Ok(r)
            },
            ProtobufTypeGen::EnumOrUnknown(n) => {
                let mut r = String::from_str("::protobuf::types::ProtobufTypeEnumOrUnknown<");
                r.append(n.to_code().as_str());
                r.append(">");
                Ok(r)
            },
            ProtobufTypeGen::Enum(n) => {
                let mut r = String::from_str("::protobuf::types::ProtobufTypeEnum<");
                r.append(n.to_code().as_str());
                r.append(">");
                Ok(r)
            },
        }
    }
}

} // verus!
