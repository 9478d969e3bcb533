use protobuf_codegen::ident::RustIdent;
use protobuf_codegen::ident::RustIdentWithPath;
use protobuf_codegen::kinds::PrimitiveTypeVariant;
use protobuf_codegen::kinds::ProtobufTypeGen;
use protobuf_codegen::kinds::Type;
use protobuf_codegen::kinds::protobuf_name;
use protobuf_codegen::kinds::rust_name;
use protobuf_codegen::rust_types::CodegenError;
use protobuf_codegen::rust_types::RustType;
use protobuf_codegen::strutil::capitalize;

fn msg(name: &str) -> RustType {
    RustType::Message(RustIdentWithPath::new(name))
}

fn named_enum(name: &str, default: &str) -> RustType {
    RustType::Enum(RustIdentWithPath::new(name), RustIdent::new(default))
}

fn named_enum_or_unknown(name: &str, default: &str) -> RustType {
    RustType::EnumOrUnknown(RustIdentWithPath::new(name), RustIdent::new(default))
}

#[test]
fn into_target_ref_box_to_ref() {
    let t1 = RustType::Ref(Box::new(RustType::Uniq(Box::new(RustType::Message(
        RustIdentWithPath::new("Ab"),
    )))));
    let t2 = RustType::Ref(Box::new(RustType::Message(RustIdentWithPath::new("Ab"))));

    assert_eq!("&**v", t1.into_target(&t2, "v"));
}

#[test]
fn into_target_identity_is_expression_unchanged() {
    let cases = [
        RustType::Int(true, 32),
        RustType::Bool,
        RustType::String,
        RustType::Vec(Box::new(RustType::u8())),
        msg("Ab"),
        RustType::Option(Box::new(RustType::Float(64))),
    ];
    for t in cases {
        let u = t.clone();
        assert_eq!("v", t.into_target(&u, "v"));
    }
}

#[test]
fn into_target_string_borrow_and_copy() {
    let string = RustType::String;
    let ref_str = RustType::Ref(Box::new(RustType::Str));
    assert_eq!("&v", string.into_target(&ref_str, "v"));
    assert_eq!("v.to_owned()", ref_str.into_target(&RustType::String, "v"));
}

#[test]
fn into_target_slice_and_vec() {
    let ref_slice_u8 = RustType::Ref(Box::new(RustType::Slice(Box::new(RustType::u8()))));
    let vec_u8 = RustType::Vec(Box::new(RustType::u8()));
    assert_eq!("v.to_vec()", ref_slice_u8.into_target(&vec_u8, "v"));
    assert_eq!("&v", vec_u8.into_target(&ref_slice_u8, "v"));
    let ref_vec_u8 = RustType::Ref(Box::new(vec_u8.clone()));
    assert_eq!("&v", ref_vec_u8.into_target(&ref_slice_u8, "v"));
    assert_eq!("&v", RustType::Bytes.into_target(&ref_slice_u8, "v"));
}

#[test]
fn into_target_boxing_and_unboxing() {
    let t = msg("Ab");
    let boxed = RustType::Uniq(Box::new(msg("Ab")));
    assert_eq!("::std::boxed::Box::new(v)", t.into_target(&boxed, "v"));
    assert_eq!("*v", boxed.into_target(&t, "v"));
}

#[test]
fn into_target_enum_to_int() {
    let e = named_enum("Ab", "A");
    let i32t = RustType::Int(true, 32);
    assert_eq!("::protobuf::ProtobufEnum::value(&v)", e.into_target(&i32t, "v"));
    let eu = named_enum_or_unknown("Ab", "A");
    assert_eq!("::protobuf::ProtobufEnumOrUnknown::value(&v)", eu.into_target(&i32t, "v"));
}

#[test]
fn into_target_enum_round_trip_expressions() {
    let e = named_enum("Ab", "A");
    let eu = named_enum_or_unknown("Ab", "A");
    let wrapped = e.into_target(&eu, "v");
    assert_eq!("::protobuf::ProtobufEnumOrUnknown::new(v)", wrapped);
    let back = eu.into_target(&e, &wrapped);
    assert_eq!(
        "::protobuf::ProtobufEnumOrUnknown::enum_value_or_default(\
         &::protobuf::ProtobufEnumOrUnknown::new(v))",
        back
    );
}

#[test]
fn into_target_ref_sees_through_to_target() {
    let ref_enum = RustType::Ref(Box::new(named_enum("Ab", "A")));
    let eu = named_enum_or_unknown("Ab", "A");
    assert_eq!("::protobuf::ProtobufEnumOrUnknown::new(v)", ref_enum.into_target(&eu, "v"));
}

#[test]
fn try_into_target_no_conversion_path() {
    let r = RustType::Bool.try_into_target(&RustType::String, "v");
    match r {
        Err(CodegenError::NoConversionPath(a, b)) => {
            assert_eq!(RustType::Bool, a);
            assert_eq!(RustType::String, b);
        }
        other => panic!("expected a conversion failure, got {:?}", other),
    }
}

#[test]
fn default_values_of_scalars_and_containers() {
    assert_eq!("0", RustType::Int(true, 32).default_value().unwrap());
    assert_eq!("0.", RustType::Float(64).default_value().unwrap());
    assert_eq!("false", RustType::Bool.default_value().unwrap());
    assert_eq!(
        "::std::vec::Vec::new()",
        RustType::Vec(Box::new(RustType::u8())).default_value().unwrap()
    );
    assert_eq!("::std::string::String::new()", RustType::String.default_value().unwrap());
    assert_eq!(
        "::std::option::Option::None",
        RustType::Option(Box::new(RustType::Bool)).default_value().unwrap()
    );
    assert_eq!("Ab::new()", msg("Ab").default_value().unwrap());
    assert_eq!("Ab::A", named_enum("Ab", "A").default_value().unwrap());
    assert_eq!(
        "::protobuf::ProtobufEnumOrUnknown::new(Ab::A)",
        named_enum_or_unknown("Ab", "A").default_value().unwrap()
    );
    assert_eq!(
        "\"\"",
        RustType::Ref(Box::new(RustType::Str)).default_value().unwrap()
    );
    assert_eq!(
        "&[]",
        RustType::Ref(Box::new(RustType::Slice(Box::new(RustType::u8()))))
            .default_value()
            .unwrap()
    );
    assert_eq!(
        "<Ab as ::protobuf::Message>::default_instance()",
        RustType::Ref(Box::new(msg("Ab"))).default_value().unwrap()
    );
}

#[test]
fn default_value_fails_outside_its_domain() {
    assert!(matches!(
        RustType::Group.default_value(),
        Err(CodegenError::UnrepresentableOperation)
    ));
    assert!(matches!(
        RustType::Oneof(RustIdentWithPath::new("Ab")).default_value(),
        Err(CodegenError::UnrepresentableOperation)
    ));
}

#[test]
fn clear_resets_scalars_to_their_default() {
    assert_eq!("x = 0", RustType::Int(false, 64).clear("x").unwrap());
    assert_eq!("x = false", RustType::Bool.clear("x").unwrap());
    assert_eq!("x = Ab::A", named_enum("Ab", "A").clear("x").unwrap());
}

#[test]
fn clear_empties_containers_in_place() {
    assert_eq!("x.clear()", RustType::String.clear("x").unwrap());
    assert_eq!("x.clear()", RustType::Vec(Box::new(RustType::u8())).clear("x").unwrap());
    assert_eq!(
        "x = ::std::option::Option::None",
        RustType::Option(Box::new(RustType::Bool)).clear("x").unwrap()
    );
    assert_eq!("::protobuf::Clear::clear(&mut x)", RustType::Chars.clear("x").unwrap());
    assert!(matches!(
        msg("Ab").clear("x"),
        Err(CodegenError::UnrepresentableOperation)
    ));
}

#[test]
fn default_round_trips_through_clear() {
    let t = RustType::Int(true, 32);
    let default = t.default_value().unwrap();
    assert_eq!(format!("x = {}", default), t.clear("x").unwrap());
}

#[test]
fn ref_type_of_owned_types() {
    assert_eq!(
        RustType::Ref(Box::new(RustType::Str)),
        RustType::String.ref_type().unwrap()
    );
    assert_eq!(
        RustType::Ref(Box::new(RustType::Slice(Box::new(RustType::u8())))),
        RustType::Vec(Box::new(RustType::u8())).ref_type().unwrap()
    );
    assert_eq!(
        RustType::Ref(Box::new(RustType::Slice(Box::new(RustType::u8())))),
        RustType::Bytes.ref_type().unwrap()
    );
    assert_eq!(RustType::Ref(Box::new(msg("Ab"))), msg("Ab").ref_type().unwrap());
    assert!(matches!(
        RustType::Bool.ref_type(),
        Err(CodegenError::UnrepresentableOperation)
    ));
}

#[test]
fn elem_type_unwraps_presence_wrappers() {
    let t = RustType::Option(Box::new(RustType::Int(true, 32)));
    assert_eq!(RustType::Int(true, 32), t.elem_type().unwrap());
    let t = RustType::SingularPtrField(Box::new(msg("Ab")));
    assert_eq!(msg("Ab"), t.elem_type().unwrap());
    assert!(matches!(
        RustType::Bool.elem_type(),
        Err(CodegenError::UnrepresentableOperation)
    ));
}

#[test]
fn iter_elem_type_borrows_the_payload() {
    let t = RustType::Vec(Box::new(RustType::String));
    assert_eq!(RustType::Ref(Box::new(RustType::String)), t.iter_elem_type().unwrap());
    assert!(matches!(
        RustType::Bool.iter_elem_type(),
        Err(CodegenError::UnrepresentableOperation)
    ));
}

#[test]
fn to_code_renders_types() {
    assert_eq!("u8", RustType::u8().to_code());
    assert_eq!("i64", RustType::Int(true, 64).to_code());
    assert_eq!("f32", RustType::Float(32).to_code());
    assert_eq!("::std::vec::Vec<u8>", RustType::Vec(Box::new(RustType::u8())).to_code());
    assert_eq!(
        "::std::collections::HashMap<i32, ::std::string::String>",
        RustType::HashMap(
            Box::new(RustType::Int(true, 32)),
            Box::new(RustType::String)
        )
        .to_code()
    );
    assert_eq!("&str", RustType::Ref(Box::new(RustType::Str)).to_code());
    assert_eq!(
        "::protobuf::ProtobufEnumOrUnknown<Ab>",
        named_enum_or_unknown("Ab", "A").to_code()
    );
    assert_eq!("::std::boxed::Box<Ab>", RustType::Uniq(Box::new(msg("Ab"))).to_code());
}

#[test]
fn typed_values_convert_and_box() {
    let v = RustType::Int(true, 32).value("x".to_string());
    assert_eq!("x", v.value);
    let boxed = v.boxed();
    assert_eq!("::std::boxed::Box::new(x)", boxed.value);
    assert_eq!(RustType::Uniq(Box::new(RustType::Int(true, 32))), boxed.rust_type);

    let d = RustType::Bool.default_value_typed();
    assert_eq!("false", d.value);
    let into = d.into_type(RustType::Bool);
    assert_eq!("false", into.value);
}

#[test]
fn plain_optional_int32_end_to_end() {
    let element = rust_name(Type::TYPE_INT32).unwrap();
    assert_eq!(RustType::Int(true, 32), element);
    let stored = RustType::Option(Box::new(element));
    assert_eq!("::std::option::Option::None", stored.default_value().unwrap());
    let elem = stored.elem_type().unwrap();
    assert_eq!(RustType::Int(true, 32), elem);
    assert_eq!("v", elem.into_target(&RustType::Int(true, 32), "v"));
    assert_eq!("x = ::std::option::Option::None", stored.clear("x").unwrap());
}

#[test]
fn rust_name_maps_every_primitive_kind() {
    assert_eq!(RustType::Float(64), rust_name(Type::TYPE_DOUBLE).unwrap());
    assert_eq!(RustType::Float(32), rust_name(Type::TYPE_FLOAT).unwrap());
    assert_eq!(RustType::Int(true, 64), rust_name(Type::TYPE_INT64).unwrap());
    assert_eq!(RustType::Int(false, 32), rust_name(Type::TYPE_UINT32).unwrap());
    assert_eq!(RustType::Int(false, 64), rust_name(Type::TYPE_FIXED64).unwrap());
    assert_eq!(RustType::Int(true, 32), rust_name(Type::TYPE_SFIXED32).unwrap());
    assert_eq!(RustType::Int(true, 64), rust_name(Type::TYPE_SINT64).unwrap());
    assert_eq!(RustType::Bool, rust_name(Type::TYPE_BOOL).unwrap());
    assert_eq!(RustType::String, rust_name(Type::TYPE_STRING).unwrap());
    assert_eq!(
        RustType::Vec(Box::new(RustType::u8())),
        rust_name(Type::TYPE_BYTES).unwrap()
    );
    assert!(matches!(
        rust_name(Type::TYPE_MESSAGE),
        Err(CodegenError::UnknownPrimitiveKind)
    ));
    assert!(matches!(
        rust_name(Type::TYPE_ENUM),
        Err(CodegenError::UnknownPrimitiveKind)
    ));
    assert!(matches!(
        rust_name(Type::TYPE_GROUP),
        Err(CodegenError::UnknownPrimitiveKind)
    ));
}

#[test]
fn protobuf_names_of_kinds() {
    assert_eq!("int32", protobuf_name(Type::TYPE_INT32));
    assert_eq!("sfixed64", protobuf_name(Type::TYPE_SFIXED64));
    assert_eq!("group", protobuf_name(Type::TYPE_GROUP));
}

#[test]
fn codec_type_names() {
    assert_eq!(
        "::protobuf::types::ProtobufTypeInt32",
        ProtobufTypeGen::Primitive(Type::TYPE_INT32, PrimitiveTypeVariant::Default)
            .rust_type()
            .unwrap()
    );
    assert_eq!(
        "::protobuf::types::ProtobufTypeCarllercheBytes",
        ProtobufTypeGen::Primitive(Type::TYPE_BYTES, PrimitiveTypeVariant::Carllerche)
            .rust_type()
            .unwrap()
    );
    assert_eq!(
        "::protobuf::types::ProtobufTypeCarllercheChars",
        ProtobufTypeGen::Primitive(Type::TYPE_STRING, PrimitiveTypeVariant::Carllerche)
            .rust_type()
            .unwrap()
    );
    assert!(matches!(
        ProtobufTypeGen::Primitive(Type::TYPE_INT32, PrimitiveTypeVariant::Carllerche)
            .rust_type(),
        Err(CodegenError::UnrepresentableOperation)
    ));
    assert_eq!(
        "::protobuf::types::ProtobufTypeMessage<Ab>",
        ProtobufTypeGen::Message(RustIdentWithPath::new("Ab")).rust_type().unwrap()
    );
    assert_eq!(
        "::protobuf::types::ProtobufTypeEnum<Ab>",
        ProtobufTypeGen::Enum(RustIdentWithPath::new("Ab")).rust_type().unwrap()
    );
    assert_eq!(
        "::protobuf::types::ProtobufTypeEnumOrUnknown<Ab>",
        ProtobufTypeGen::EnumOrUnknown(RustIdentWithPath::new("Ab")).rust_type().unwrap()
    );
}

#[test]
fn capitalize_uppercases_the_first_letter() {
    assert_eq!("Int32", capitalize("int32"));
    assert_eq!("Bool", capitalize("bool"));
    assert_eq!("X", capitalize("x"));
    assert_eq!("", capitalize(""));
    assert_eq!("9a", capitalize("9a"));
}

#[test]
fn classification_of_types() {
    assert!(RustType::Int(false, 16).is_primitive());
    assert!(!RustType::String.is_primitive());
    assert!(RustType::u8().is_u8());
    assert!(!RustType::Int(true, 8).is_u8());
    assert!(RustType::Bool.is_copy());
    assert!(named_enum("Ab", "A").is_copy());
    assert!(named_enum_or_unknown("Ab", "A").is_copy());
    assert!(!RustType::String.is_copy());
    assert!(RustType::Ref(Box::new(RustType::Bool)).is_ref().is_some());
    assert!(RustType::Bool.is_ref().is_none());
    assert!(RustType::Uniq(Box::new(RustType::Bool)).is_box().is_some());
    assert!(RustType::Bool.is_box().is_none());
}
