use protobuf_codegen::ident::RustIdent;
use protobuf_codegen::ident::RustIdentWithPath;
use protobuf_codegen::ident::RustPath;
use protobuf_codegen::naming::FileAndMod;
use protobuf_codegen::naming::FileInfo;
use protobuf_codegen::naming::MessageOrEnum;
use protobuf_codegen::naming::ProtobufAbsolutePath;
use protobuf_codegen::naming::RootScope;
use protobuf_codegen::naming::file_last_component;
use protobuf_codegen::naming::is_descriptor_proto;
use protobuf_codegen::naming::is_well_known_type_full;
use protobuf_codegen::naming::message_or_enum_to_rust_relative;
use protobuf_codegen::naming::type_name_to_rust_relative;
use protobuf_codegen::resolver::make_path_to_path;
use protobuf_codegen::strutil::str_eq;

fn path(absolute: bool, segments: &[&str]) -> RustPath {
    let mut segs: Vec<RustIdent> = Vec::new();
    for s in segments {
        segs.push(RustIdent::new(s));
    }
    RustPath { absolute, segments: segs }
}

fn segment_names(p: &RustPath) -> Vec<String> {
    p.segments.iter().map(|i| i.name.clone()).collect()
}

fn entity(
    file_name: &str,
    file_package: &str,
    name_absolute: &str,
    to_file: RustIdentWithPath,
    with_file: RustIdentWithPath,
) -> MessageOrEnum {
    MessageOrEnum {
        file: FileInfo {
            name: file_name.to_string(),
            package: file_package.to_string(),
        },
        name_absolute: name_absolute.to_string(),
        rust_name_to_file: to_file,
        rust_name_with_file: with_file,
    }
}

fn qualified(segments: &[&str], ident: &str) -> RustIdentWithPath {
    RustIdentWithPath { path: path(false, segments), ident: RustIdent::new(ident) }
}

#[test]
fn test_file_last_component() {
    assert_eq!("ab.proto", file_last_component("ab.proto"));
    assert_eq!("ab.proto", file_last_component("xx/ab.proto"));
    assert_eq!("ab.proto", file_last_component("xx\\ab.proto"));
    assert_eq!("ab.proto", file_last_component("yy\\xx\\ab.proto"));
}

#[test]
fn shortest_path_to_self_is_empty() {
    let p = path(false, &["a", "b"]);
    let q = path(false, &["a", "b"]);
    let r = make_path_to_path(&p, &q);
    assert!(!r.absolute);
    assert!(r.segments.is_empty());
}

#[test]
fn shortest_path_escapes_and_descends() {
    let from = path(false, &["a", "b", "c"]);
    let to = path(false, &["a", "x"]);
    let r = make_path_to_path(&from, &to);
    assert!(!r.absolute);
    assert_eq!(vec!["super", "super", "x"], segment_names(&r));
}

#[test]
fn shortest_path_keeps_absolute_destination() {
    let from = path(false, &["a", "b"]);
    let to = path(true, &["x", "y"]);
    let r = make_path_to_path(&from, &to);
    assert!(r.absolute);
    assert_eq!(vec!["x", "y"], segment_names(&r));
}

#[test]
fn shortest_path_from_root_is_the_destination() {
    let from = path(false, &[]);
    let to = path(false, &["m", "n"]);
    let r = make_path_to_path(&from, &to);
    assert!(!r.absolute);
    assert_eq!(vec!["m", "n"], segment_names(&r));
}

#[test]
fn well_known_type_names() {
    assert_eq!(
        Some("Timestamp".to_string()),
        is_well_known_type_full(".google.protobuf.Timestamp")
    );
    assert_eq!(
        Some("Duration".to_string()),
        is_well_known_type_full(".google.protobuf.Duration")
    );
    assert_eq!(None, is_well_known_type_full(".google.protobuf.Nothing"));
    assert_eq!(None, is_well_known_type_full(".foo.Bar"));
    assert_eq!(None, is_well_known_type_full(""));
}

#[test]
fn descriptor_proto_detection() {
    let f = FileInfo {
        name: "google/protobuf/descriptor.proto".to_string(),
        package: "google.protobuf".to_string(),
    };
    assert!(is_descriptor_proto(&f));
    let f = FileInfo {
        name: "descriptor.proto".to_string(),
        package: "google.protobuf".to_string(),
    };
    assert!(is_descriptor_proto(&f));
    let f = FileInfo {
        name: "descriptor.proto".to_string(),
        package: "other".to_string(),
    };
    assert!(!is_descriptor_proto(&f));
    let f = FileInfo {
        name: "x/other.proto".to_string(),
        package: "google.protobuf".to_string(),
    };
    assert!(!is_descriptor_proto(&f));
}

#[test]
fn reference_in_same_unit_uses_relative_path() {
    let e = entity(
        "foo.proto",
        "foo",
        ".foo.Outer.Inner",
        qualified(&["outer"], "Inner"),
        qualified(&["foo", "outer"], "Inner"),
    );
    let current = FileAndMod {
        file: "foo.proto".to_string(),
        relative_mod: path(false, &["somewhere"]),
    };
    let r = message_or_enum_to_rust_relative(&e, &current);
    assert!(!r.path.absolute);
    assert_eq!(vec!["super", "outer"], segment_names(&r.path));
    assert_eq!("Inner", r.ident.name);
}

#[test]
fn reference_prefers_same_unit_over_well_known() {
    let e = entity(
        "foo.proto",
        "google.protobuf",
        ".google.protobuf.Timestamp",
        qualified(&[], "Timestamp"),
        qualified(&["foo"], "Timestamp"),
    );
    let current = FileAndMod {
        file: "foo.proto".to_string(),
        relative_mod: path(false, &[]),
    };
    let r = message_or_enum_to_rust_relative(&e, &current);
    assert!(!r.path.absolute);
    assert!(r.path.segments.is_empty());
    assert_eq!("Timestamp", r.ident.name);
}

#[test]
fn reference_to_well_known_type() {
    let e = entity(
        "google/protobuf/timestamp.proto",
        "google.protobuf",
        ".google.protobuf.Timestamp",
        qualified(&[], "Timestamp"),
        qualified(&["timestamp"], "Timestamp"),
    );
    let current = FileAndMod {
        file: "foo.proto".to_string(),
        relative_mod: path(false, &[]),
    };
    let r = message_or_enum_to_rust_relative(&e, &current);
    assert!(r.path.absolute);
    assert_eq!(vec!["protobuf", "well_known_types"], segment_names(&r.path));
    assert_eq!("Timestamp", r.ident.name);
}

#[test]
fn reference_to_bootstrap_schema_type() {
    let e = entity(
        "google/protobuf/descriptor.proto",
        "google.protobuf",
        ".google.protobuf.FieldDescriptorProto",
        qualified(&[], "FieldDescriptorProto"),
        qualified(&["descriptor"], "FieldDescriptorProto"),
    );
    let current = FileAndMod {
        file: "foo.proto".to_string(),
        relative_mod: path(false, &[]),
    };
    let r = message_or_enum_to_rust_relative(&e, &current);
    assert!(r.path.absolute);
    assert_eq!(vec!["protobuf", "descriptor"], segment_names(&r.path));
    assert_eq!("FieldDescriptorProto", r.ident.name);
}

#[test]
fn reference_to_sibling_unit_escapes_to_common_ancestor() {
    let e = entity(
        "bar.proto",
        "bar",
        ".bar.M",
        qualified(&[], "M"),
        qualified(&["bar"], "M"),
    );
    let current = FileAndMod {
        file: "foo.proto".to_string(),
        relative_mod: path(false, &["a", "b"]),
    };
    let r = message_or_enum_to_rust_relative(&e, &current);
    assert!(!r.path.absolute);
    assert_eq!(vec!["super", "super", "super", "bar"], segment_names(&r.path));
    assert_eq!("M", r.ident.name);
}

#[test]
fn resolve_type_name_through_the_registry() {
    let scope = RootScope {
        entities: vec![
            entity(
                "bar.proto",
                "bar",
                ".bar.M",
                qualified(&[], "M"),
                qualified(&["bar"], "M"),
            ),
            entity(
                "foo.proto",
                "foo",
                ".foo.N",
                qualified(&[], "N"),
                qualified(&["foo"], "N"),
            ),
        ],
    };
    let current = FileAndMod {
        file: "foo.proto".to_string(),
        relative_mod: path(false, &[]),
    };
    let name = ProtobufAbsolutePath { path: ".foo.N".to_string() };
    let r = type_name_to_rust_relative(&name, &current, &scope);
    assert!(!r.path.absolute);
    assert!(r.path.segments.is_empty());
    assert_eq!("N", r.ident.name);
}

#[test]
fn qualified_identifier_renders_as_code() {
    let q = RustIdentWithPath { path: path(true, &["protobuf", "descriptor"]), ident: RustIdent::new("Ab") };
    assert_eq!("::protobuf::descriptor::Ab", q.to_code());
    let q = RustIdentWithPath { path: path(false, &["super", "x"]), ident: RustIdent::new("Y") };
    assert_eq!("super::x::Y", q.to_code());
    let q = RustIdentWithPath::new("Ab");
    assert_eq!("Ab", q.to_code());
}

#[test]
fn string_equality_by_characters() {
    assert!(str_eq("abc", "abc"));
    assert!(!str_eq("abc", "abd"));
    assert!(!str_eq("abc", "ab"));
    assert!(str_eq("", ""));
}
