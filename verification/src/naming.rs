//! Cross-unit type naming: given a schema message or enum and the
//! compiling unit's context, decide the qualified name to emit for it —
//! a same-unit sibling, a well-known library type, a bootstrap
//! self-describing schema type, or a type of a sibling compilation unit
//! reached by relative path.

use vstd::prelude::*;
use vstd::string::StrSliceExecFns;
use vstd::string::StringExecFns;
use crate::ident::PathView;
use crate::ident::RustIdent;
use crate::ident::RustIdentWithPath;
use crate::ident::RustPath;
use crate::ident::SymView;
use crate::resolver::make_path;
use crate::resolver::shortest_path_spec;
use crate::strutil::str_eq;

verus! {

broadcast use vstd::seq::Seq::lemma_push_map_commute;

/// What the naming decision reads of a schema file: its name and its
/// package.
#[derive(Debug)]
pub struct FileInfo {
    pub name: String,
    pub package: String,
}

/// Mathematical view of a schema file's identity.
pub struct FileInfoV {
    pub name: Seq<char>,
    pub package: Seq<char>,
}

impl View for FileInfo {
    type V = FileInfoV;

    open spec fn view(&self) -> FileInfoV {
        FileInfoV { name: self.name@, package: self.package@ }
    }
}

/// The compiling unit's position: the current file and the current
/// module path within that file, against which relative references are
/// computed.
#[derive(Debug)]
pub struct FileAndMod {
    pub file: String,
    pub relative_mod: RustPath,
}

/// Mathematical view of a compiling unit's position.
pub struct FileAndModV {
    pub file: Seq<char>,
    pub relative_mod: PathView,
}

impl View for FileAndMod {
    type V = FileAndModV;

    open spec fn view(&self) -> FileAndModV {
        FileAndModV { file: self.file@, relative_mod: self.relative_mod@ }
    }
}

/// What the naming decision reads of a schema message or enum: the
/// declaring file's identity, the fully-qualified schema name (with its
/// leading dot), and the generated names relative to the file — without
/// and with the file's own module segment.
#[derive(Debug)]
pub struct MessageOrEnum {
    pub file: FileInfo,
    pub name_absolute: String,
    pub rust_name_to_file: RustIdentWithPath,
    pub rust_name_with_file: RustIdentWithPath,
}

/// Mathematical view of a schema message or enum.
pub struct MessageOrEnumV {
    pub file: FileInfoV,
    pub name_absolute: Seq<char>,
    pub rust_name_to_file: SymView,
    pub rust_name_with_file: SymView,
}

impl View for MessageOrEnum {
    type V = MessageOrEnumV;

    open spec fn view(&self) -> MessageOrEnumV {
        MessageOrEnumV {
            file: self.file@,
            name_absolute: self.name_absolute@,
            rust_name_to_file: self.rust_name_to_file@,
            rust_name_with_file: self.rust_name_with_file@,
        }
    }
}

/// Position of the first character after the last path separator.
pub open spec fn split_pos(s: Seq<char>) -> int
    decreases s.len(),
{
    if s.len() == 0 {
        0
    } else if s.last() == '/' || s.last() == '\\' {
        s.len() as int
    } else {
        split_pos(s.drop_last())
    }
}

/// The final path component of a file name, after the last slash or
/// backslash.
pub open spec fn last_component(s: Seq<char>) -> Seq<char> {
    s.skip(split_pos(s))
}

proof fn lemma_split_pos_at(s: Seq<char>, i: int)
    requires
        0 <= i <= s.len(),
        forall|j: int| i <= j < s.len() ==> (s[j] != '/' && s[j] != '\\'),
        i > 0 ==> (s[i - 1] == '/' || s[i - 1] == '\\'),
    ensures
        split_pos(s) == i,
    decreases s.len(),
{
    if s.len() == 0 {
    } else if s.last() == '/' || s.last() == '\\' {
        assert(i == s.len());
    } else {
        assert(i < s.len());
        lemma_split_pos_at(s.drop_last(), i);
    }
}

/// The final path component of a file name.
pub fn file_last_component(file: &str) -> (r: &str)
    ensures
        r@ == last_component(file@),
{
    let n = file.unicode_len();
    let mut i: usize = n;
    while i > 0
        invariant
            i <= n,
            n == file@.len(),
            forall|j: int| i <= j < n ==> (file@[j] != '/' && file@[j] != '\\'),
        decreases i,
    {
        let c = file.get_char(i - 1);
        if c == '/' || c == '\\' {
            proof {
                lemma_split_pos_at(file@, i as int);
            }
            let r = file.substring_char(i, n);
            proof {
                assert(r@ =~= last_component(file@));
            }
            return r;
        }
        i -= 1;
    }
    proof {
        lemma_split_pos_at(file@, 0);
    }
    let r = file.substring_char(0, n);
    proof {
        assert(r@ =~= last_component(file@));
    }
    r
}

/// Is this file the bootstrap self-describing schema unit? Identified by
/// its fixed package name and its file's final path component alone; the
/// directory prefix is irrelevant.
pub open spec fn is_descriptor_proto_spec(f: FileInfoV) -> bool {
    f.package == "google.protobuf"@ && last_component(f.name) == "descriptor.proto"@
}

pub fn is_descriptor_proto(file: &FileInfo) -> (r: bool)
    ensures
        r == is_descriptor_proto_spec(file@),
{
    if !str_eq(file.package.as_str(), "google.protobuf") {
        return false;
    }
    str_eq(file_last_component(file.name.as_str()), "descriptor.proto")
}

/// The names of the well-known types shipped with the runtime library.
pub open spec fn well_known_names() -> Seq<Seq<char>> {
    seq![
        "Any"@, "Api"@, "BoolValue"@, "BytesValue"@, "DoubleValue"@, "Duration"@,
        "Empty"@, "Enum"@, "EnumValue"@, "Field"@, "FieldMask"@, "FloatValue"@,
        "Int32Value"@, "Int64Value"@, "ListValue"@, "Method"@, "Mixin"@, "NullValue"@,
        "Option"@, "SourceContext"@, "StringValue"@, "Struct"@, "Timestamp"@, "Type"@,
        "UInt32Value"@, "UInt64Value"@, "Value"@,
    ]
}

/// The fixed schema package prefix of the well-known types.
pub open spec fn well_known_prefix() -> Seq<char> {
    ".google.protobuf."@
}

/// The well-known type's bare name, where the fully-qualified schema
/// name denotes one.
pub open spec fn well_known_spec(name: Seq<char>) -> Option<Seq<char>> {
    if name.len() >= well_known_prefix().len() && name.take(well_known_prefix().len() as int)
        == well_known_prefix() && well_known_names().contains(
        name.skip(well_known_prefix().len() as int),
    ) {
        Some(name.skip(well_known_prefix().len() as int))
    } else {
        None
    }
}

fn well_known_name(i: usize) -> (r: &'static str)
    requires
        i < 27,
    ensures
        r@ == well_known_names()[i as int],
{
    let r: &'static str = if i == 0 { "Any" } else if i == 1 { "Api" }
    else if i == 2 { "BoolValue" } else if i == 3 { "BytesValue" }
    else if i == 4 { "DoubleValue" } else if i == 5 { "Duration" }
    else if i == 6 { "Empty" } else if i == 7 { "Enum" }
    else if i == 8 { "EnumValue" } else if i == 9 { "Field" }
    else if i == 10 { "FieldMask" } else if i == 11 { "FloatValue" }
    else if i == 12 { "Int32Value" } else if i == 13 { "Int64Value" }
    else if i == 14 { "ListValue" } else if i == 15 { "Method" }
    else if i == 16 { "Mixin" } else if i == 17 { "NullValue" }
    else if i == 18 { "Option" } else if i == 19 { "SourceContext" }
    else if i == 20 { "StringValue" } else if i == 21 { "Struct" }
    else if i == 22 { "Timestamp" } else if i == 23 { "Type" }
    else if i == 24 { "UInt32Value" } else if i == 25 { "UInt64Value" }
    else { "Value" };
    r
}

/// The bare library name of a well-known type, given a fully-qualified
/// schema name; none for any other name.
pub fn is_well_known_type_full(name: &str) -> (r: Option<String>)
    ensures
        (match r {
            Some(s) => well_known_spec(name@) == Some(s@),
            None => well_known_spec(name@) is None,
        }),
{
    let n = name.unicode_len();
    if n < 17 {
        proof {
            reveal_strlit(".google.protobuf.");
        }
        return None;
    }
    proof {
        reveal_strlit(".google.protobuf.");
    }
    let head = name.substring_char(0, 17);
    if !str_eq(head, ".google.protobuf.") {
        return None;
    }
    let tail = name.substring_char(17, n);
    proof {
        assert(tail@ =~= name@.skip(17));
    }
    proof {
        assert(name@.take(17) =~= name@.subrange(0, 17));
    }
    let mut i: usize = 0;
    while i < 27
        invariant
            i <= 27,
            name@.len() >= 17,
            well_known_prefix().len() == 17,
            name@.take(17) == well_known_prefix(),
            tail@ == name@.skip(17),
            forall|j: int| 0 <= j < i ==> well_known_names()[j] != tail@,
        decreases 27 - i,
    {
        if str_eq(tail, well_known_name(i)) {
            proof {
                assert(well_known_names()[i as int] == tail@);
                assert(well_known_names().contains(name@.skip(17)));
            }
            return Some(String::from_str(tail));
        }
        i += 1;
    }
    proof {
        assert(forall|j: int| 0 <= j < 27 ==> well_known_names()[j] != name@.skip(17));
        assert(!well_known_names().contains(name@.skip(17)));
    }
    None
}

/// The qualified name to emit for a schema message or enum, seen from
/// the compiling context. The rules are tried in order and the first
/// match wins: a type of the same unit is referenced by shortest
/// relative path; a well-known type by its fixed library symbol; a type
/// of the bootstrap self-describing schema by its fixed bootstrap root;
/// any other type by reversing the context's module position, escaping
/// one extra parent scope, and descending into the sibling unit.
pub open spec fn reference_spec(e: MessageOrEnumV, cur: FileAndModV) -> SymView {
    if e.file.name == cur.file {
        SymView {
            path: shortest_path_spec(cur.relative_mod, e.rust_name_to_file.path),
            ident: e.rust_name_to_file.ident,
        }
    } else if well_known_spec(e.name_absolute) is Some {
        SymView {
            path: PathView {
                absolute: true,
                segments: seq!["protobuf"@, "well_known_types"@],
            },
            ident: well_known_spec(e.name_absolute)->0,
        }
    } else if is_descriptor_proto_spec(e.file) {
        SymView {
            path: PathView {
                absolute: true,
                segments: seq!["protobuf"@, "descriptor"@] + e.rust_name_to_file.path.segments,
            },
            ident: e.rust_name_to_file.ident,
        }
    } else {
        SymView {
            path: PathView {
                absolute: false,
                segments: Seq::new(cur.relative_mod.segments.len(), |i: int| "super"@).push(
                    "super"@,
                ) + e.rust_name_with_file.path.segments,
            },
            ident: e.rust_name_with_file.ident,
        }
    }
}

/// Decide the qualified name to emit for `message_or_enum` from the
/// position `current`.
pub fn message_or_enum_to_rust_relative(
    message_or_enum: &MessageOrEnum,
    current: &FileAndMod,
) -> (r: RustIdentWithPath)
    requires
        !current@.relative_mod.absolute,
        !message_or_enum@.rust_name_to_file.path.absolute,
    ensures
        r@ == reference_spec(message_or_enum@, current@),
{
    let same_file = str_eq(
        message_or_enum.file.name.as_str(),
        current.file.as_str(),
    );
    if same_file {
        return make_path(&current.relative_mod, &message_or_enum.rust_name_to_file);
    }
    let well_known = is_well_known_type_full(message_or_enum.name_absolute.as_str());
    if let Some(name) = well_known {
        let mut segments: Vec<RustIdent> = Vec::new();
        segments.push(RustIdent::new("protobuf"));
        segments.push(RustIdent::new("well_known_types"));
        let path = RustPath { absolute: true, segments };
        let r = path.with_ident(RustIdent { name });
        proof {
            assert(r@.path.segments =~= seq!["protobuf"@, "well_known_types"@]);
            assert(r@ =~= reference_spec(message_or_enum@, current@));
        }
        return r;
    }
    if is_descriptor_proto(&message_or_enum.file) {
        let mut segments: Vec<RustIdent> = Vec::new();
        segments.push(RustIdent::new("protobuf"));
        segments.push(RustIdent::new("descriptor"));
        let head = RustPath { absolute: true, segments };
        proof {
            assert(head@.segments =~= seq!["protobuf"@, "descriptor"@]);
        }
        let path = head.append(message_or_enum.rust_name_to_file.path.clone());
        let r = path.with_ident(message_or_enum.rust_name_to_file.ident.clone());
        proof {
            assert(r@ =~= reference_spec(message_or_enum@, current@));
        }
        return r;
    }
    let r = current.relative_mod.to_reverse().append_ident(RustIdent::super_ident())
        .append_with_ident(message_or_enum.rust_name_with_file.clone());
    proof {
        assert(r@.path.segments =~= reference_spec(message_or_enum@, current@).path.segments);
        assert(r@ =~= reference_spec(message_or_enum@, current@));
    }
    r
}

/// Naming precedence: a type declared in the compiling unit itself is
/// referenced by the same-unit rule, also where its fully-qualified name
/// stands in the well-known table.
pub proof fn lemma_same_unit_beats_well_known(e: MessageOrEnumV, cur: FileAndModV)
    requires
        e.file.name == cur.file,
        well_known_spec(e.name_absolute) is Some,
    ensures
        reference_spec(e, cur) == (SymView {
            path: shortest_path_spec(cur.relative_mod, e.rust_name_to_file.path),
            ident: e.rust_name_to_file.ident,
        }),
{
}

/// An absolute schema type name, with its leading dot.
#[derive(Debug)]
pub struct ProtobufAbsolutePath {
    pub path: String,
}

impl View for ProtobufAbsolutePath {
    type V = Seq<char>;

    open spec fn view(&self) -> Seq<char> {
        self.path@
    }
}

impl ProtobufAbsolutePath {
    pub fn is_empty(&self) -> (r: bool)
        ensures
            r == (self@.len() == 0),
    {
        self.path.as_str().unicode_len() == 0
    }
}

/// Index of the first entity carrying a given fully-qualified name.
pub open spec fn find_index(s: Seq<MessageOrEnumV>, name: Seq<char>) -> int
    decreases s.len(),
{
    if s.len() == 0 {
        0
    } else if s[0].name_absolute == name {
        0
    } else {
        1 + find_index(s.drop_first(), name)
    }
}

proof fn lemma_find_index_at(s: Seq<MessageOrEnumV>, name: Seq<char>, i: int)
    requires
        0 <= i <= s.len(),
        forall|j: int| 0 <= j < i ==> s[j].name_absolute != name,
        i < s.len() ==> s[i].name_absolute == name,
    ensures
        find_index(s, name) == i,
    decreases i,
{
    if i == 0 {
    } else {
        lemma_find_index_at(s.drop_first(), name, i - 1);
    }
}

/// The registry of all declared messages and enums, indexed by
/// fully-qualified schema name.
#[derive(Debug)]
pub struct RootScope {
    pub entities: Vec<MessageOrEnum>,
}

impl View for RootScope {
    type V = Seq<MessageOrEnumV>;

    open spec fn view(&self) -> Seq<MessageOrEnumV> {
        self.entities@.map_values(|e: MessageOrEnum| e@)
    }
}

/// Does the registry hold an entity of this fully-qualified name?
pub open spec fn scope_contains(s: Seq<MessageOrEnumV>, name: Seq<char>) -> bool {
    exists|i: int| 0 <= i < s.len() && s[i].name_absolute == name
}

impl RootScope {
    /// Look a declared message or enum up by its fully-qualified name;
    /// callers ask only for names the registry holds.
    pub fn find_message_or_enum(&self, name: &ProtobufAbsolutePath) -> (r: &MessageOrEnum)
        requires
            scope_contains(self@, name@),
        ensures
            r@ == self@[find_index(self@, name@)],
            r@.name_absolute == name@,
    {
        let n = self.entities.len();
        let mut i: usize = 0;
        while i < n
            invariant
                i <= n,
                n == self.entities@.len(),
                scope_contains(self@, name@),
                forall|j: int| 0 <= j < i ==> self@[j].name_absolute != name@,
            decreases n - i,
        {
            if str_eq(self.entities[i].name_absolute.as_str(), name.path.as_str()) {
                proof {
                    assert(self@[i as int] == self.entities@[i as int]@);
                    lemma_find_index_at(self@, name@, i as int);
                }
                return &self.entities[i];
            }
            proof {
                assert(self@[i as int] == self.entities@[i as int]@);
            }
            i += 1;
        }
        proof {
            assert(false);
        }
        &self.entities[0]
    }
}

/// Resolve a fully-qualified schema type name to the qualified name to
/// emit, looking the entity up in the registry.
pub fn type_name_to_rust_relative(
    name: &ProtobufAbsolutePath,
    current: &FileAndMod,
    root_scope: &RootScope,
) -> (r: RustIdentWithPath)
    requires
        name@.len() > 0,
        scope_contains(root_scope@, name@),
        !current@.relative_mod.absolute,
        !root_scope@[find_index(root_scope@, name@)].rust_name_to_file.path.absolute,
    ensures
        r@ == reference_spec(root_scope@[find_index(root_scope@, name@)], current@),
{
    let message_or_enum = root_scope.find_message_or_enum(name);
    message_or_enum_to_rust_relative(message_or_enum, current)
}

} // verus!
