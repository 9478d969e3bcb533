//! The closed algebra of target-language types used in generated code,
//! and the value-level operations on a single type: classification,
//! default value, clear statement, derived view types.

use vstd::prelude::*;
use vstd::string::StringExecFns;
use crate::ident::RustIdentWithPath;
use crate::ident::SymView;
use crate::ident::sym_code;

verus! {

/// Mathematical view of a target-language type: the same closed,
/// recursive tagged union, with identifiers as character sequences.
pub enum RustTypeV {
    Int(bool, u32),
    Float(u32),
    Bool,
    Vec(Box<RustTypeV>),
    HashMap(Box<RustTypeV>, Box<RustTypeV>),
    String,
    Slice(Box<RustTypeV>),
    Str,
    Option(Box<RustTypeV>),
    SingularField(Box<RustTypeV>),
    SingularPtrField(Box<RustTypeV>),
    RepeatedField(Box<RustTypeV>),
    Uniq(Box<RustTypeV>),
    Ref(Box<RustTypeV>),
    Message(SymView),
    Enum(SymView, Seq<char>),
    EnumOrUnknown(SymView, Seq<char>),
    Oneof(SymView),
    Bytes,
    Chars,
    Group,
}

/// The subset of target-language types used in generated code.
///
/// Integer widths are in bits (8, 16, 32 or 64); the flag of `Int` tells
/// whether the integer is signed. `Slice` and `Str` are the unsized
/// views; `Ref` is a borrowing reference; `Uniq` is exclusive heap
/// ownership. `Message`, `Enum`, `EnumOrUnknown` and `Oneof` are schema
/// types referenced by qualified name; `Enum` and `EnumOrUnknown` carry
/// the enum's declared default variant.
#[derive(Debug)]
pub enum RustType {
    Int(bool, u32),
    Float(u32),
    Bool,
    Vec(Box<RustType>),
    HashMap(Box<RustType>, Box<RustType>),
    String,
    Slice(Box<RustType>),
    Str,
    Option(Box<RustType>),
    SingularField(Box<RustType>),
    SingularPtrField(Box<RustType>),
    RepeatedField(Box<RustType>),
    Uniq(Box<RustType>),
    Ref(Box<RustType>),
    Message(RustIdentWithPath),
    Enum(RustIdentWithPath, crate::ident::RustIdent),
    EnumOrUnknown(RustIdentWithPath, crate::ident::RustIdent),
    Oneof(RustIdentWithPath),
    Bytes,
    Chars,
    Group,
}

pub open spec fn rt_view(t: RustType) -> RustTypeV
    decreases t,
{
    match t {
        RustType::Int(s, w) => RustTypeV::Int(s, w),
        RustType::Float(w) => RustTypeV::Float(w),
        RustType::Bool => RustTypeV::Bool,
        RustType::Vec(p) => RustTypeV::Vec(Box::new(rt_view(*p))),
        RustType::HashMap(k, v) => RustTypeV::HashMap(
            Box::new(rt_view(*k)),
            Box::new(rt_view(*v)),
        ),
        RustType::String => RustTypeV::String,
        RustType::Slice(p) => RustTypeV::Slice(Box::new(rt_view(*p))),
        RustType::Str => RustTypeV::Str,
        RustType::Option(p) => RustTypeV::Option(Box::new(rt_view(*p))),
        RustType::SingularField(p) => RustTypeV::SingularField(Box::new(rt_view(*p))),
        RustType::SingularPtrField(p) => RustTypeV::SingularPtrField(Box::new(rt_view(*p))),
        RustType::RepeatedField(p) => RustTypeV::RepeatedField(Box::new(rt_view(*p))),
        RustType::Uniq(p) => RustTypeV::Uniq(Box::new(rt_view(*p))),
        RustType::Ref(p) => RustTypeV::Ref(Box::new(rt_view(*p))),
        RustType::Message(n) => RustTypeV::Message(n@),
        RustType::Enum(n, d) => RustTypeV::Enum(n@, d@),
        RustType::EnumOrUnknown(n, d) => RustTypeV::EnumOrUnknown(n@, d@),
        RustType::Oneof(n) => RustTypeV::Oneof(n@),
        RustType::Bytes => RustTypeV::Bytes,
        RustType::Chars => RustTypeV::Chars,
        RustType::Group => RustTypeV::Group,
    }
}

impl View for RustType {
    type V = RustTypeV;

    open spec fn view(&self) -> RustTypeV {
        rt_view(*self)
    }
}

/// Well-formedness: every integer width is 8, 16, 32 or 64 bits and
/// every float width 32 or 64, through the whole structure.
pub open spec fn rt_wf(t: RustTypeV) -> bool
    decreases t,
{
    match t {
        RustTypeV::Int(_, w) => w == 8 || w == 16 || w == 32 || w == 64,
        RustTypeV::Float(w) => w == 32 || w == 64,
        RustTypeV::Vec(p) => rt_wf(*p),
        RustTypeV::HashMap(k, v) => rt_wf(*k) && rt_wf(*v),
        RustTypeV::Slice(p) => rt_wf(*p),
        RustTypeV::Option(p) => rt_wf(*p),
        RustTypeV::SingularField(p) => rt_wf(*p),
        RustTypeV::SingularPtrField(p) => rt_wf(*p),
        RustTypeV::RepeatedField(p) => rt_wf(*p),
        RustTypeV::Uniq(p) => rt_wf(*p),
        RustTypeV::Ref(p) => rt_wf(*p),
        _ => true,
    }
}

impl RustType {
    /// Structural equality of two types, compared through their views.
    pub fn eq_type(&self, other: &RustType) -> (r: bool)
        ensures
            r == (self@ == other@),
        decreases self,
    {
        match (self, other) {
            (RustType::Int(s1, w1), RustType::Int(s2, w2)) => s1 == s2 && w1 == w2,
            (RustType::Float(w1), RustType::Float(w2)) => w1 == w2,
            (RustType::Bool, RustType::Bool) => true,
            (RustType::Vec(a), RustType::Vec(b)) => a.eq_type(b),
            (RustType::HashMap(k1, v1), RustType::HashMap(k2, v2)) => {
                k1.eq_type(k2) && v1.eq_type(v2)
            },
            (RustType::String, RustType::String) => true,
            (RustType::Slice(a), RustType::Slice(b)) => a.eq_type(b),
            (RustType::Str, RustType::Str) => true,
            (RustType::Option(a), RustType::Option(b)) => a.eq_type(b),
            (RustType::SingularField(a), RustType::SingularField(b)) => a.eq_type(b),
            (RustType::SingularPtrField(a), RustType::SingularPtrField(b)) => a.eq_type(b),
            (RustType::RepeatedField(a), RustType::RepeatedField(b)) => a.eq_type(b),
            (RustType::Uniq(a), RustType::Uniq(b)) => a.eq_type(b),
            (RustType::Ref(a), RustType::Ref(b)) => a.eq_type(b),
            (RustType::Message(a), RustType::Message(b)) => a == b,
            (RustType::Enum(a, d1), RustType::Enum(b, d2)) => a == b && d1 == d2,
            (RustType::EnumOrUnknown(a, d1), RustType::EnumOrUnknown(b, d2)) => {
                a == b && d1 == d2
            },
            (RustType::Oneof(a), RustType::Oneof(b)) => a == b,
            (RustType::Bytes, RustType::Bytes) => true,
            (RustType::Chars, RustType::Chars) => true,
            (RustType::Group, RustType::Group) => true,
            _ => false,
        }
    }

    /// Rebuild an identical type.
    pub fn clone_type(&self) -> (r: RustType)
        ensures
            r@ == self@,
        decreases self,
    {
        match self {
            RustType::Int(s, w) => RustType::Int(*s, *w),
            RustType::Float(w) => RustType::Float(*w),
            RustType::Bool => RustType::Bool,
            RustType::Vec(p) => RustType::Vec(Box::new(p.clone_type())),
            RustType::HashMap(k, v) => RustType::HashMap(
                Box::new(k.clone_type()),
                Box::new(v.clone_type()),
            ),
            RustType::String => RustType::String,
            RustType::Slice(p) => RustType::Slice(Box::new(p.clone_type())),
            RustType::Str => RustType::Str,
            RustType::Option(p) => RustType::Option(Box::new(p.clone_type())),
            RustType::SingularField(p) => RustType::SingularField(Box::new(p.clone_type())),
            RustType::SingularPtrField(p) => RustType::SingularPtrField(
                Box::new(p.clone_type()),
            ),
            RustType::RepeatedField(p) => RustType::RepeatedField(Box::new(p.clone_type())),
            RustType::Uniq(p) => RustType::Uniq(Box::new(p.clone_type())),
            RustType::Ref(p) => RustType::Ref(Box::new(p.clone_type())),
            RustType::Message(n) => RustType::Message(n.clone()),
            RustType::Enum(n, d) => RustType::Enum(n.clone(), d.clone()),
            RustType::EnumOrUnknown(n, d) => RustType::EnumOrUnknown(n.clone(), d.clone()),
            RustType::Oneof(n) => RustType::Oneof(n.clone()),
            RustType::Bytes => RustType::Bytes,
            RustType::Chars => RustType::Chars,
            RustType::Group => RustType::Group,
        }
    }
}

impl Clone for RustType {
    fn clone(&self) -> (r: Self)
        ensures
            r@ == self@,
    {
        self.clone_type()
    }
}

impl PartialEq for RustType {
    fn eq(&self, other: &Self) -> (r: bool) {
        self.eq_type(other)
    }
}

impl vstd::std_specs::cmp::PartialEqSpecImpl for RustType {
    open spec fn obeys_eq_spec() -> bool {
        true
    }

    open spec fn eq_spec(&self, other: &Self) -> bool {
        self@ == other@
    }
}

impl RustType {
    /// The unsigned byte type.
    pub fn u8() -> (r: RustType)
        ensures
            r@ == RustTypeV::Int(false, 8),
    {
        RustType::Int(false, 8)
    }

    /// Is this one of the primitive types (integer, float, bool)?
    pub fn is_primitive(&self) -> (r: bool)
        ensures
            r == (self@ is Int || self@ is Float || self@ is Bool),
    {
        match *self {
            RustType::Int(..) | RustType::Float(..) | RustType::Bool => true,
            _ => false,
        }
    }

    pub fn is_u8(&self) -> (r: bool)
        ensures
            r == (self@ == RustTypeV::Int(false, 8)),
    {
        match *self {
            RustType::Int(false, 8) => true,
            _ => false,
        }
    }

    /// Copy types: primitives and the two enum representations are
    /// bitwise-duplicable without aliasing concerns.
    pub fn is_copy(&self) -> (r: bool)
        ensures
            r == (self@ is Int || self@ is Float || self@ is Bool || self@ is Enum
                || self@ is EnumOrUnknown),
    {
        if self.is_primitive() {
            true
        } else if let RustType::Enum(..) = *self {
            true
        } else if let RustType::EnumOrUnknown(..) = *self {
            true
        } else {
            false
        }
    }

    pub fn is_str(&self) -> (r: bool)
        ensures
            r == (self@ is Str),
    {
        match *self {
            RustType::Str => true,
            _ => false,
        }
    }

    pub fn is_string(&self) -> (r: bool)
        ensures
            r == (self@ is String),
    {
        match *self {
            RustType::String => true,
            _ => false,
        }
    }

    pub fn is_slice(&self) -> (r: Option<&RustType>)
        ensures
            (match r {
                Some(t) => self@ is Slice && self@->Slice_0 == t@,
                None => !(self@ is Slice),
            }),
    {
        match self {
            RustType::Slice(v) => Some(&**v),
            _ => None,
        }
    }

    pub fn is_slice_u8(&self) -> (r: bool)
        ensures
            r == (self@ == RustTypeV::Slice(Box::new(RustTypeV::Int(false, 8)))),
    {
        match self.is_slice() {
            Some(t) => t.is_u8(),
            None => false,
        }
    }

    pub fn is_message(&self) -> (r: bool)
        ensures
            r == (self@ is Message),
    {
        match *self {
            RustType::Message(..) => true,
            _ => false,
        }
    }

    pub fn is_enum(&self) -> (r: bool)
        ensures
            r == (self@ is Enum),
    {
        match *self {
            RustType::Enum(..) => true,
            _ => false,
        }
    }

    pub fn is_enum_or_unknown(&self) -> (r: bool)
        ensures
            r == (self@ is EnumOrUnknown),
    {
        match *self {
            RustType::EnumOrUnknown(..) => true,
            _ => false,
        }
    }

    pub fn is_ref(&self) -> (r: Option<&RustType>)
        ensures
            (match r {
                Some(t) => self@ is Ref && self@->Ref_0 == t@,
                None => !(self@ is Ref),
            }),
    {
        match self {
            RustType::Ref(v) => Some(&**v),
            _ => None,
        }
    }

    pub fn is_box(&self) -> (r: Option<&RustType>)
        ensures
            (match r {
                Some(t) => self@ is Uniq && self@->Uniq_0 == t@,
                None => !(self@ is Uniq),
            }),
    {
        match self {
            RustType::Uniq(v) => Some(&**v),
            _ => None,
        }
    }
}

/// The failures this layer reports: an operation invoked outside its
/// defined domain, a conversion with no matching rule (naming both
/// types), and a primitive-kind mapping asked of a non-primitive kind.
#[derive(Debug)]
pub enum CodegenError {
    UnrepresentableOperation,
    NoConversionPath(RustType, RustType),
    UnknownPrimitiveKind,
}

/// Decimal text of a well-formed width.
pub open spec fn width_code(w: u32) -> Seq<char> {
    if w == 8 {
        "8"@
    } else if w == 16 {
        "16"@
    } else if w == 32 {
        "32"@
    } else {
        "64"@
    }
}

/// The code text of a type, as it is written in generated signatures.
pub open spec fn rt_code(t: RustTypeV) -> Seq<char>
    decreases t,
{
    match t {
        RustTypeV::Int(s, w) => (if s {
            "i"@
        } else {
            "u"@
        }) + width_code(w),
        RustTypeV::Float(w) => "f"@ + width_code(w),
        RustTypeV::Bool => "bool"@,
        RustTypeV::Vec(p) => "::std::vec::Vec<"@ + rt_code(*p) + ">"@,
        RustTypeV::HashMap(k, v) => "::std::collections::HashMap<"@ + rt_code(*k) + ", "@
            + rt_code(*v) + ">"@,
        RustTypeV::String => "::std::string::String"@,
        RustTypeV::Slice(p) => "["@ + rt_code(*p) + "]"@,
        RustTypeV::Str => "str"@,
        RustTypeV::Option(p) => "::std::option::Option<"@ + rt_code(*p) + ">"@,
        RustTypeV::SingularField(p) => "::protobuf::SingularField<"@ + rt_code(*p) + ">"@,
        RustTypeV::SingularPtrField(p) => "::protobuf::SingularPtrField<"@ + rt_code(*p)
            + ">"@,
        RustTypeV::RepeatedField(p) => "::protobuf::RepeatedField<"@ + rt_code(*p) + ">"@,
        RustTypeV::Uniq(p) => "::std::boxed::Box<"@ + rt_code(*p) + ">"@,
        RustTypeV::Ref(p) => "&"@ + rt_code(*p),
        RustTypeV::Message(n) => sym_code(n),
        RustTypeV::Enum(n, _) => sym_code(n),
        RustTypeV::EnumOrUnknown(n, _) => "::protobuf::ProtobufEnumOrUnknown<"@ + sym_code(n)
            + ">"@,
        RustTypeV::Oneof(n) => sym_code(n),
        RustTypeV::Bytes => "::bytes::Bytes"@,
        RustTypeV::Chars => "::protobuf::Chars"@,
        RustTypeV::Group => "<group>"@,
    }
}

/// The default-value expression of a type, where one is defined.
pub open spec fn default_value_spec(t: RustTypeV) -> Option<Seq<char>> {
    match t {
        RustTypeV::Ref(inner) => match *inner {
            RustTypeV::Str => Some("\"\""@),
            RustTypeV::Slice(_) => Some("&[]"@),
            RustTypeV::Message(n) => Some(
                "<"@ + sym_code(n) + " as ::protobuf::Message>::default_instance()"@,
            ),
            _ => None,
        },
        RustTypeV::Int(_, _) => Some("0"@),
        RustTypeV::Float(_) => Some("0."@),
        RustTypeV::Bool => Some("false"@),
        RustTypeV::Vec(_) => Some("::std::vec::Vec::new()"@),
        RustTypeV::HashMap(_, _) => Some("::std::collections::HashMap::new()"@),
        RustTypeV::String => Some("::std::string::String::new()"@),
        RustTypeV::Bytes => Some("::bytes::Bytes::new()"@),
        RustTypeV::Chars => Some("::protobuf::Chars::new()"@),
        RustTypeV::Option(_) => Some("::std::option::Option::None"@),
        RustTypeV::SingularField(_) => Some("::protobuf::SingularField::none()"@),
        RustTypeV::SingularPtrField(_) => Some("::protobuf::SingularPtrField::none()"@),
        RustTypeV::RepeatedField(_) => Some("::protobuf::RepeatedField::new()"@),
        RustTypeV::Message(n) => Some(sym_code(n) + "::new()"@),
        RustTypeV::Enum(n, d) => Some(sym_code(n) + "::"@ + d),
        RustTypeV::EnumOrUnknown(n, d) => Some(
            "::protobuf::ProtobufEnumOrUnknown::new("@ + sym_code(n) + "::"@ + d + ")"@,
        ),
        _ => None,
    }
}

/// The clear statement for a variable `v` of a type, where one is
/// defined: optionals are set to none, containers cleared in place,
/// scalars assigned their default value.
pub open spec fn clear_spec(t: RustTypeV, v: Seq<char>) -> Option<Seq<char>> {
    match t {
        RustTypeV::Option(_) => Some(v + " = ::std::option::Option::None"@),
        RustTypeV::Vec(_) | RustTypeV::Bytes | RustTypeV::String | RustTypeV::RepeatedField(_)
        | RustTypeV::SingularField(_) | RustTypeV::SingularPtrField(_)
        | RustTypeV::HashMap(_, _) => Some(v + ".clear()"@),
        RustTypeV::Chars => Some("::protobuf::Clear::clear(&mut "@ + v + ")"@),
        RustTypeV::Bool | RustTypeV::Float(_) | RustTypeV::Int(_, _) | RustTypeV::Enum(_, _)
        | RustTypeV::EnumOrUnknown(_, _) => Some(v + " = "@ + default_value_spec(t)->0),
        _ => None,
    }
}

/// The borrowed view type of an owned type, where one is defined.
pub open spec fn ref_type_spec(t: RustTypeV) -> Option<RustTypeV> {
    match t {
        RustTypeV::String | RustTypeV::Chars => Some(RustTypeV::Ref(Box::new(RustTypeV::Str))),
        RustTypeV::Vec(p) | RustTypeV::RepeatedField(p) => Some(
            RustTypeV::Ref(Box::new(RustTypeV::Slice(p))),
        ),
        RustTypeV::Bytes => Some(
            RustTypeV::Ref(Box::new(RustTypeV::Slice(Box::new(RustTypeV::Int(false, 8))))),
        ),
        RustTypeV::Message(n) => Some(RustTypeV::Ref(Box::new(RustTypeV::Message(n)))),
        RustTypeV::Uniq(p) => Some(RustTypeV::Ref(Box::new(RustTypeV::Uniq(p)))),
        _ => None,
    }
}

/// The payload type of a presence wrapper, where one is defined.
pub open spec fn elem_type_spec(t: RustTypeV) -> Option<RustTypeV> {
    match t {
        RustTypeV::Option(p) => Some(*p),
        RustTypeV::SingularField(p) => Some(*p),
        RustTypeV::SingularPtrField(p) => Some(*p),
        _ => None,
    }
}

/// The element type yielded when iterating a container, where iteration
/// is defined: a borrowed view of the container's payload type.
pub open spec fn iter_elem_type_spec(t: RustTypeV) -> Option<RustTypeV> {
    match t {
        RustTypeV::Vec(p) | RustTypeV::Option(p) | RustTypeV::RepeatedField(p)
        | RustTypeV::SingularField(p) | RustTypeV::SingularPtrField(p) => Some(
            RustTypeV::Ref(p),
        ),
        _ => None,
    }
}

impl RustType {
    /// Render this type as code text.
    pub fn to_code(&self) -> (r: String)
        requires
            rt_wf(self@),
        ensures
            r@ == rt_code(self@),
        decreases self,
    {
        match self {
            RustType::Int(s, w) => {
                let mut r: String;
                if *s {
                    r = String::from_str("i");
                } else {
                    r = String::from_str("u");
                }
                r.append(width_lit(*w));
                r
            },
            RustType::Float(w) => {
                let mut r = String::from_str("f");
                r.append(width_lit(*w));
                r
            },
            RustType::Bool => String::from_str("bool"),
            RustType::Vec(p) => {
                let mut r = String::from_str("::std::vec::Vec<");
                r.append(p.to_code().as_str());
                r.append(">");
                r
            },
            RustType::HashMap(k, v) => {
                let mut r = String::from_str("::std::collections::HashMap<");
                r.append(k.to_code().as_str());
                r.append(", ");
                r.append(v.to_code().as_str());
                r.append(">");
                r
            },
            RustType::String => String::from_str("::std::string::String"),
            RustType::Slice(p) => {
                let mut r = String::from_str("[");
                r.append(p.to_code().as_str());
                r.append("]");
                r
            },
            RustType::Str => String::from_str("str"),
            RustType::Option(p) => {
                let mut r = String::from_str("::std::option::Option<");
                r.append(p.to_code().as_str());
                r.append(">");
                r
            },
            RustType::SingularField(p) => {
                let mut r = String::from_str("::protobuf::SingularField<");
                r.append(p.to_code().as_str());
                r.append(">");
                r
            },
            RustType::SingularPtrField(p) => {
                let mut r = String::from_str("::protobuf::SingularPtrField<");
                r.append(p.to_code().as_str());
                r.append(">");
                r
            },
            RustType::RepeatedField(p) => {
                let mut r = String::from_str("::protobuf::RepeatedField<");
                r.append(p.to_code().as_str());
                r.append(">");
                r
            },
            RustType::Uniq(p) => {
                let mut r = String::from_str("::std::boxed::Box<");
                r.append(p.to_code().as_str());
                r.append(">");
                r
            },
            RustType::Ref(p) => {
                let mut r = String::from_str("&");
                r.append(p.to_code().as_str());
                r
            },
            RustType::Message(n) => n.to_code(),
            RustType::Enum(n, _) => n.to_code(),
            RustType::EnumOrUnknown(n, _) => {
                let mut r = String::from_str("::protobuf::ProtobufEnumOrUnknown<");
                r.append(n.to_code().as_str());
                r.append(">");
                r
            },
            RustType::Oneof(n) => n.to_code(),
            RustType::Bytes => String::from_str("::bytes::Bytes"),
            RustType::Chars => String::from_str("::protobuf::Chars"),
            RustType::Group => String::from_str("<group>"),
        }
    }

    /// The default-value expression for this type; fails where no owned
    /// default exists.
    pub fn default_value(&self) -> (r: Result<String, CodegenError>)
        ensures
            (match r {
                Ok(s) => default_value_spec(self@) == Some(s@),
                Err(e) => default_value_spec(self@) is None
                    && e == CodegenError::UnrepresentableOperation,
            }),
    {
        proof {
            reveal_with_fuel(rt_view, 3);
        }
        match self {
            RustType::Ref(t) => match &**t {
                RustType::Str => Ok(String::from_str("\"\"")),
                RustType::Slice(_) => Ok(String::from_str("&[]")),
                RustType::Message(n) => {
                    let mut r = String::from_str("<");
                    r.append(n.to_code().as_str());
                    r.append(" as ::protobuf::Message>::default_instance()");
                    Ok(r)
                },
                _ => Err(CodegenError::UnrepresentableOperation),
            },
            RustType::Int(..) => Ok(String::from_str("0")),
            RustType::Float(..) => Ok(String::from_str("0.")),
            RustType::Bool => Ok(String::from_str("false")),
            RustType::Vec(..) => Ok(String::from_str("::std::vec::Vec::new()")),
            RustType::HashMap(..) => Ok(String::from_str("::std::collections::HashMap::new()")),
            RustType::String => Ok(String::from_str("::std::string::String::new()")),
            RustType::Bytes => Ok(String::from_str("::bytes::Bytes::new()")),
            RustType::Chars => Ok(String::from_str("::protobuf::Chars::new()")),
            RustType::Option(..) => Ok(String::from_str("::std::option::Option::None")),
            RustType::SingularField(..) => Ok(
                String::from_str("::protobuf::SingularField::none()"),
            ),
            RustType::SingularPtrField(..) => Ok(
                String::from_str("::protobuf::SingularPtrField::none()"),
            ),
            RustType::RepeatedField(..) => Ok(
                String::from_str("::protobuf::RepeatedField::new()"),
            ),
            RustType::Message(n) => {
                let mut r = n.to_code();
                r.append("::new()");
                Ok(r)
            },
            RustType::Enum(n, d) => {
                let mut r = n.to_code();
                r.append("::");
                r.append(d.name.as_str());
                Ok(r)
            },
            RustType::EnumOrUnknown(n, d) => {
                let mut r = String::from_str("::protobuf::ProtobufEnumOrUnknown::new(");
                r.append(n.to_code().as_str());
                r.append("::");
                r.append(d.name.as_str());
                r.append(")");
                Ok(r)
            },
            _ => Err(CodegenError::UnrepresentableOperation),
        }
    }

    /// The default value together with its type.
    pub fn default_value_typed(self) -> (r: RustValueTyped)
        requires
            default_value_spec(self@) is Some,
        ensures
            Some(r.value@) == default_value_spec(self@),
            r.rust_type@ == self@,
    {
        let v = self.default_value();
        match v {
            Ok(value) => RustValueTyped { value, rust_type: self },
            Err(_) => {
                proof {
                    assert(false);
                }
                RustValueTyped { value: String::new(), rust_type: self }
            },
        }
    }

    /// The statement that clears a variable `v` of this type; fails for
    /// types with no clear-in-place contract at this layer.
    pub fn clear(&self, v: &str) -> (r: Result<String, CodegenError>)
        ensures
            (match r {
                Ok(s) => clear_spec(self@, v@) == Some(s@),
                Err(e) => clear_spec(self@, v@) is None
                    && e == CodegenError::UnrepresentableOperation,
            }),
    {
        match self {
            RustType::Option(..) => {
                let mut r = String::from_str(v);
                r.append(" = ::std::option::Option::None");
                Ok(r)
            },
            RustType::Vec(..) | RustType::Bytes | RustType::String | RustType::RepeatedField(..)
            | RustType::SingularField(..) | RustType::SingularPtrField(..)
            | RustType::HashMap(..) => {
                let mut r = String::from_str(v);
                r.append(".clear()");
                Ok(r)
            },
            RustType::Chars => {
                let mut r = String::from_str("::protobuf::Clear::clear(&mut ");
                r.append(v);
                r.append(")");
                Ok(r)
            },
            RustType::Bool | RustType::Float(..) | RustType::Int(..) | RustType::Enum(..)
            | RustType::EnumOrUnknown(..) => {
                let d = self.default_value();
                match d {
                    Ok(dv) => {
                        let mut r = String::from_str(v);
                        r.append(" = ");
                        r.append(dv.as_str());
                        Ok(r)
                    },
                    Err(_) => {
                        proof {
                            assert(false);
                        }
                        Err(CodegenError::UnrepresentableOperation)
                    },
                }
            },
            _ => Err(CodegenError::UnrepresentableOperation),
        }
    }

    /// The borrowed view type of this type; fails for a type with no
    /// defined view.
    pub fn ref_type(&self) -> (r: Result<RustType, CodegenError>)
        ensures
            (match r {
                Ok(t) => ref_type_spec(self@) == Some(t@),
                Err(e) => ref_type_spec(self@) is None
                    && e == CodegenError::UnrepresentableOperation,
            }),
    {
        proof {
            reveal_with_fuel(rt_view, 4);
        }
        match self {
            RustType::String | RustType::Chars => Ok(
                RustType::Ref(Box::new(RustType::Str)),
            ),
            RustType::Vec(p) | RustType::RepeatedField(p) => Ok(
                RustType::Ref(Box::new(RustType::Slice(Box::new(p.clone_type())))),
            ),
            RustType::Bytes => Ok(
                RustType::Ref(Box::new(RustType::Slice(Box::new(RustType::u8())))),
            ),
            RustType::Message(n) => Ok(RustType::Ref(Box::new(RustType::Message(n.clone())))),
            RustType::Uniq(p) => Ok(
                RustType::Ref(Box::new(RustType::Uniq(Box::new(p.clone_type())))),
            ),
            _ => Err(CodegenError::UnrepresentableOperation),
        }
    }

    /// The payload type of a presence wrapper; fails outside that domain.
    pub fn elem_type(&self) -> (r: Result<RustType, CodegenError>)
        ensures
            (match r {
                Ok(t) => elem_type_spec(self@) == Some(t@),
                Err(e) => elem_type_spec(self@) is None
                    && e == CodegenError::UnrepresentableOperation,
            }),
    {
        match self {
            RustType::Option(p) => Ok(p.clone_type()),
            RustType::SingularField(p) => Ok(p.clone_type()),
            RustType::SingularPtrField(p) => Ok(p.clone_type()),
            _ => Err(CodegenError::UnrepresentableOperation),
        }
    }

    /// The type of the variable bound when iterating a value of this
    /// type; fails for types that cannot be iterated.
    pub fn iter_elem_type(&self) -> (r: Result<RustType, CodegenError>)
        ensures
            (match r {
                Ok(t) => iter_elem_type_spec(self@) == Some(t@),
                Err(e) => iter_elem_type_spec(self@) is None
                    && e == CodegenError::UnrepresentableOperation,
            }),
    {
        match self {
            RustType::Vec(p) | RustType::Option(p) | RustType::RepeatedField(p)
            | RustType::SingularField(p) | RustType::SingularPtrField(p) => Ok(
                RustType::Ref(Box::new(p.clone_type())),
            ),
            _ => Err(CodegenError::UnrepresentableOperation),
        }
    }

    /// Attach an expression text to this type.
    pub fn value(self, value: String) -> (r: RustValueTyped)
        ensures
            r.value == value,
            r.rust_type == self,
    {
        RustValueTyped { value, rust_type: self }
    }
}

fn width_lit(w: u32) -> (r: &'static str)
    requires
        w == 8 || w == 16 || w == 32 || w == 64,
    ensures
        r@ == width_code(w),
{
    if w == 8 {
        "8"
    } else if w == 16 {
        "16"
    } else if w == 32 {
        "32"
    } else {
        "64"
    }
}

/// An expression of the code generator: its text and its type.
#[derive(Debug)]
pub struct RustValueTyped {
    pub value: String,
    pub rust_type: RustType,
}

/// Round-trip of defaults: every type with a clear statement also has a
/// default value, and for the scalar kinds — where clearing assigns
/// rather than empties in place — the assigned expression is exactly
/// the type's own default value.
pub proof fn lemma_clear_resets_to_default(t: RustTypeV, v: Seq<char>)
    requires
        clear_spec(t, v) is Some,
    ensures
        default_value_spec(t) is Some,
        (t is Bool || t is Float || t is Int || t is Enum || t is EnumOrUnknown)
            ==> clear_spec(t, v) == Some(v + " = "@ + default_value_spec(t)->0),
{
}

} // verus!
