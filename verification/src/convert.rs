//! The conversion engine: given two types, decide whether an expression
//! of the first can be turned into an expression of the second, and
//! produce the transformation. A priority-ordered rule set; the first
//! matching rule wins.

use vstd::prelude::*;
use vstd::string::StringExecFns;
use crate::rust_types::CodegenError;
use crate::rust_types::RustType;
use crate::rust_types::RustTypeV;
use crate::rust_types::RustValueTyped;
use crate::rust_types::rt_view;

verus! {

/// The conversion of an expression `v` from type `s` to type `t`, where
/// one exists. The rules are tried top to bottom and the first match
/// wins; the last rule lets a reference see through to its target and is
/// the single recursive case.
pub open spec fn conv_spec(s: RustTypeV, t: RustTypeV, v: Seq<char>) -> Option<Seq<char>>
    decreases s,
{
    if s matches RustTypeV::Ref(b1) && *b1 matches RustTypeV::Uniq(x) && t matches RustTypeV::Ref(
        y,
    ) && x == y {
        Some("&**"@ + v)
    } else if s == t {
        Some(v)
    } else if s matches RustTypeV::Ref(x) && *x == t {
        Some("*"@ + v)
    } else if t matches RustTypeV::Uniq(y) && s == *y {
        Some("::std::boxed::Box::new("@ + v + ")"@)
    } else if s matches RustTypeV::Uniq(x) && *x == t {
        Some("*"@ + v)
    } else if s is String && (t matches RustTypeV::Ref(y) && *y is Str) {
        Some("&"@ + v)
    } else if s is Chars && (t matches RustTypeV::Ref(y) && *y is Str) {
        Some("&"@ + v)
    } else if s matches RustTypeV::Ref(x) && *x is String && (t matches RustTypeV::Ref(y)
        && *y is Str) {
        Some("&"@ + v)
    } else if s matches RustTypeV::Ref(x) && *x is Str && t is String {
        Some(v + ".to_owned()"@)
    } else if s matches RustTypeV::Ref(x) && *x is Str && t is Chars {
        Some(
            "<::protobuf::Chars as ::std::convert::From<_>>::from("@ + v + ".to_owned())"@,
        )
    } else if s matches RustTypeV::Ref(x) && *x matches RustTypeV::Slice(e1)
        && t matches RustTypeV::Vec(e2) && e1 == e2 {
        Some(v + ".to_vec()"@)
    } else if s matches RustTypeV::Ref(x) && *x matches RustTypeV::Slice(e)
        && *e == RustTypeV::Int(false, 8) && t is Bytes {
        Some("<::bytes::Bytes as ::std::convert::From<_>>::from("@ + v + ".to_vec())"@)
    } else if s matches RustTypeV::Vec(e1) && t matches RustTypeV::Ref(y)
        && *y matches RustTypeV::Slice(e2) && e1 == e2 {
        Some("&"@ + v)
    } else if s is Bytes && (t matches RustTypeV::Ref(y) && *y matches RustTypeV::Slice(e)
        && *e == RustTypeV::Int(false, 8)) {
        Some("&"@ + v)
    } else if s matches RustTypeV::Ref(x) && *x matches RustTypeV::Vec(e1)
        && t matches RustTypeV::Ref(y) && *y matches RustTypeV::Slice(e2) && e1 == e2 {
        Some("&"@ + v)
    } else if s is Enum && t == RustTypeV::Int(true, 32) {
        Some("::protobuf::ProtobufEnum::value(&"@ + v + ")"@)
    } else if s is EnumOrUnknown && t == RustTypeV::Int(true, 32) {
        Some("::protobuf::ProtobufEnumOrUnknown::value(&"@ + v + ")"@)
    } else if s matches RustTypeV::Ref(x) && *x is Enum && t == RustTypeV::Int(true, 32) {
        Some("::protobuf::ProtobufEnum::value("@ + v + ")"@)
    } else if s matches RustTypeV::Ref(x) && *x is EnumOrUnknown && t == RustTypeV::Int(
        true,
        32,
    ) {
        Some("::protobuf::ProtobufEnumOrUnknown::value("@ + v + ")"@)
    } else if s matches RustTypeV::EnumOrUnknown(f, _) && t matches RustTypeV::Enum(g, _)
        && f == g {
        Some("::protobuf::ProtobufEnumOrUnknown::enum_value_or_default(&"@ + v + ")"@)
    } else if s matches RustTypeV::Enum(f, _) && t matches RustTypeV::EnumOrUnknown(g, _)
        && f == g {
        Some("::protobuf::ProtobufEnumOrUnknown::new("@ + v + ")"@)
    } else {
        match s {
            RustTypeV::Ref(x) => conv_spec(*x, t, v),
            _ => None,
        }
    }
}

impl RustType {
    /// The expression converting `v` of this type to type `target`,
    /// or the error naming both types where no rule matches.
    pub fn try_into_target(&self, target: &RustType, v: &str) -> (r: Result<
        String,
        CodegenError,
    >)
        ensures
            (match r {
                Ok(s) => conv_spec(self@, target@, v@) == Some(s@),
                Err(e) => conv_spec(self@, target@, v@) is None && (e matches
                    CodegenError::NoConversionPath(a, b) && a@ == self@ && b@ == target@),
            }),
        decreases self,
    {
        proof {
            reveal_with_fuel(rt_view, 4);
        }
        if let Some(t0) = self.is_ref() {
            if let Some(t1) = t0.is_box() {
                if let Some(t2) = target.is_ref() {
                    if t1 == t2 {
                        let mut r = String::from_str("&**");
                        r.append(v);
                        return Ok(r);
                    }
                }
            }
        }
        match (self, target) {
            (x, y) if x == y => {
                return Ok(String::from_str(v));
            },
            (RustType::Ref(x), y) if (&**x) == y => {
                let mut r = String::from_str("*");
                r.append(v);
                return Ok(r);
            },
            (x, RustType::Uniq(y)) if x == (&**y) => {
                let mut r = String::from_str("::std::boxed::Box::new(");
                r.append(v);
                r.append(")");
                return Ok(r);
            },
            (RustType::Uniq(x), y) if (&**x) == y => {
                let mut r = String::from_str("*");
                r.append(v);
                return Ok(r);
            },
            (RustType::String, RustType::Ref(t)) if t.is_str() => {
                let mut r = String::from_str("&");
                r.append(v);
                return Ok(r);
            },
            (RustType::Chars, RustType::Ref(t)) if t.is_str() => {
                let mut r = String::from_str("&");
                r.append(v);
                return Ok(r);
            },
            (RustType::Ref(t1), RustType::Ref(t2)) if t1.is_string() && t2.is_str() => {
                let mut r = String::from_str("&");
                r.append(v);
                return Ok(r);
            },
            (RustType::Ref(t1), RustType::String) if t1.is_str() => {
                let mut r = String::from_str(v);
                r.append(".to_owned()");
                return Ok(r);
            },
            (RustType::Ref(t1), RustType::Chars) if t1.is_str() => {
                let mut r = String::from_str(
                    "<::protobuf::Chars as ::std::convert::From<_>>::from(",
                );
                r.append(v);
                r.append(".to_owned())");
                return Ok(r);
            },
            (RustType::Ref(t1), RustType::Vec(t2)) if (match &**t1 {
                RustType::Slice(x) => (&**x) == (&**t2),
                _ => false,
            }) => {
                let mut r = String::from_str(v);
                r.append(".to_vec()");
                return Ok(r);
            },
            (RustType::Ref(t1), RustType::Bytes) if t1.is_slice_u8() => {
                let mut r = String::from_str(
                    "<::bytes::Bytes as ::std::convert::From<_>>::from(",
                );
                r.append(v);
                r.append(".to_vec())");
                return Ok(r);
            },
            (RustType::Vec(x), RustType::Ref(t)) if (match &**t {
                RustType::Slice(y) => (&**x) == (&**y),
                _ => false,
            }) => {
                let mut r = String::from_str("&");
                r.append(v);
                return Ok(r);
            },
            (RustType::Bytes, RustType::Ref(t)) if (match &**t {
                RustType::Slice(y) => y.is_u8(),
                _ => false,
            }) => {
                let mut r = String::from_str("&");
                r.append(v);
                return Ok(r);
            },
            (RustType::Ref(t1), RustType::Ref(t2)) if (match (&**t1, &**t2) {
                (RustType::Vec(x), RustType::Slice(y)) => (&**x) == (&**y),
                _ => false,
            }) => {
                let mut r = String::from_str("&");
                r.append(v);
                return Ok(r);
            },
            (RustType::Enum(..), RustType::Int(true, 32)) => {
                let mut r = String::from_str("::protobuf::ProtobufEnum::value(&");
                r.append(v);
                r.append(")");
                return Ok(r);
            },
            (RustType::EnumOrUnknown(..), RustType::Int(true, 32)) => {
                let mut r = String::from_str("::protobuf::ProtobufEnumOrUnknown::value(&");
                r.append(v);
                r.append(")");
                return Ok(r);
            },
            (RustType::Ref(t), RustType::Int(true, 32)) if t.is_enum() => {
                let mut r = String::from_str("::protobuf::ProtobufEnum::value(");
                r.append(v);
                r.append(")");
                return Ok(r);
            },
            (RustType::Ref(t), RustType::Int(true, 32)) if t.is_enum_or_unknown() => {
                let mut r = String::from_str("::protobuf::ProtobufEnumOrUnknown::value(");
                r.append(v);
                r.append(")");
                return Ok(r);
            },
            (RustType::EnumOrUnknown(f, ..), RustType::Enum(t, ..)) if f == t => {
                let mut r = String::from_str(
                    "::protobuf::ProtobufEnumOrUnknown::enum_value_or_default(&",
                );
                r.append(v);
                r.append(")");
                return Ok(r);
            },
            (RustType::Enum(f, ..), RustType::EnumOrUnknown(t, ..)) if f == t => {
                let mut r = String::from_str("::protobuf::ProtobufEnumOrUnknown::new(");
                r.append(v);
                r.append(")");
                return Ok(r);
            },
            _ => {},
        }
        if let RustType::Ref(s) = self {
            let inner = s.try_into_target(target, v);
            if let Ok(conv) = inner {
                return Ok(conv);
            }
        }
        Err(CodegenError::NoConversionPath(self.clone_type(), target.clone_type()))
    }

    /// The expression converting `v` of this type to type `target`;
    /// callers use it only where a conversion exists.
    pub fn into_target(&self, target: &RustType, v: &str) -> (r: String)
        requires
            conv_spec(self@, target@, v@) is Some,
        ensures
            Some(r@) == conv_spec(self@, target@, v@),
    {
        match self.try_into_target(target, v) {
            Ok(r) => r,
            Err(_) => {
                proof {
                    assert(false);
                }
                String::new()
            },
        }
    }
}

impl RustValueTyped {
    /// Convert this typed expression to the given target type.
    pub fn into_type(&self, target: RustType) -> (r: RustValueTyped)
        requires
            conv_spec(self.rust_type@, target@, self.value@) is Some,
        ensures
            Some(r.value@) == conv_spec(self.rust_type@, target@, self.value@),
            r.rust_type@ == target@,
    {
        let target_value = self.rust_type.into_target(&target, self.value.as_str());
        RustValueTyped { value: target_value, rust_type: target }
    }

    /// Wrap this typed expression by heap indirection.
    pub fn boxed(self) -> (r: RustValueTyped)
        ensures
            Some(r.value@) == conv_spec(
                self.rust_type@,
                RustTypeV::Uniq(Box::new(self.rust_type@)),
                self.value@,
            ),
            r.rust_type@ == RustTypeV::Uniq(Box::new(self.rust_type@)),
    {
        proof {
            lemma_convert_to_boxed(self.rust_type@, self.value@);
        }
        let target = RustType::Uniq(Box::new(self.rust_type.clone_type()));
        self.into_type(target)
    }
}

/// Wrapping any expression by heap indirection always has a conversion.
pub proof fn lemma_convert_to_boxed(s: RustTypeV, v: Seq<char>)
    ensures
        conv_spec(s, RustTypeV::Uniq(Box::new(s)), v) is Some,
{
}

proof fn lemma_type_ne_uniq_of_self(x: RustTypeV)
    ensures
        x != RustTypeV::Uniq(Box::new(x)),
    decreases x,
{
    match x {
        RustTypeV::Uniq(inner) => {
            lemma_type_ne_uniq_of_self(*inner);
        },
        _ => {},
    }
}

/// Conversion identity: converting an expression between equal types
/// leaves the expression unchanged, for every type.
pub proof fn lemma_convert_identity(t: RustTypeV, v: Seq<char>)
    ensures
        conv_spec(t, t, v) == Some(v),
{
    match t {
        RustTypeV::Ref(b1) => match *b1 {
            RustTypeV::Uniq(x) => lemma_type_ne_uniq_of_self(*x),
            _ => (),
        },
        _ => (),
    }
}

/// A reference to a boxed message degrades to a reference to the message
/// by double-dereference-then-reborrow, never by a copy.
pub proof fn lemma_convert_ref_box_to_ref(inner: RustTypeV, v: Seq<char>)
    ensures
        conv_spec(
            RustTypeV::Ref(Box::new(RustTypeV::Uniq(Box::new(inner)))),
            RustTypeV::Ref(Box::new(inner)),
            v,
        ) == Some("&**"@ + v),
{
}

/// Enum round-trip: wrapping an enum expression into the widened
/// enum-or-unknown representation and resolving it back composes the
/// wrap and the resolve expressions, for any enum symbol and default.
pub proof fn lemma_convert_enum_round_trip(n: crate::ident::SymView, d: Seq<char>, v: Seq<char>)
    ensures
        conv_spec(RustTypeV::Enum(n, d), RustTypeV::EnumOrUnknown(n, d), v) == Some(
            "::protobuf::ProtobufEnumOrUnknown::new("@ + v + ")"@,
        ),
        conv_spec(
            RustTypeV::EnumOrUnknown(n, d),
            RustTypeV::Enum(n, d),
            "::protobuf::ProtobufEnumOrUnknown::new("@ + v + ")"@,
        ) == Some(
            "::protobuf::ProtobufEnumOrUnknown::enum_value_or_default(&"@
                + ("::protobuf::ProtobufEnumOrUnknown::new("@ + v + ")"@) + ")"@,
        ),
{
}

} // verus!
