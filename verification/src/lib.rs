//! Type-mapping and symbol-resolution core of a protobuf code generator.
//!
//! Given descriptions of schema types (messages, enums, fields, files,
//! packages) this library decides what generated-language type represents
//! each schema type, how a value of one representation converts into
//! another, what a default or cleared value looks like, and by which
//! qualified, possibly relative, path a type declared in one compilation
//! unit is referenced from another.

pub mod strutil;
pub mod ident;
pub mod resolver;
pub mod rust_types;
pub mod convert;
pub mod kinds;
pub mod naming;
