//! The two ways in which building a resource fails.

use vstd::prelude::*;

verus! {

/// Why a syntax tree has no counterpart in the data model.
#[derive(Debug, Clone, Copy, PartialEq, Eq)]
pub enum UnsupportedConstruct {
    /// A name is the empty string.
    EmptyName,
    /// A message has no value.
    MissingValue,
    /// An expression is of a kind other than a message reference.
    Expression,
    /// The key of a member is a number, or stands in a namespace.
    MemberKey,
    /// More than one member of a message is marked as its default.
    MultipleDefaults,
    /// A message carries a comment of its own.
    MessageComment,
    /// A section holds entries of its own.
    SectionBody,
    /// An entry is junk.
    Junk,
}

/// Why a JSON text is not the encoding of a resource.
#[derive(Debug, Clone, Copy, PartialEq, Eq)]
pub enum DecodeError {
    /// The text is not JSON.
    Syntax,
    /// A value is of another JSON type than its place asks for.
    TypeMismatch,
    /// An object that encodes a union has no `"type"` field.
    MissingTag,
    /// The `"type"` field names no variant of the union.
    UnknownTag,
    /// A field that the variant requires is absent.
    MissingField,
    /// A name is the empty string.
    EmptyName,
    /// More than one attribute of a message is marked as its default.
    MultipleDefaults,
}

} // verus!
