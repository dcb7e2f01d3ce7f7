//! An intermediate representation of localization resources, the conversion
//! of a parsed syntax tree into it, and its canonical JSON encoding.

pub mod adapter;
pub mod decode;
pub mod encode;
pub mod error;
pub mod ir;
pub mod json;
pub mod laws;
pub mod syntax;
pub mod traverse;

pub use crate::decode::deserialize_json;
pub use crate::encode::serialize_json;
pub use crate::error::{DecodeError, UnsupportedConstruct};
pub use crate::ir::{
    Attribute, Comment, Entry, Expression, Identifier, Pattern, PatternElement, Resource, Symbol,
};
