//! The syntax tree that a parser of the resource format hands over, as plain
//! values. It holds what the grammar allows, also where the data model has
//! no place for it: the conversion decides what becomes of that.

use vstd::prelude::*;

verus! {

/// An expression inside a placeable. Only a message reference carries its
/// content; of the other kinds the tree records that they occurred.
#[derive(Debug, Clone, PartialEq, Eq)]
pub enum SyntaxExpression {
    MessageReference { id: String },
    ExternalArgument,
    Call,
    Select,
    KeyValueArgument,
    NumberLiteral,
    StringLiteral,
    Member,
}

#[derive(Debug, Clone, PartialEq, Eq)]
pub enum SyntaxElement {
    Text(String),
    Placeable { expressions: Vec<SyntaxExpression> },
}

/// A pattern, and whether it was written between quotes.
#[derive(Debug, Clone, PartialEq, Eq)]
pub struct SyntaxPattern {
    pub elements: Vec<SyntaxElement>,
    pub quoted: bool,
}

/// The key of a member: a keyword, which may stand in a namespace, or a
/// number, kept as it was written.
#[derive(Debug, Clone, PartialEq, Eq)]
pub enum SyntaxMemberKey {
    Keyword { namespace: Option<String>, name: String },
    Number(String),
}

/// A keyed value attached to a message.
#[derive(Debug, Clone, PartialEq, Eq)]
pub struct SyntaxMember {
    pub key: SyntaxMemberKey,
    pub value: SyntaxPattern,
    pub default: bool,
}

/// A message as the grammar has it: every part but the identifier may be
/// missing.
#[derive(Debug, Clone, PartialEq, Eq)]
pub struct SyntaxMessage {
    pub id: String,
    pub value: Option<SyntaxPattern>,
    pub traits: Option<Vec<SyntaxMember>>,
    pub comment: Option<String>,
}

/// A section heading. The grammar lets a section hold entries of its own.
#[derive(Debug, PartialEq, Eq)]
pub struct SyntaxSection {
    pub key: String,
    pub body: Vec<SyntaxEntry>,
    pub comment: Option<String>,
}

#[derive(Debug, PartialEq, Eq)]
pub enum SyntaxEntry {
    Message(SyntaxMessage),
    Comment(String),
    Section(SyntaxSection),
    /// Text that the parser could not make sense of.
    Junk(String),
}

#[derive(Debug, PartialEq, Eq)]
pub struct SyntaxResource {
    pub body: Vec<SyntaxEntry>,
    pub comment: Option<String>,
}

} // verus!
