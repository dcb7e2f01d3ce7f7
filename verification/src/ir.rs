//! The data model: a resource is an ordered list of entries, each entry a
//! message, a section or a comment. Every type has a view, a value made of
//! sequences, on which the contracts of the crate are stated.

use vstd::prelude::*;

verus! {

/// The key under which a message is looked up.
#[derive(Debug, Clone, PartialEq, Eq)]
pub struct Identifier {
    pub name: String,
}

/// The name of a section. It is a type of its own, so that no expression can
/// refer to a section by mistake.
#[derive(Debug, Clone, PartialEq, Eq)]
pub struct Symbol {
    pub name: String,
}

/// A comment of the document, verbatim.
#[derive(Debug, Clone, PartialEq, Eq)]
pub struct Comment {
    pub content: String,
}

/// What may stand at a substitution site.
#[derive(Debug, Clone, PartialEq, Eq)]
pub enum Expression {
    /// A reference to another message. Whether that message exists is not
    /// examined here.
    MessageReference { id: Identifier },
}

/// One piece of a pattern.
#[derive(Debug, Clone, PartialEq, Eq)]
pub enum PatternElement {
    /// Literal text, white space included.
    Text { value: String },
    /// A substitution site.
    Placeable { expressions: Vec<Expression> },
}

/// The translatable value of a message: its elements in the order of the text.
#[derive(Debug, Clone, PartialEq, Eq)]
pub struct Pattern {
    pub elements: Vec<PatternElement>,
}

/// A keyed value attached to a message.
#[derive(Debug, Clone, PartialEq, Eq)]
pub struct Attribute {
    pub key: String,
    pub value: Pattern,
    pub is_default: bool,
}

/// A top-level declaration of a document.
#[derive(Debug, Clone, PartialEq, Eq)]
pub enum Entry {
    Message { id: Identifier, value: Pattern, attributes: Vec<Attribute> },
    Section { name: Symbol, comment: Option<Comment> },
    Comment(Comment),
}

/// A whole document: its entries in source order and its leading comment.
#[derive(Debug, Clone, PartialEq, Eq)]
pub struct Resource {
    pub body: Vec<Entry>,
    pub comment: Option<Comment>,
}

/// An expression as a mathematical value.
pub enum ExpressionView {
    MessageReference { id: Seq<char> },
}

/// A pattern element as a mathematical value.
pub enum PatternElementView {
    Text { value: Seq<char> },
    Placeable { expressions: Seq<ExpressionView> },
}

/// An attribute as a mathematical value.
pub struct AttributeView {
    pub key: Seq<char>,
    pub value: Seq<PatternElementView>,
    pub is_default: bool,
}

/// An entry as a mathematical value.
pub enum EntryView {
    Message { id: Seq<char>, value: Seq<PatternElementView>, attributes: Seq<AttributeView> },
    Section { name: Seq<char>, comment: Option<Seq<char>> },
    Comment { content: Seq<char> },
}

/// A resource as a mathematical value: two resources with the same view are
/// the same document.
pub struct ResourceView {
    pub body: Seq<EntryView>,
    pub comment: Option<Seq<char>>,
}

/// The view of an optional comment.
pub open spec fn comment_view(c: Option<Comment>) -> Option<Seq<char>> {
    match c {
        Some(c) => Some(c@),
        None => None,
    }
}

/// No two attributes of `attributes` are both marked as the default.
pub open spec fn at_most_one_default(attributes: Seq<AttributeView>) -> bool {
    forall|i: int, j: int|
        0 <= i < j < attributes.len() ==> !(#[trigger] attributes[i].is_default
            && #[trigger] attributes[j].is_default)
}

/// The views of the attributes of a list, in order.
pub open spec fn attribute_views(attributes: Vec<Attribute>) -> Seq<AttributeView> {
    attributes@.map_values(|a: Attribute| a@)
}

/// Whether at most one attribute of the list is marked as the default.
pub fn defaults_are_unique(attributes: &Vec<Attribute>) -> (unique: bool)
    ensures
        unique == at_most_one_default(attribute_views(*attributes)),
{
    let ghost views = attribute_views(*attributes);
    let mut seen = false;
    let mut i: usize = 0;
    while i < attributes.len()
        invariant
            i <= attributes.len(),
            views == attribute_views(*attributes),
            seen <==> exists|k: int| 0 <= k < i && (#[trigger] views[k]).is_default,
            forall|p: int, q: int|
                0 <= p < q < i ==> !(#[trigger] views[p].is_default
                    && #[trigger] views[q].is_default),
        decreases attributes.len() - i,
    {
        assert(views[i as int].is_default == attributes@[i as int].is_default);
        if attributes[i].is_default {
            if seen {
                proof {
                    let k = choose|k: int| 0 <= k < i && (#[trigger] views[k]).is_default;
                    assert(views[k].is_default && views[i as int].is_default);
                }
                return false;
            }
            seen = true;
        }
        i += 1;
    }
    true
}

impl View for Identifier {
    type V = Seq<char>;

    open spec fn view(&self) -> Seq<char> {
        self.name@
    }
}

impl View for Symbol {
    type V = Seq<char>;

    open spec fn view(&self) -> Seq<char> {
        self.name@
    }
}

impl View for Comment {
    type V = Seq<char>;

    open spec fn view(&self) -> Seq<char> {
        self.content@
    }
}

impl View for Expression {
    type V = ExpressionView;

    open spec fn view(&self) -> ExpressionView {
        match *self {
            Expression::MessageReference { id } => ExpressionView::MessageReference { id: id@ },
        }
    }
}

impl View for PatternElement {
    type V = PatternElementView;

    open spec fn view(&self) -> PatternElementView {
        match *self {
            PatternElement::Text { value } => PatternElementView::Text { value: value@ },
            PatternElement::Placeable { expressions } => PatternElementView::Placeable {
                expressions: expressions@.map_values(|e: Expression| e@),
            },
        }
    }
}

impl View for Pattern {
    type V = Seq<PatternElementView>;

    open spec fn view(&self) -> Seq<PatternElementView> {
        self.elements@.map_values(|e: PatternElement| e@)
    }
}

impl View for Attribute {
    type V = AttributeView;

    open spec fn view(&self) -> AttributeView {
        AttributeView { key: self.key@, value: self.value@, is_default: self.is_default }
    }
}

impl View for Entry {
    type V = EntryView;

    open spec fn view(&self) -> EntryView {
        match *self {
            Entry::Message { id, value, attributes } => EntryView::Message {
                id: id@,
                value: value@,
                attributes: attributes@.map_values(|a: Attribute| a@),
            },
            Entry::Section { name, comment } => EntryView::Section {
                name: name@,
                comment: comment_view(comment),
            },
            Entry::Comment(c) => EntryView::Comment { content: c@ },
        }
    }
}

impl View for Resource {
    type V = ResourceView;

    open spec fn view(&self) -> ResourceView {
        ResourceView {
            body: self.body@.map_values(|e: Entry| e@),
            comment: comment_view(self.comment),
        }
    }
}

impl ExpressionView {
    /// The name referred to is not empty.
    pub open spec fn well_formed(self) -> bool {
        match self {
            ExpressionView::MessageReference { id } => id.len() > 0,
        }
    }
}

impl PatternElementView {
    /// Every expression of a substitution site is well formed.
    pub open spec fn well_formed(self) -> bool {
        match self {
            PatternElementView::Text { value } => true,
            PatternElementView::Placeable { expressions } => forall|i: int|
                0 <= i < expressions.len() ==> (#[trigger] expressions[i]).well_formed(),
        }
    }
}

/// Every element of the pattern is well formed.
pub open spec fn pattern_well_formed(pattern: Seq<PatternElementView>) -> bool {
    forall|i: int| 0 <= i < pattern.len() ==> (#[trigger] pattern[i]).well_formed()
}

impl AttributeView {
    /// The value of the attribute is a well-formed pattern.
    pub open spec fn well_formed(self) -> bool {
        pattern_well_formed(self.value)
    }
}

impl EntryView {
    /// Names are not empty, what is nested is well formed, and at most one
    /// attribute of a message is its default. Two messages may have the same
    /// identifier: that is for the consumer to judge.
    pub open spec fn well_formed(self) -> bool {
        match self {
            EntryView::Message { id, value, attributes } => {
                &&& id.len() > 0
                &&& pattern_well_formed(value)
                &&& forall|i: int|
                    0 <= i < attributes.len() ==> (#[trigger] attributes[i]).well_formed()
                &&& at_most_one_default(attributes)
            },
            EntryView::Section { name, comment } => name.len() > 0,
            EntryView::Comment { content } => true,
        }
    }
}

impl ResourceView {
    /// Every entry is well formed.
    pub open spec fn well_formed(self) -> bool {
        forall|i: int| 0 <= i < self.body.len() ==> (#[trigger] self.body[i]).well_formed()
    }
}

} // verus!
