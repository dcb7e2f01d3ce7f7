//! From a syntax tree to the data model. The conversion copies what the model
//! has a place for, in source order, and fails on everything else: no part
//! of the document is left out and none is made up.

use vstd::prelude::*;
use crate::error::UnsupportedConstruct;
use crate::ir::{
    at_most_one_default, attribute_views, comment_view, defaults_are_unique, pattern_well_formed,
    Attribute, AttributeView, Comment, Entry, EntryView, Expression, ExpressionView, Identifier,
    Pattern, PatternElement, PatternElementView, Resource, ResourceView, Symbol,
};
use crate::syntax::{
    SyntaxElement, SyntaxEntry, SyntaxExpression, SyntaxMember, SyntaxMemberKey, SyntaxMessage,
    SyntaxPattern, SyntaxResource, SyntaxSection,
};
use crate::traverse::{agrees, lemma_traverse_fails, lemma_traverse_gives, traverse};

verus! {

/// The view of an optional string.
pub open spec fn text_view(s: Option<String>) -> Option<Seq<char>> {
    match s {
        Some(s) => Some(s@),
        None => None,
    }
}

/// A name is kept as it is; the empty string is no name.
pub open spec fn adapt_name(name: Seq<char>) -> Result<Seq<char>, UnsupportedConstruct> {
    if name.len() == 0 {
        Err(UnsupportedConstruct::EmptyName)
    } else {
        Ok(name)
    }
}

/// A message reference with a name becomes a message reference; no other
/// expression is modelled.
pub open spec fn adapt_expression(e: SyntaxExpression) -> Result<
    ExpressionView,
    UnsupportedConstruct,
> {
    match e {
        SyntaxExpression::MessageReference { id } => match adapt_name(id@) {
            Ok(id) => Ok(ExpressionView::MessageReference { id }),
            Err(err) => Err(err),
        },
        _ => Err(UnsupportedConstruct::Expression),
    }
}

/// `adapt_expression` as a function value.
pub open spec fn expression_adapter() -> spec_fn(SyntaxExpression) -> Result<
    ExpressionView,
    UnsupportedConstruct,
> {
    |e: SyntaxExpression| adapt_expression(e)
}

/// Text is copied; the expressions of a placeable are converted one by one,
/// in order.
pub open spec fn adapt_element(e: SyntaxElement) -> Result<
    PatternElementView,
    UnsupportedConstruct,
> {
    match e {
        SyntaxElement::Text(t) => Ok(PatternElementView::Text { value: t@ }),
        SyntaxElement::Placeable { expressions } => match traverse(
            expressions@,
            expression_adapter(),
        ) {
            Ok(expressions) => Ok(PatternElementView::Placeable { expressions }),
            Err(err) => Err(err),
        },
    }
}

/// `adapt_element` as a function value.
pub open spec fn element_adapter() -> spec_fn(SyntaxElement) -> Result<
    PatternElementView,
    UnsupportedConstruct,
> {
    |e: SyntaxElement| adapt_element(e)
}

/// The elements are converted one by one, in order. Whether the pattern
/// stood between quotes says how the text was written down, not what it
/// holds: the elements are the same either way.
pub open spec fn adapt_pattern(p: SyntaxPattern) -> Result<
    Seq<PatternElementView>,
    UnsupportedConstruct,
> {
    traverse(p.elements@, element_adapter())
}

/// A keyword outside any namespace is the key of an attribute. A number or
/// a keyword in a namespace is not.
pub open spec fn adapt_key(k: SyntaxMemberKey) -> Result<Seq<char>, UnsupportedConstruct> {
    match k {
        SyntaxMemberKey::Keyword { namespace: None, name } => Ok(name@),
        _ => Err(UnsupportedConstruct::MemberKey),
    }
}

/// A member becomes an attribute: its key, its converted value and its
/// default mark.
pub open spec fn adapt_member(m: SyntaxMember) -> Result<AttributeView, UnsupportedConstruct> {
    match adapt_key(m.key) {
        Err(err) => Err(err),
        Ok(key) => match adapt_pattern(m.value) {
            Ok(value) => Ok(AttributeView { key, value, is_default: m.default }),
            Err(err) => Err(err),
        },
    }
}

/// `adapt_member` as a function value.
pub open spec fn member_adapter() -> spec_fn(SyntaxMember) -> Result<
    AttributeView,
    UnsupportedConstruct,
> {
    |m: SyntaxMember| adapt_member(m)
}

/// The members of a message, in order. A missing list is the empty list.
pub open spec fn adapt_members(members: Option<Vec<SyntaxMember>>) -> Result<
    Seq<AttributeView>,
    UnsupportedConstruct,
> {
    match members {
        Some(list) => traverse(list@, member_adapter()),
        None => Ok(Seq::empty()),
    }
}

/// A message needs a name and a value, and may not carry a comment of its
/// own, for which the model has no place. Its members are converted in
/// order; at most one of them may be the default.
pub open spec fn adapt_message(m: SyntaxMessage) -> Result<EntryView, UnsupportedConstruct> {
    if m.id@.len() == 0 {
        Err(UnsupportedConstruct::EmptyName)
    } else if m.value is None {
        Err(UnsupportedConstruct::MissingValue)
    } else if m.comment is Some {
        Err(UnsupportedConstruct::MessageComment)
    } else {
        match adapt_pattern(m.value->Some_0) {
            Err(err) => Err(err),
            Ok(value) => match adapt_members(m.traits) {
                Err(err) => Err(err),
                Ok(attributes) => if at_most_one_default(attributes) {
                    Ok(EntryView::Message { id: m.id@, value, attributes })
                } else {
                    Err(UnsupportedConstruct::MultipleDefaults)
                },
            },
        }
    }
}

/// A section needs a name and may hold no entries of its own: in the model
/// a section is a heading, and the entries after it stand beside it.
pub open spec fn adapt_section(s: SyntaxSection) -> Result<EntryView, UnsupportedConstruct> {
    if s.key@.len() == 0 {
        Err(UnsupportedConstruct::EmptyName)
    } else if s.body@.len() > 0 {
        Err(UnsupportedConstruct::SectionBody)
    } else {
        Ok(EntryView::Section { name: s.key@, comment: text_view(s.comment) })
    }
}

/// A message, a section and a comment have counterparts in the model; junk
/// has none.
pub open spec fn adapt_entry(e: SyntaxEntry) -> Result<EntryView, UnsupportedConstruct> {
    match e {
        SyntaxEntry::Message(m) => adapt_message(m),
        SyntaxEntry::Section(s) => adapt_section(s),
        SyntaxEntry::Comment(c) => Ok(EntryView::Comment { content: c@ }),
        SyntaxEntry::Junk(text) => Err(UnsupportedConstruct::Junk),
    }
}

/// `adapt_entry` as a function value.
pub open spec fn entry_adapter() -> spec_fn(SyntaxEntry) -> Result<
    EntryView,
    UnsupportedConstruct,
> {
    |e: SyntaxEntry| adapt_entry(e)
}

/// The entries are converted one by one, in order; the leading comment is
/// kept as it is.
pub open spec fn adapt_resource(r: SyntaxResource) -> Result<ResourceView, UnsupportedConstruct> {
    match traverse(r.body@, entry_adapter()) {
        Ok(body) => Ok(ResourceView { body, comment: text_view(r.comment) }),
        Err(err) => Err(err),
    }
}

impl Identifier {
    /// An identifier with the given name, which must not be empty.
    pub fn from_syntax(name: &str) -> (out: Result<Identifier, UnsupportedConstruct>)
        ensures
            agrees(out, adapt_name(name@)),
    {
        if name.is_empty() {
            Err(UnsupportedConstruct::EmptyName)
        } else {
            Ok(Identifier { name: name.to_owned() })
        }
    }
}

impl Symbol {
    /// A symbol with the given name, which must not be empty.
    pub fn from_syntax(name: &str) -> (out: Result<Symbol, UnsupportedConstruct>)
        ensures
            agrees(out, adapt_name(name@)),
    {
        if name.is_empty() {
            Err(UnsupportedConstruct::EmptyName)
        } else {
            Ok(Symbol { name: name.to_owned() })
        }
    }
}

impl Comment {
    /// A comment with the given text.
    pub fn from_syntax(content: &str) -> (out: Comment)
        ensures
            out@ == content@,
    {
        Comment { content: content.to_owned() }
    }
}

fn adapt_comment(c: &Option<String>) -> (out: Option<Comment>)
    ensures
        comment_view(out) == text_view(*c),
{
    match c {
        Some(text) => Some(Comment::from_syntax(text.as_str())),
        None => None,
    }
}

impl Expression {
    /// Converts an expression; only a message reference with a name succeeds.
    pub fn from_syntax(e: &SyntaxExpression) -> (out: Result<Expression, UnsupportedConstruct>)
        ensures
            agrees(out, adapt_expression(*e)),
            out is Ok ==> out->Ok_0@.well_formed(),
    {
        match e {
            SyntaxExpression::MessageReference { id } => match Identifier::from_syntax(
                id.as_str(),
            ) {
                Ok(id) => Ok(Expression::MessageReference { id }),
                Err(err) => Err(err),
            },
            _ => Err(UnsupportedConstruct::Expression),
        }
    }
}

impl PatternElement {
    /// Converts one element of a pattern; the first expression of a
    /// placeable that cannot be converted fails the element.
    pub fn from_syntax(e: &SyntaxElement) -> (out: Result<PatternElement, UnsupportedConstruct>)
        ensures
            agrees(out, adapt_element(*e)),
            out is Ok ==> out->Ok_0@.well_formed(),
    {
        match e {
            SyntaxElement::Text(t) => Ok(PatternElement::Text { value: t.clone() }),
            SyntaxElement::Placeable { expressions: list } => {
                let mut expressions: Vec<Expression> = Vec::new();
                let mut i: usize = 0;
                while i < list.len()
                    invariant
                        *e == (SyntaxElement::Placeable { expressions: *list }),
                        i <= list.len(),
                        expressions.len() == i,
                        forall|j: int|
                            0 <= j < i ==> expression_adapter()(#[trigger] list@[j]) == Ok::<
                                ExpressionView,
                                UnsupportedConstruct,
                            >(expressions@[j]@),
                        forall|j: int|
                            0 <= j < i ==> (#[trigger] expressions@[j])@.well_formed(),
                    decreases list.len() - i,
                {
                    match Expression::from_syntax(&list[i]) {
                        Ok(expression) => {
                            expressions.push(expression);
                        },
                        Err(err) => {
                            proof {
                                lemma_traverse_fails(list@, expression_adapter(), i as int);
                            }
                            return Err(err);
                        },
                    }
                    i += 1;
                }
                let out = PatternElement::Placeable { expressions };
                proof {
                    lemma_traverse_gives(list@, expression_adapter(), out@->expressions);
                }
                Ok(out)
            },
        }
    }
}

impl Pattern {
    /// Converts a pattern, element by element; the first element that cannot
    /// be converted fails the pattern.
    pub fn from_syntax(p: &SyntaxPattern) -> (out: Result<Pattern, UnsupportedConstruct>)
        ensures
            agrees(out, adapt_pattern(*p)),
            out is Ok ==> pattern_well_formed(out->Ok_0@),
    {
        let mut elements: Vec<PatternElement> = Vec::new();
        let mut i: usize = 0;
        while i < p.elements.len()
            invariant
                i <= p.elements.len(),
                elements.len() == i,
                forall|j: int|
                    0 <= j < i ==> element_adapter()(#[trigger] p.elements@[j]) == Ok::<
                        PatternElementView,
                        UnsupportedConstruct,
                    >(elements@[j]@),
                forall|j: int| 0 <= j < i ==> (#[trigger] elements@[j])@.well_formed(),
            decreases p.elements.len() - i,
        {
            match PatternElement::from_syntax(&p.elements[i]) {
                Ok(element) => {
                    elements.push(element);
                },
                Err(err) => {
                    proof {
                        lemma_traverse_fails(p.elements@, element_adapter(), i as int);
                    }
                    return Err(err);
                },
            }
            i += 1;
        }
        let out = Pattern { elements };
        proof {
            lemma_traverse_gives(p.elements@, element_adapter(), out@);
        }
        Ok(out)
    }
}

impl Attribute {
    /// Converts a member of a message into an attribute.
    pub fn from_syntax(m: &SyntaxMember) -> (out: Result<Attribute, UnsupportedConstruct>)
        ensures
            agrees(out, adapt_member(*m)),
            out is Ok ==> out->Ok_0@.well_formed(),
    {
        let key = match &m.key {
            SyntaxMemberKey::Keyword { namespace: None, name } => name.clone(),
            _ => {
                return Err(UnsupportedConstruct::MemberKey);
            },
        };
        match Pattern::from_syntax(&m.value) {
            Ok(value) => Ok(Attribute { key, value, is_default: m.default }),
            Err(err) => Err(err),
        }
    }
}

fn members_from_syntax(members: &Option<Vec<SyntaxMember>>) -> (out: Result<
    Vec<Attribute>,
    UnsupportedConstruct,
>)
    ensures
        match out {
            Ok(list) => adapt_members(*members) == Ok::<Seq<AttributeView>, UnsupportedConstruct>(
                attribute_views(list),
            ),
            Err(err) => adapt_members(*members) == Err::<Seq<AttributeView>, UnsupportedConstruct>(
                err,
            ),
        },
        out is Ok ==> forall|i: int|
            0 <= i < out->Ok_0.len() ==> (#[trigger] attribute_views(out->Ok_0)[i]).well_formed(),
{
    let mut out: Vec<Attribute> = Vec::new();
    match members {
        None => {
            assert(attribute_views(out) =~= Seq::empty());
            Ok(out)
        },
        Some(list) => {
            let mut i: usize = 0;
            while i < list.len()
                invariant
                    *members == Some(*list),
                    i <= list.len(),
                    out.len() == i,
                    forall|j: int|
                        0 <= j < i ==> member_adapter()(#[trigger] list@[j]) == Ok::<
                            AttributeView,
                            UnsupportedConstruct,
                        >(out@[j]@),
                    forall|j: int| 0 <= j < i ==> (#[trigger] out@[j])@.well_formed(),
                decreases list.len() - i,
            {
                match Attribute::from_syntax(&list[i]) {
                    Ok(attribute) => {
                        out.push(attribute);
                    },
                    Err(err) => {
                        proof {
                            lemma_traverse_fails(list@, member_adapter(), i as int);
                        }
                        return Err(err);
                    },
                }
                i += 1;
            }
            proof {
                lemma_traverse_gives(list@, member_adapter(), attribute_views(out));
            }
            Ok(out)
        },
    }
}

fn message_from_syntax(m: &SyntaxMessage) -> (out: Result<Entry, UnsupportedConstruct>)
    ensures
        agrees(out, adapt_message(*m)),
        out is Ok ==> out->Ok_0@.well_formed(),
{
    let id = match Identifier::from_syntax(m.id.as_str()) {
        Ok(id) => id,
        Err(err) => {
            return Err(err);
        },
    };
    let pattern = match &m.value {
        Some(pattern) => pattern,
        None => {
            return Err(UnsupportedConstruct::MissingValue);
        },
    };
    if m.comment.is_some() {
        return Err(UnsupportedConstruct::MessageComment);
    }
    let value = match Pattern::from_syntax(pattern) {
        Ok(value) => value,
        Err(err) => {
            return Err(err);
        },
    };
    let attributes = match members_from_syntax(&m.traits) {
        Ok(attributes) => attributes,
        Err(err) => {
            return Err(err);
        },
    };
    if !defaults_are_unique(&attributes) {
        return Err(UnsupportedConstruct::MultipleDefaults);
    }
    Ok(Entry::Message { id, value, attributes })
}

fn section_from_syntax(s: &SyntaxSection) -> (out: Result<Entry, UnsupportedConstruct>)
    ensures
        agrees(out, adapt_section(*s)),
        out is Ok ==> out->Ok_0@.well_formed(),
{
    let name = match Symbol::from_syntax(s.key.as_str()) {
        Ok(name) => name,
        Err(err) => {
            return Err(err);
        },
    };
    if s.body.len() > 0 {
        return Err(UnsupportedConstruct::SectionBody);
    }
    Ok(Entry::Section { name, comment: adapt_comment(&s.comment) })
}

impl Entry {
    /// Converts one entry of a syntax tree.
    pub fn from_syntax(e: &SyntaxEntry) -> (out: Result<Entry, UnsupportedConstruct>)
        ensures
            agrees(out, adapt_entry(*e)),
            out is Ok ==> out->Ok_0@.well_formed(),
    {
        match e {
            SyntaxEntry::Message(m) => message_from_syntax(m),
            SyntaxEntry::Section(s) => section_from_syntax(s),
            SyntaxEntry::Comment(c) => Ok(Entry::Comment(Comment::from_syntax(c.as_str()))),
            SyntaxEntry::Junk(text) => Err(UnsupportedConstruct::Junk),
        }
    }
}

impl Resource {
    /// Converts a syntax tree. The result holds the tree's entries in source
    /// order; the first construct without a counterpart in the model fails
    /// the whole conversion.
    pub fn from_syntax(r: &SyntaxResource) -> (out: Result<Resource, UnsupportedConstruct>)
        ensures
            agrees(out, adapt_resource(*r)),
            out is Ok ==> out->Ok_0@.well_formed(),
    {
        let mut body: Vec<Entry> = Vec::new();
        let mut i: usize = 0;
        while i < r.body.len()
            invariant
                i <= r.body.len(),
                body.len() == i,
                forall|j: int|
                    0 <= j < i ==> entry_adapter()(#[trigger] r.body@[j]) == Ok::<
                        EntryView,
                        UnsupportedConstruct,
                    >(body@[j]@),
                forall|j: int| 0 <= j < i ==> (#[trigger] body@[j])@.well_formed(),
            decreases r.body.len() - i,
        {
            match Entry::from_syntax(&r.body[i]) {
                Ok(entry) => {
                    body.push(entry);
                },
                Err(err) => {
                    proof {
                        lemma_traverse_fails(r.body@, entry_adapter(), i as int);
                    }
                    return Err(err);
                },
            }
            i += 1;
        }
        let out = Resource { body, comment: adapt_comment(&r.comment) };
        proof {
            lemma_traverse_gives(r.body@, entry_adapter(), out@.body);
        }
        Ok(out)
    }
}

} // verus!
