//! From the data model to JSON. A union is an object with a `"type"` field
//! beside the fields of its variant; an identifier or a symbol is its bare
//! name; a missing comment is `null`; a sequence is an array in the same
//! order.

use vstd::prelude::*;
use crate::ir::{
    attribute_views, comment_view, Attribute, AttributeView, Comment, Entry, EntryView, Expression,
    ExpressionView, Identifier, Pattern, PatternElement, PatternElementView, Resource, ResourceView,
    Symbol,
};
use crate::json::{
    array_value, bool_value, empty_object, json_model, json_models, null_value, pretty_text,
    print_value, set_field, string_value, Json,
};

verus! {

/// An object that marks the variant `tag` of a union, before the variant's
/// own fields are added.
pub open spec fn tagged(tag: Seq<char>) -> Map<Seq<char>, Json> {
    Map::empty().insert("type"@, Json::String(tag))
}

/// A comment is an object with its text under `"content"`.
pub open spec fn encode_comment(c: Seq<char>) -> Json {
    Json::Object(Map::empty().insert("content"@, Json::String(c)))
}

/// A missing comment is `null`.
pub open spec fn encode_optional_comment(c: Option<Seq<char>>) -> Json {
    match c {
        Some(c) => encode_comment(c),
        None => Json::Null,
    }
}

/// An expression is an object tagged with its kind.
pub open spec fn encode_expression(e: ExpressionView) -> Json {
    match e {
        ExpressionView::MessageReference { id } => Json::Object(
            tagged("MessageReference"@).insert("id"@, Json::String(id)),
        ),
    }
}

/// The encodings of the expressions, in order.
pub open spec fn encode_expressions(s: Seq<ExpressionView>) -> Seq<Json> {
    s.map_values(|e: ExpressionView| encode_expression(e))
}

/// A pattern element is an object tagged `"Text"` or `"Placeable"`.
pub open spec fn encode_element(e: PatternElementView) -> Json {
    match e {
        PatternElementView::Text { value } => Json::Object(
            tagged("Text"@).insert("value"@, Json::String(value)),
        ),
        PatternElementView::Placeable { expressions } => Json::Object(
            tagged("Placeable"@).insert(
                "expressions"@,
                Json::Array(encode_expressions(expressions)),
            ),
        ),
    }
}

/// The encodings of the elements, in order.
pub open spec fn encode_elements(s: Seq<PatternElementView>) -> Seq<Json> {
    s.map_values(|e: PatternElementView| encode_element(e))
}

/// A pattern is an object with the array of its elements under
/// `"elements"`.
pub open spec fn encode_pattern(p: Seq<PatternElementView>) -> Json {
    Json::Object(Map::empty().insert("elements"@, Json::Array(encode_elements(p))))
}

/// An attribute is an object with its three fields.
pub open spec fn encode_attribute(a: AttributeView) -> Json {
    Json::Object(
        Map::empty().insert("key"@, Json::String(a.key)).insert(
            "value"@,
            encode_pattern(a.value),
        ).insert("is_default"@, Json::Bool(a.is_default)),
    )
}

/// The encodings of the attributes, in order.
pub open spec fn encode_attributes(s: Seq<AttributeView>) -> Seq<Json> {
    s.map_values(|a: AttributeView| encode_attribute(a))
}

/// An entry is an object tagged `"Message"`, `"Section"` or `"Comment"`.
pub open spec fn encode_entry(e: EntryView) -> Json {
    match e {
        EntryView::Message { id, value, attributes } => Json::Object(
            tagged("Message"@).insert("id"@, Json::String(id)).insert(
                "value"@,
                encode_pattern(value),
            ).insert("attributes"@, Json::Array(encode_attributes(attributes))),
        ),
        EntryView::Section { name, comment } => Json::Object(
            tagged("Section"@).insert("name"@, Json::String(name)).insert(
                "comment"@,
                encode_optional_comment(comment),
            ),
        ),
        EntryView::Comment { content } => Json::Object(
            tagged("Comment"@).insert("content"@, Json::String(content)),
        ),
    }
}

/// The encodings of the entries, in order.
pub open spec fn encode_entries(s: Seq<EntryView>) -> Seq<Json> {
    s.map_values(|e: EntryView| encode_entry(e))
}

/// A resource is an object with the array of its entries under `"body"` and
/// its leading comment under `"comment"`.
pub open spec fn encode_resource(r: ResourceView) -> Json {
    Json::Object(
        Map::empty().insert("body"@, Json::Array(encode_entries(r.body))).insert(
            "comment"@,
            encode_optional_comment(r.comment),
        ),
    )
}

fn tagged_object(tag: &str) -> (v: serde_json::Value)
    ensures
        json_model(v) == Json::Object(tagged(tag@)),
{
    let mut v = empty_object();
    set_field(&mut v, "type", string_value(tag));
    v
}

fn optional_comment_to_json(c: &Option<Comment>) -> (v: serde_json::Value)
    ensures
        json_model(v) == encode_optional_comment(comment_view(*c)),
{
    match c {
        Some(c) => c.to_json(),
        None => null_value(),
    }
}

impl Identifier {
    /// An identifier is encoded as its name, a JSON string.
    pub fn to_json(&self) -> (v: serde_json::Value)
        ensures
            json_model(v) == Json::String(self@),
    {
        string_value(self.name.as_str())
    }
}

impl Symbol {
    /// A symbol is encoded as its name, a JSON string.
    pub fn to_json(&self) -> (v: serde_json::Value)
        ensures
            json_model(v) == Json::String(self@),
    {
        string_value(self.name.as_str())
    }
}

impl Comment {
    /// The JSON value that encodes the comment.
    pub fn to_json(&self) -> (v: serde_json::Value)
        ensures
            json_model(v) == encode_comment(self@),
    {
        let mut v = empty_object();
        set_field(&mut v, "content", string_value(self.content.as_str()));
        v
    }
}

impl Expression {
    /// The JSON value that encodes the expression.
    pub fn to_json(&self) -> (v: serde_json::Value)
        ensures
            json_model(v) == encode_expression(self@),
    {
        match self {
            Expression::MessageReference { id } => {
                let mut v = tagged_object("MessageReference");
                set_field(&mut v, "id", id.to_json());
                v
            },
        }
    }
}

impl PatternElement {
    /// The JSON value that encodes the element.
    pub fn to_json(&self) -> (v: serde_json::Value)
        ensures
            json_model(v) == encode_element(self@),
    {
        match self {
            PatternElement::Text { value } => {
                let mut v = tagged_object("Text");
                set_field(&mut v, "value", string_value(value.as_str()));
                v
            },
            PatternElement::Placeable { expressions } => {
                let mut items: Vec<serde_json::Value> = Vec::new();
                let mut i: usize = 0;
                while i < expressions.len()
                    invariant
                        i <= expressions.len(),
                        items.len() == i,
                        forall|j: int|
                            0 <= j < i ==> json_model(#[trigger] items@[j]) == encode_expression(
                                expressions@[j]@,
                            ),
                    decreases expressions.len() - i,
                {
                    items.push(expressions[i].to_json());
                    i += 1;
                }
                assert(json_models(items) =~= encode_expressions(self@->expressions));
                let mut v = tagged_object("Placeable");
                set_field(&mut v, "expressions", array_value(items));
                v
            },
        }
    }
}

impl Pattern {
    /// The JSON value that encodes the pattern.
    pub fn to_json(&self) -> (v: serde_json::Value)
        ensures
            json_model(v) == encode_pattern(self@),
    {
        let mut items: Vec<serde_json::Value> = Vec::new();
        let mut i: usize = 0;
        while i < self.elements.len()
            invariant
                i <= self.elements.len(),
                items.len() == i,
                forall|j: int|
                    0 <= j < i ==> json_model(#[trigger] items@[j]) == encode_element(
                        self.elements@[j]@,
                    ),
            decreases self.elements.len() - i,
        {
            items.push(self.elements[i].to_json());
            i += 1;
        }
        assert(json_models(items) =~= encode_elements(self@));
        let mut v = empty_object();
        set_field(&mut v, "elements", array_value(items));
        v
    }
}

impl Attribute {
    /// The JSON value that encodes the attribute.
    pub fn to_json(&self) -> (v: serde_json::Value)
        ensures
            json_model(v) == encode_attribute(self@),
    {
        let mut v = empty_object();
        set_field(&mut v, "key", string_value(self.key.as_str()));
        set_field(&mut v, "value", self.value.to_json());
        set_field(&mut v, "is_default", bool_value(self.is_default));
        v
    }
}

fn attributes_to_json(attributes: &Vec<Attribute>) -> (v: serde_json::Value)
    ensures
        json_model(v) == Json::Array(encode_attributes(attribute_views(*attributes))),
{
    let mut items: Vec<serde_json::Value> = Vec::new();
    let mut i: usize = 0;
    while i < attributes.len()
        invariant
            i <= attributes.len(),
            items.len() == i,
            forall|j: int|
                0 <= j < i ==> json_model(#[trigger] items@[j]) == encode_attribute(
                    attributes@[j]@,
                ),
        decreases attributes.len() - i,
    {
        items.push(attributes[i].to_json());
        i += 1;
    }
    assert(json_models(items) =~= encode_attributes(attribute_views(*attributes)));
    array_value(items)
}

impl Entry {
    /// The JSON value that encodes the entry.
    pub fn to_json(&self) -> (v: serde_json::Value)
        ensures
            json_model(v) == encode_entry(self@),
    {
        match self {
            Entry::Message { id, value, attributes } => {
                let mut v = tagged_object("Message");
                set_field(&mut v, "id", id.to_json());
                set_field(&mut v, "value", value.to_json());
                set_field(&mut v, "attributes", attributes_to_json(attributes));
                v
            },
            Entry::Section { name, comment } => {
                let mut v = tagged_object("Section");
                set_field(&mut v, "name", name.to_json());
                set_field(&mut v, "comment", optional_comment_to_json(comment));
                v
            },
            Entry::Comment(c) => {
                let mut v = tagged_object("Comment");
                set_field(&mut v, "content", string_value(c.content.as_str()));
                v
            },
        }
    }
}

impl Resource {
    /// The JSON value that encodes the resource.
    pub fn to_json(&self) -> (v: serde_json::Value)
        ensures
            json_model(v) == encode_resource(self@),
    {
        let mut items: Vec<serde_json::Value> = Vec::new();
        let mut i: usize = 0;
        while i < self.body.len()
            invariant
                i <= self.body.len(),
                items.len() == i,
                forall|j: int|
                    0 <= j < i ==> json_model(#[trigger] items@[j]) == encode_entry(
                        self.body@[j]@,
                    ),
            decreases self.body.len() - i,
        {
            items.push(self.body[i].to_json());
            i += 1;
        }
        assert(json_models(items) =~= encode_entries(self@.body));
        let mut v = empty_object();
        set_field(&mut v, "body", array_value(items));
        set_field(&mut v, "comment", optional_comment_to_json(&self.comment));
        v
    }
}

/// The resource as pretty-printed JSON text: the text that `serde_json`
/// prints for the value that encodes the resource.
pub fn serialize_json(res: &Resource) -> (text: String)
    ensures
        text@ == pretty_text(encode_resource(res@)),
{
    let v = res.to_json();
    print_value(&v).unwrap()
}

} // verus!
