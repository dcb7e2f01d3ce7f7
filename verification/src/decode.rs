//! From JSON back to the data model. An object may hold fields that the model
//! does not know: they are passed over. Everything else has to be as the
//! encoding writes it, and the first deviation fails the decoding.

use vstd::prelude::*;
use crate::error::DecodeError;
use crate::ir::{
    at_most_one_default, attribute_views, comment_view, defaults_are_unique, pattern_well_formed,
    Attribute, AttributeView, Comment, Entry, EntryView, Expression, ExpressionView, Identifier,
    Pattern, PatternElement, PatternElementView, Resource, ResourceView, Symbol,
};
use crate::json::{
    as_array, as_bool, as_str, field, get_field, is_null, is_object, json_model, json_models,
    parse_value, parsed_text, Json,
};
use crate::traverse::{agrees, lemma_traverse_fails, lemma_traverse_gives, traverse};

verus! {

/// The field `key` of the object `j`, which has to be there.
pub open spec fn required(j: Json, key: Seq<char>) -> Result<Json, DecodeError> {
    match j {
        Json::Object(fields) => if fields.dom().contains(key) {
            Ok(fields[key])
        } else {
            Err(DecodeError::MissingField)
        },
        _ => Err(DecodeError::TypeMismatch),
    }
}

/// The field `key` of `j`, where it is there and not `null`.
pub open spec fn optional(j: Json, key: Seq<char>) -> Option<Json> {
    match field(j, key) {
        Some(Json::Null) => None,
        Some(x) => Some(x),
        None => None,
    }
}

/// A string, as it is.
pub open spec fn decode_string(j: Json) -> Result<Seq<char>, DecodeError> {
    match j {
        Json::String(s) => Ok(s),
        _ => Err(DecodeError::TypeMismatch),
    }
}

/// A boolean, as it is.
pub open spec fn decode_bool(j: Json) -> Result<bool, DecodeError> {
    match j {
        Json::Bool(b) => Ok(b),
        _ => Err(DecodeError::TypeMismatch),
    }
}

/// An identifier or a symbol: a string that is not empty.
pub open spec fn decode_name(j: Json) -> Result<Seq<char>, DecodeError> {
    match j {
        Json::String(s) => if s.len() == 0 {
            Err(DecodeError::EmptyName)
        } else {
            Ok(s)
        },
        _ => Err(DecodeError::TypeMismatch),
    }
}

/// The discriminant of an object that encodes a union.
pub open spec fn decode_tag(j: Json) -> Result<Seq<char>, DecodeError> {
    match j {
        Json::Object(fields) => if fields.dom().contains("type"@) {
            decode_string(fields["type"@])
        } else {
            Err(DecodeError::MissingTag)
        },
        _ => Err(DecodeError::TypeMismatch),
    }
}

/// The items of an array, each decoded by `f`, in order.
pub open spec fn decode_array<T>(j: Json, f: spec_fn(Json) -> Result<T, DecodeError>) -> Result<
    Seq<T>,
    DecodeError,
> {
    match j {
        Json::Array(items) => traverse(items, f),
        _ => Err(DecodeError::TypeMismatch),
    }
}

/// The field `key` of `j`, decoded by `f`.
pub open spec fn decode_field<T>(
    j: Json,
    key: Seq<char>,
    f: spec_fn(Json) -> Result<T, DecodeError>,
) -> Result<T, DecodeError> {
    match required(j, key) {
        Ok(x) => f(x),
        Err(err) => Err(err),
    }
}

/// A comment is read from the `"content"` of an object.
pub open spec fn decode_comment(j: Json) -> Result<Seq<char>, DecodeError> {
    decode_field(j, "content"@, |x: Json| decode_string(x))
}

/// The comment under `"comment"`; a field that is absent or `null` is no
/// comment.
pub open spec fn decode_optional_comment(j: Json) -> Result<Option<Seq<char>>, DecodeError> {
    match optional(j, "comment"@) {
        None => Ok(None),
        Some(x) => match decode_comment(x) {
            Ok(c) => Ok(Some(c)),
            Err(err) => Err(err),
        },
    }
}

/// An expression is decoded as the variant that its `"type"` names.
pub open spec fn decode_expression(j: Json) -> Result<ExpressionView, DecodeError> {
    match decode_tag(j) {
        Err(err) => Err(err),
        Ok(tag) => if tag == "MessageReference"@ {
            match decode_field(j, "id"@, |x: Json| decode_name(x)) {
                Ok(id) => Ok(ExpressionView::MessageReference { id }),
                Err(err) => Err(err),
            }
        } else {
            Err(DecodeError::UnknownTag)
        },
    }
}

/// `decode_expression` as a function value.
pub open spec fn expression_decoder() -> spec_fn(Json) -> Result<ExpressionView, DecodeError> {
    |j: Json| decode_expression(j)
}

/// A pattern element is decoded as the variant that its `"type"` names.
pub open spec fn decode_element(j: Json) -> Result<PatternElementView, DecodeError> {
    match decode_tag(j) {
        Err(err) => Err(err),
        Ok(tag) => if tag == "Text"@ {
            match decode_field(j, "value"@, |x: Json| decode_string(x)) {
                Ok(value) => Ok(PatternElementView::Text { value }),
                Err(err) => Err(err),
            }
        } else if tag == "Placeable"@ {
            match decode_field(
                j,
                "expressions"@,
                |x: Json| decode_array(x, expression_decoder()),
            ) {
                Ok(expressions) => Ok(PatternElementView::Placeable { expressions }),
                Err(err) => Err(err),
            }
        } else {
            Err(DecodeError::UnknownTag)
        },
    }
}

/// `decode_element` as a function value.
pub open spec fn element_decoder() -> spec_fn(Json) -> Result<PatternElementView, DecodeError> {
    |j: Json| decode_element(j)
}

/// A pattern is read from the array under `"elements"`.
pub open spec fn decode_pattern(j: Json) -> Result<Seq<PatternElementView>, DecodeError> {
    decode_field(j, "elements"@, |x: Json| decode_array(x, element_decoder()))
}

/// An attribute needs its three fields.
pub open spec fn decode_attribute(j: Json) -> Result<AttributeView, DecodeError> {
    match decode_field(j, "key"@, |x: Json| decode_string(x)) {
        Err(err) => Err(err),
        Ok(key) => match decode_field(j, "value"@, |x: Json| decode_pattern(x)) {
            Err(err) => Err(err),
            Ok(value) => match decode_field(j, "is_default"@, |x: Json| decode_bool(x)) {
                Err(err) => Err(err),
                Ok(is_default) => Ok(AttributeView { key, value, is_default }),
            },
        },
    }
}

/// `decode_attribute` as a function value.
pub open spec fn attribute_decoder() -> spec_fn(Json) -> Result<AttributeView, DecodeError> {
    |j: Json| decode_attribute(j)
}

/// The attributes of a message. A document written before messages had
/// attributes has no such field: it decodes to the empty list.
pub open spec fn decode_attributes(j: Json) -> Result<Seq<AttributeView>, DecodeError> {
    match field(j, "attributes"@) {
        None => Ok(Seq::empty()),
        Some(x) => decode_array(x, attribute_decoder()),
    }
}

/// A message needs a name and a value; at most one of its attributes may be
/// the default.
pub open spec fn decode_message(j: Json) -> Result<EntryView, DecodeError> {
    match decode_field(j, "id"@, |x: Json| decode_name(x)) {
        Err(err) => Err(err),
        Ok(id) => match decode_field(j, "value"@, |x: Json| decode_pattern(x)) {
            Err(err) => Err(err),
            Ok(value) => match decode_attributes(j) {
                Err(err) => Err(err),
                Ok(attributes) => if at_most_one_default(attributes) {
                    Ok(EntryView::Message { id, value, attributes })
                } else {
                    Err(DecodeError::MultipleDefaults)
                },
            },
        },
    }
}

/// A section needs a name; its comment may be missing.
pub open spec fn decode_section(j: Json) -> Result<EntryView, DecodeError> {
    match decode_field(j, "name"@, |x: Json| decode_name(x)) {
        Err(err) => Err(err),
        Ok(name) => match decode_optional_comment(j) {
            Err(err) => Err(err),
            Ok(comment) => Ok(EntryView::Section { name, comment }),
        },
    }
}

/// An entry is decoded as the variant that its `"type"` field names; an
/// object that names none of the three is refused.
pub open spec fn decode_entry(j: Json) -> Result<EntryView, DecodeError> {
    match decode_tag(j) {
        Err(err) => Err(err),
        Ok(tag) => if tag == "Message"@ {
            decode_message(j)
        } else if tag == "Section"@ {
            decode_section(j)
        } else if tag == "Comment"@ {
            match decode_comment(j) {
                Ok(content) => Ok(EntryView::Comment { content }),
                Err(err) => Err(err),
            }
        } else {
            Err(DecodeError::UnknownTag)
        },
    }
}

/// `decode_entry` as a function value.
pub open spec fn entry_decoder() -> spec_fn(Json) -> Result<EntryView, DecodeError> {
    |j: Json| decode_entry(j)
}

/// A resource needs the array of its entries under `"body"`; its leading
/// comment may be missing.
pub open spec fn decode_resource(j: Json) -> Result<ResourceView, DecodeError> {
    match decode_field(j, "body"@, |x: Json| decode_array(x, entry_decoder())) {
        Err(err) => Err(err),
        Ok(body) => match decode_optional_comment(j) {
            Err(err) => Err(err),
            Ok(comment) => Ok(ResourceView { body, comment }),
        },
    }
}

/// What a text decodes to: it has to be JSON, and that JSON the encoding of a
/// resource.
pub open spec fn decode_text(text: Seq<char>) -> Result<ResourceView, DecodeError> {
    match parsed_text(text) {
        Some(j) => decode_resource(j),
        None => Err(DecodeError::Syntax),
    }
}

/// The outcome of reading one JSON value agrees with what the model says of
/// it.
pub open spec fn field_agrees(
    out: Result<&serde_json::Value, DecodeError>,
    expected: Result<Json, DecodeError>,
) -> bool {
    match out {
        Ok(x) => expected == Ok::<Json, DecodeError>(json_model(*x)),
        Err(err) => expected == Err::<Json, DecodeError>(err),
    }
}

fn required_field<'a>(v: &'a serde_json::Value, key: &str) -> (out: Result<
    &'a serde_json::Value,
    DecodeError,
>)
    ensures
        field_agrees(out, required(json_model(*v), key@)),
{
    if !is_object(v) {
        return Err(DecodeError::TypeMismatch);
    }
    match get_field(v, key) {
        Some(x) => Ok(x),
        None => Err(DecodeError::MissingField),
    }
}

fn string_from_json(v: &serde_json::Value) -> (out: Result<String, DecodeError>)
    ensures
        agrees(out, decode_string(json_model(*v))),
{
    match as_str(v) {
        Some(s) => Ok(s.to_owned()),
        None => Err(DecodeError::TypeMismatch),
    }
}

fn bool_from_json(v: &serde_json::Value) -> (out: Result<bool, DecodeError>)
    ensures
        out == decode_bool(json_model(*v)),
{
    match as_bool(v) {
        Some(b) => Ok(b),
        None => Err(DecodeError::TypeMismatch),
    }
}

fn name_from_json(v: &serde_json::Value) -> (out: Result<String, DecodeError>)
    ensures
        agrees(out, decode_name(json_model(*v))),
{
    match as_str(v) {
        Some(s) => if s.is_empty() {
            Err(DecodeError::EmptyName)
        } else {
            Ok(s.to_owned())
        },
        None => Err(DecodeError::TypeMismatch),
    }
}

fn tag_from_json(v: &serde_json::Value) -> (out: Result<String, DecodeError>)
    ensures
        agrees(out, decode_tag(json_model(*v))),
{
    if !is_object(v) {
        return Err(DecodeError::TypeMismatch);
    }
    match get_field(v, "type") {
        Some(x) => string_from_json(x),
        None => Err(DecodeError::MissingTag),
    }
}

fn is_tag(tag: &String, name: &str) -> (same: bool)
    ensures
        same == (tag@ == name@),
{
    let name = name.to_owned();
    *tag == name
}

fn optional_comment_from_json(v: &serde_json::Value) -> (out: Result<Option<Comment>, DecodeError>)
    ensures
        match out {
            Ok(c) => decode_optional_comment(json_model(*v)) == Ok::<
                Option<Seq<char>>,
                DecodeError,
            >(comment_view(c)),
            Err(err) => decode_optional_comment(json_model(*v)) == Err::<
                Option<Seq<char>>,
                DecodeError,
            >(err),
        },
{
    match get_field(v, "comment") {
        None => Ok(None),
        Some(x) => {
            if is_null(x) {
                Ok(None)
            } else {
                match Comment::from_json(x) {
                    Ok(c) => Ok(Some(c)),
                    Err(err) => Err(err),
                }
            }
        },
    }
}

impl Identifier {
    /// An identifier is read from a JSON string that is not empty.
    pub fn from_json(v: &serde_json::Value) -> (out: Result<Identifier, DecodeError>)
        ensures
            agrees(out, decode_name(json_model(*v))),
    {
        match name_from_json(v) {
            Ok(name) => Ok(Identifier { name }),
            Err(err) => Err(err),
        }
    }
}

impl Symbol {
    /// A symbol is read from a JSON string that is not empty.
    pub fn from_json(v: &serde_json::Value) -> (out: Result<Symbol, DecodeError>)
        ensures
            agrees(out, decode_name(json_model(*v))),
    {
        match name_from_json(v) {
            Ok(name) => Ok(Symbol { name }),
            Err(err) => Err(err),
        }
    }
}

impl Comment {
    /// Reads a comment from the JSON value that encodes it.
    pub fn from_json(v: &serde_json::Value) -> (out: Result<Comment, DecodeError>)
        ensures
            agrees(out, decode_comment(json_model(*v))),
    {
        let x = match required_field(v, "content") {
            Ok(x) => x,
            Err(err) => {
                return Err(err);
            },
        };
        match string_from_json(x) {
            Ok(content) => Ok(Comment { content }),
            Err(err) => Err(err),
        }
    }
}

impl Expression {
    /// Reads an expression from the JSON value that encodes it.
    pub fn from_json(v: &serde_json::Value) -> (out: Result<Expression, DecodeError>)
        ensures
            agrees(out, decode_expression(json_model(*v))),
            out is Ok ==> out->Ok_0@.well_formed(),
    {
        let tag = match tag_from_json(v) {
            Ok(tag) => tag,
            Err(err) => {
                return Err(err);
            },
        };
        if !is_tag(&tag, "MessageReference") {
            return Err(DecodeError::UnknownTag);
        }
        let x = match required_field(v, "id") {
            Ok(x) => x,
            Err(err) => {
                return Err(err);
            },
        };
        match Identifier::from_json(x) {
            Ok(id) => Ok(Expression::MessageReference { id }),
            Err(err) => Err(err),
        }
    }
}

fn expressions_from_json(v: &serde_json::Value) -> (out: Result<Vec<Expression>, DecodeError>)
    ensures
        match out {
            Ok(list) => decode_array(json_model(*v), expression_decoder()) == Ok::<
                Seq<ExpressionView>,
                DecodeError,
            >(list@.map_values(|x: Expression| x@)),
            Err(err) => decode_array(json_model(*v), expression_decoder()) == Err::<
                Seq<ExpressionView>,
                DecodeError,
            >(err),
        },
        out is Ok ==> forall|i: int|
            0 <= i < out->Ok_0.len() ==> (#[trigger] out->Ok_0@[i])@.well_formed(),
{
    let items = match as_array(v) {
        Some(items) => items,
        None => {
            return Err(DecodeError::TypeMismatch);
        },
    };
    let ghost models = json_models(*items);
    let mut out: Vec<Expression> = Vec::new();
    let mut i: usize = 0;
    while i < items.len()
        invariant
            models == json_models(*items),
            json_model(*v) == Json::Array(models),
            i <= items.len(),
            out.len() == i,
            forall|j: int|
                0 <= j < i ==> expression_decoder()(#[trigger] models[j]) == Ok::<
                    ExpressionView,
                    DecodeError,
                >(out@[j]@),
            forall|j: int| 0 <= j < i ==> (#[trigger] out@[j])@.well_formed(),
        decreases items.len() - i,
    {
        match Expression::from_json(&items[i]) {
            Ok(x) => {
                out.push(x);
            },
            Err(err) => {
                proof {
                    lemma_traverse_fails(models, expression_decoder(), i as int);
                }
                return Err(err);
            },
        }
        i += 1;
    }
    proof {
        lemma_traverse_gives(models, expression_decoder(), out@.map_values(|x: Expression| x@));
    }
    Ok(out)
}

impl PatternElement {
    /// Reads a pattern element from the JSON value that encodes it.
    pub fn from_json(v: &serde_json::Value) -> (out: Result<PatternElement, DecodeError>)
        ensures
            agrees(out, decode_element(json_model(*v))),
            out is Ok ==> out->Ok_0@.well_formed(),
    {
        let tag = match tag_from_json(v) {
            Ok(tag) => tag,
            Err(err) => {
                return Err(err);
            },
        };
        if is_tag(&tag, "Text") {
            let x = match required_field(v, "value") {
                Ok(x) => x,
                Err(err) => {
                    return Err(err);
                },
            };
            match string_from_json(x) {
                Ok(value) => Ok(PatternElement::Text { value }),
                Err(err) => Err(err),
            }
        } else if is_tag(&tag, "Placeable") {
            let x = match required_field(v, "expressions") {
                Ok(x) => x,
                Err(err) => {
                    return Err(err);
                },
            };
            match expressions_from_json(x) {
                Ok(expressions) => Ok(PatternElement::Placeable { expressions }),
                Err(err) => Err(err),
            }
        } else {
            Err(DecodeError::UnknownTag)
        }
    }
}

fn elements_from_json(v: &serde_json::Value) -> (out: Result<Vec<PatternElement>, DecodeError>)
    ensures
        match out {
            Ok(list) => decode_array(json_model(*v), element_decoder()) == Ok::<
                Seq<PatternElementView>,
                DecodeError,
            >(list@.map_values(|x: PatternElement| x@)),
            Err(err) => decode_array(json_model(*v), element_decoder()) == Err::<
                Seq<PatternElementView>,
                DecodeError,
            >(err),
        },
        out is Ok ==> forall|i: int|
            0 <= i < out->Ok_0.len() ==> (#[trigger] out->Ok_0@[i])@.well_formed(),
{
    let items = match as_array(v) {
        Some(items) => items,
        None => {
            return Err(DecodeError::TypeMismatch);
        },
    };
    let ghost models = json_models(*items);
    let mut out: Vec<PatternElement> = Vec::new();
    let mut i: usize = 0;
    while i < items.len()
        invariant
            models == json_models(*items),
            json_model(*v) == Json::Array(models),
            i <= items.len(),
            out.len() == i,
            forall|j: int|
                0 <= j < i ==> element_decoder()(#[trigger] models[j]) == Ok::<
                    PatternElementView,
                    DecodeError,
                >(out@[j]@),
            forall|j: int| 0 <= j < i ==> (#[trigger] out@[j])@.well_formed(),
        decreases items.len() - i,
    {
        match PatternElement::from_json(&items[i]) {
            Ok(x) => {
                out.push(x);
            },
            Err(err) => {
                proof {
                    lemma_traverse_fails(models, element_decoder(), i as int);
                }
                return Err(err);
            },
        }
        i += 1;
    }
    proof {
        lemma_traverse_gives(models, element_decoder(), out@.map_values(|x: PatternElement| x@));
    }
    Ok(out)
}

impl Pattern {
    /// Reads a pattern from the JSON value that encodes it.
    pub fn from_json(v: &serde_json::Value) -> (out: Result<Pattern, DecodeError>)
        ensures
            agrees(out, decode_pattern(json_model(*v))),
            out is Ok ==> pattern_well_formed(out->Ok_0@),
    {
        let x = match required_field(v, "elements") {
            Ok(x) => x,
            Err(err) => {
                return Err(err);
            },
        };
        match elements_from_json(x) {
            Ok(elements) => Ok(Pattern { elements }),
            Err(err) => Err(err),
        }
    }
}

impl Attribute {
    /// Reads an attribute from the JSON value that encodes it.
    pub fn from_json(v: &serde_json::Value) -> (out: Result<Attribute, DecodeError>)
        ensures
            agrees(out, decode_attribute(json_model(*v))),
            out is Ok ==> out->Ok_0@.well_formed(),
    {
        let key = match required_field(v, "key") {
            Ok(x) => match string_from_json(x) {
                Ok(key) => key,
                Err(err) => {
                    return Err(err);
                },
            },
            Err(err) => {
                return Err(err);
            },
        };
        let value = match required_field(v, "value") {
            Ok(x) => match Pattern::from_json(x) {
                Ok(value) => value,
                Err(err) => {
                    return Err(err);
                },
            },
            Err(err) => {
                return Err(err);
            },
        };
        let is_default = match required_field(v, "is_default") {
            Ok(x) => match bool_from_json(x) {
                Ok(b) => b,
                Err(err) => {
                    return Err(err);
                },
            },
            Err(err) => {
                return Err(err);
            },
        };
        Ok(Attribute { key, value, is_default })
    }
}

fn attributes_from_json(v: &serde_json::Value) -> (out: Result<Vec<Attribute>, DecodeError>)
    ensures
        match out {
            Ok(list) => decode_array(json_model(*v), attribute_decoder()) == Ok::<
                Seq<AttributeView>,
                DecodeError,
            >(list@.map_values(|x: Attribute| x@)),
            Err(err) => decode_array(json_model(*v), attribute_decoder()) == Err::<
                Seq<AttributeView>,
                DecodeError,
            >(err),
        },
        out is Ok ==> forall|i: int|
            0 <= i < out->Ok_0.len() ==> (#[trigger] out->Ok_0@[i])@.well_formed(),
{
    let items = match as_array(v) {
        Some(items) => items,
        None => {
            return Err(DecodeError::TypeMismatch);
        },
    };
    let ghost models = json_models(*items);
    let mut out: Vec<Attribute> = Vec::new();
    let mut i: usize = 0;
    while i < items.len()
        invariant
            models == json_models(*items),
            json_model(*v) == Json::Array(models),
            i <= items.len(),
            out.len() == i,
            forall|j: int|
                0 <= j < i ==> attribute_decoder()(#[trigger] models[j]) == Ok::<
                    AttributeView,
                    DecodeError,
                >(out@[j]@),
            forall|j: int| 0 <= j < i ==> (#[trigger] out@[j])@.well_formed(),
        decreases items.len() - i,
    {
        match Attribute::from_json(&items[i]) {
            Ok(x) => {
                out.push(x);
            },
            Err(err) => {
                proof {
                    lemma_traverse_fails(models, attribute_decoder(), i as int);
                }
                return Err(err);
            },
        }
        i += 1;
    }
    proof {
        lemma_traverse_gives(models, attribute_decoder(), out@.map_values(|x: Attribute| x@));
    }
    Ok(out)
}

fn message_from_json(v: &serde_json::Value) -> (out: Result<Entry, DecodeError>)
    ensures
        agrees(out, decode_message(json_model(*v))),
        out is Ok ==> out->Ok_0@.well_formed(),
{
    let id = match required_field(v, "id") {
        Ok(x) => match Identifier::from_json(x) {
            Ok(id) => id,
            Err(err) => {
                return Err(err);
            },
        },
        Err(err) => {
            return Err(err);
        },
    };
    let value = match required_field(v, "value") {
        Ok(x) => match Pattern::from_json(x) {
            Ok(value) => value,
            Err(err) => {
                return Err(err);
            },
        },
        Err(err) => {
            return Err(err);
        },
    };
    let attributes = match get_field(v, "attributes") {
        Some(x) => match attributes_from_json(x) {
            Ok(attributes) => attributes,
            Err(err) => {
                return Err(err);
            },
        },
        None => {
            let none: Vec<Attribute> = Vec::new();
            assert(attribute_views(none) =~= Seq::empty());
            none
        },
    };
    if !defaults_are_unique(&attributes) {
        return Err(DecodeError::MultipleDefaults);
    }
    Ok(Entry::Message { id, value, attributes })
}

fn section_from_json(v: &serde_json::Value) -> (out: Result<Entry, DecodeError>)
    ensures
        agrees(out, decode_section(json_model(*v))),
        out is Ok ==> out->Ok_0@.well_formed(),
{
    let name = match required_field(v, "name") {
        Ok(x) => match Symbol::from_json(x) {
            Ok(name) => name,
            Err(err) => {
                return Err(err);
            },
        },
        Err(err) => {
            return Err(err);
        },
    };
    match optional_comment_from_json(v) {
        Ok(comment) => Ok(Entry::Section { name, comment }),
        Err(err) => Err(err),
    }
}

impl Entry {
    /// Reads an entry from the JSON value that encodes it.
    pub fn from_json(v: &serde_json::Value) -> (out: Result<Entry, DecodeError>)
        ensures
            agrees(out, decode_entry(json_model(*v))),
            out is Ok ==> out->Ok_0@.well_formed(),
    {
        let tag = match tag_from_json(v) {
            Ok(tag) => tag,
            Err(err) => {
                return Err(err);
            },
        };
        if is_tag(&tag, "Message") {
            message_from_json(v)
        } else if is_tag(&tag, "Section") {
            section_from_json(v)
        } else if is_tag(&tag, "Comment") {
            match Comment::from_json(v) {
                Ok(c) => Ok(Entry::Comment(c)),
                Err(err) => Err(err),
            }
        } else {
            Err(DecodeError::UnknownTag)
        }
    }
}

fn entries_from_json(v: &serde_json::Value) -> (out: Result<Vec<Entry>, DecodeError>)
    ensures
        match out {
            Ok(list) => decode_array(json_model(*v), entry_decoder()) == Ok::<
                Seq<EntryView>,
                DecodeError,
            >(list@.map_values(|x: Entry| x@)),
            Err(err) => decode_array(json_model(*v), entry_decoder()) == Err::<
                Seq<EntryView>,
                DecodeError,
            >(err),
        },
        out is Ok ==> forall|i: int|
            0 <= i < out->Ok_0.len() ==> (#[trigger] out->Ok_0@[i])@.well_formed(),
{
    let items = match as_array(v) {
        Some(items) => items,
        None => {
            return Err(DecodeError::TypeMismatch);
        },
    };
    let ghost models = json_models(*items);
    let mut out: Vec<Entry> = Vec::new();
    let mut i: usize = 0;
    while i < items.len()
        invariant
            models == json_models(*items),
            json_model(*v) == Json::Array(models),
            i <= items.len(),
            out.len() == i,
            forall|j: int|
                0 <= j < i ==> entry_decoder()(#[trigger] models[j]) == Ok::<
                    EntryView,
                    DecodeError,
                >(out@[j]@),
            forall|j: int| 0 <= j < i ==> (#[trigger] out@[j])@.well_formed(),
        decreases items.len() - i,
    {
        match Entry::from_json(&items[i]) {
            Ok(x) => {
                out.push(x);
            },
            Err(err) => {
                proof {
                    lemma_traverse_fails(models, entry_decoder(), i as int);
                }
                return Err(err);
            },
        }
        i += 1;
    }
    proof {
        lemma_traverse_gives(models, entry_decoder(), out@.map_values(|x: Entry| x@));
    }
    Ok(out)
}

impl Resource {
    /// Reads a resource from the JSON value that encodes it.
    pub fn from_json(v: &serde_json::Value) -> (out: Result<Resource, DecodeError>)
        ensures
            agrees(out, decode_resource(json_model(*v))),
            out is Ok ==> out->Ok_0@.well_formed(),
    {
        let body = match required_field(v, "body") {
            Ok(x) => match entries_from_json(x) {
                Ok(body) => body,
                Err(err) => {
                    return Err(err);
                },
            },
            Err(err) => {
                return Err(err);
            },
        };
        match optional_comment_from_json(v) {
            Ok(comment) => Ok(Resource { body, comment }),
            Err(err) => Err(err),
        }
    }
}

/// Reads a resource from JSON text: the text has to be JSON, and the value it
/// denotes the encoding of a resource.
pub fn deserialize_json(text: &str) -> (out: Result<Resource, DecodeError>)
    ensures
        agrees(out, decode_text(text@)),
        out is Ok ==> out->Ok_0@.well_formed(),
{
    match parse_value(text) {
        Ok(v) => Resource::from_json(&v),
        Err(_) => Err(DecodeError::Syntax),
    }
}

} // verus!
