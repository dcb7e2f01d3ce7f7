//! What holds of the conversion and of the encoding as a whole.

use vstd::prelude::*;
use crate::adapter::{
    adapt_element, adapt_entry, adapt_members, adapt_message, adapt_pattern, adapt_resource,
    element_adapter, entry_adapter, expression_adapter, member_adapter,
};
use crate::decode::{
    attribute_decoder, decode_attribute, decode_element, decode_entry, decode_expression,
    decode_name, decode_pattern, decode_resource, decode_tag, element_decoder, entry_decoder,
    expression_decoder, required,
};
use crate::encode::{
    encode_attribute, encode_attributes, encode_element, encode_elements, encode_entries,
    encode_entry, encode_expression, encode_expressions, encode_pattern, encode_resource,
};
use crate::error::{DecodeError, UnsupportedConstruct};
use crate::ir::{
    pattern_well_formed, AttributeView, EntryView, ExpressionView, PatternElementView,
    ResourceView,
};
use crate::json::{field, Json};
use crate::syntax::{
    SyntaxElement, SyntaxEntry, SyntaxMessage, SyntaxPattern, SyntaxResource,
};
use crate::traverse::{lemma_traverse_gives, lemma_traverse_keeps_order, traverse};

verus! {

/// The keys of one object are pairwise different, and so are the tags of one
/// union.
proof fn lemma_literals_differ()
    ensures
        "type"@ != "id"@,
        "type"@ != "value"@,
        "type"@ != "attributes"@,
        "type"@ != "name"@,
        "type"@ != "comment"@,
        "type"@ != "content"@,
        "type"@ != "expressions"@,
        "id"@ != "value"@,
        "id"@ != "attributes"@,
        "value"@ != "attributes"@,
        "name"@ != "comment"@,
        "key"@ != "value"@,
        "key"@ != "is_default"@,
        "value"@ != "is_default"@,
        "body"@ != "comment"@,
        "Message"@ != "Section"@,
        "Message"@ != "Comment"@,
        "Section"@ != "Comment"@,
        "Text"@ != "Placeable"@,
{
    reveal_strlit("type");
    reveal_strlit("id");
    reveal_strlit("value");
    reveal_strlit("attributes");
    reveal_strlit("name");
    reveal_strlit("comment");
    reveal_strlit("content");
    reveal_strlit("expressions");
    reveal_strlit("key");
    reveal_strlit("is_default");
    reveal_strlit("body");
    reveal_strlit("Message");
    reveal_strlit("Section");
    reveal_strlit("Comment");
    reveal_strlit("Text");
    reveal_strlit("Placeable");
    assert("type"@.len() == 4);
    assert("id"@.len() == 2);
    assert("value"@.len() == 5);
    assert("attributes"@.len() == 10);
    assert("name"@.len() == 4);
    assert("comment"@.len() == 7);
    assert("content"@.len() == 7);
    assert("expressions"@.len() == 11);
    assert("key"@.len() == 3);
    assert("is_default"@.len() == 10);
    assert("body"@.len() == 4);
    assert("Message"@.len() == 7);
    assert("Section"@.len() == 7);
    assert("Comment"@.len() == 7);
    assert("Text"@.len() == 4);
    assert("Placeable"@.len() == 9);
    assert("type"@[0] != "name"@[0]);
    assert("Message"@[0] != "Section"@[0]);
    assert("Message"@[0] != "Comment"@[0]);
    assert("Section"@[0] != "Comment"@[0]);
}

/// An identifier is encoded as the JSON string of its name, and that string
/// decodes to the same identifier.
pub proof fn lemma_name_round_trip(name: Seq<char>)
    requires
        name.len() > 0,
    ensures
        decode_name(Json::String(name)) == Ok::<Seq<char>, DecodeError>(name),
{
}

/// An expression is read back unchanged from its encoding.
pub proof fn lemma_expression_round_trip(e: ExpressionView)
    requires
        e.well_formed(),
    ensures
        decode_expression(encode_expression(e)) == Ok::<ExpressionView, DecodeError>(e),
{
    lemma_literals_differ();
}

/// A pattern element is read back unchanged from its encoding.
pub proof fn lemma_element_round_trip(e: PatternElementView)
    requires
        e.well_formed(),
    ensures
        decode_element(encode_element(e)) == Ok::<PatternElementView, DecodeError>(e),
{
    lemma_literals_differ();
    match e {
        PatternElementView::Text { value } => {},
        PatternElementView::Placeable { expressions } => {
            assert forall|i: int| 0 <= i < expressions.len() implies expression_decoder()(
                #[trigger] encode_expressions(expressions)[i],
            ) == Ok::<ExpressionView, DecodeError>(expressions[i]) by {
                lemma_expression_round_trip(expressions[i]);
            }
            lemma_traverse_gives(
                encode_expressions(expressions),
                expression_decoder(),
                expressions,
            );
        },
    }
}

/// A pattern is read back unchanged from its encoding, its elements in the
/// same order.
pub proof fn lemma_pattern_round_trip(p: Seq<PatternElementView>)
    requires
        pattern_well_formed(p),
    ensures
        decode_pattern(encode_pattern(p)) == Ok::<Seq<PatternElementView>, DecodeError>(p),
{
    assert forall|i: int| 0 <= i < p.len() implies element_decoder()(
        #[trigger] encode_elements(p)[i],
    ) == Ok::<PatternElementView, DecodeError>(p[i]) by {
        lemma_element_round_trip(p[i]);
    }
    lemma_traverse_gives(encode_elements(p), element_decoder(), p);
}

/// An attribute is read back unchanged from its encoding.
pub proof fn lemma_attribute_round_trip(a: AttributeView)
    requires
        a.well_formed(),
    ensures
        decode_attribute(encode_attribute(a)) == Ok::<AttributeView, DecodeError>(a),
{
    lemma_literals_differ();
    lemma_pattern_round_trip(a.value);
}

/// An entry is read back unchanged from its encoding.
pub proof fn lemma_entry_round_trip(e: EntryView)
    requires
        e.well_formed(),
    ensures
        decode_entry(encode_entry(e)) == Ok::<EntryView, DecodeError>(e),
{
    lemma_literals_differ();
    match e {
        EntryView::Message { id, value, attributes } => {
            lemma_pattern_round_trip(value);
            assert forall|i: int| 0 <= i < attributes.len() implies attribute_decoder()(
                #[trigger] encode_attributes(attributes)[i],
            ) == Ok::<AttributeView, DecodeError>(attributes[i]) by {
                lemma_attribute_round_trip(attributes[i]);
            }
            lemma_traverse_gives(encode_attributes(attributes), attribute_decoder(), attributes);
        },
        _ => {},
    }
}

/// Decoding what was encoded gives the resource back, entry by entry and in
/// the same order.
pub proof fn lemma_round_trip(r: ResourceView)
    requires
        r.well_formed(),
    ensures
        decode_resource(encode_resource(r)) == Ok::<ResourceView, DecodeError>(r),
{
    lemma_literals_differ();
    assert forall|i: int| 0 <= i < r.body.len() implies entry_decoder()(
        #[trigger] encode_entries(r.body)[i],
    ) == Ok::<EntryView, DecodeError>(r.body[i]) by {
        lemma_entry_round_trip(r.body[i]);
    }
    lemma_traverse_gives(encode_entries(r.body), entry_decoder(), r.body);
}

/// The entries of a converted resource are the converted entries of the
/// tree, one for one and in the order of the tree.
pub proof fn lemma_entries_keep_order(r: SyntaxResource)
    requires
        adapt_resource(r) is Ok,
    ensures
        adapt_resource(r)->Ok_0.body.len() == r.body@.len(),
        forall|i: int|
            0 <= i < r.body@.len() ==> adapt_entry(#[trigger] r.body@[i]) == Ok::<
                EntryView,
                UnsupportedConstruct,
            >(adapt_resource(r)->Ok_0.body[i]),
{
    lemma_traverse_keeps_order(r.body@, entry_adapter());
}

/// The elements of a converted pattern are the converted elements of the
/// tree's pattern, one for one and in the same order.
pub proof fn lemma_elements_keep_order(p: SyntaxPattern)
    requires
        adapt_pattern(p) is Ok,
    ensures
        adapt_pattern(p)->Ok_0.len() == p.elements@.len(),
        forall|i: int|
            0 <= i < p.elements@.len() ==> adapt_element(#[trigger] p.elements@[i]) == Ok::<
                PatternElementView,
                UnsupportedConstruct,
            >(adapt_pattern(p)->Ok_0[i]),
{
    lemma_traverse_keeps_order(p.elements@, element_adapter());
}

/// An entry that cannot be converted is never left out: the conversion of
/// the whole tree fails.
pub proof fn lemma_no_entry_is_dropped(r: SyntaxResource, i: int)
    requires
        0 <= i < r.body@.len(),
        adapt_entry(r.body@[i]) is Err,
    ensures
        adapt_resource(r) is Err,
{
    if adapt_resource(r) is Ok {
        lemma_traverse_keeps_order(r.body@, entry_adapter());
        assert(entry_adapter()(r.body@[i]) is Ok);
    }
}

/// A message without a value is not converted, and neither is a tree that
/// holds one.
pub proof fn lemma_message_needs_value(r: SyntaxResource, i: int, m: SyntaxMessage)
    requires
        0 <= i < r.body@.len(),
        r.body@[i] == SyntaxEntry::Message(m),
        m.value is None,
    ensures
        adapt_message(m) is Err,
        adapt_resource(r) is Err,
{
    lemma_no_entry_is_dropped(r, i);
}

/// An object whose `"type"` names none of the three kinds of entry is
/// refused as an entry.
pub proof fn lemma_unknown_entry_is_refused(j: Json, tag: Seq<char>)
    requires
        decode_tag(j) == Ok::<Seq<char>, DecodeError>(tag),
        tag != "Message"@,
        tag != "Section"@,
        tag != "Comment"@,
    ensures
        decode_entry(j) == Err::<EntryView, DecodeError>(DecodeError::UnknownTag),
{
}

/// An entry that cannot be decoded is never left out: the document that
/// holds it is refused.
pub proof fn lemma_refused_entry_fails_resource(j: Json, items: Seq<Json>, i: int)
    requires
        required(j, "body"@) == Ok::<Json, DecodeError>(Json::Array(items)),
        0 <= i < items.len(),
        decode_entry(items[i]) is Err,
    ensures
        decode_resource(j) is Err,
{
    if traverse(items, entry_decoder()) is Ok {
        lemma_traverse_keeps_order(items, entry_decoder());
        assert(entry_decoder()(items[i]) is Ok);
    }
}

/// A converted pattern element is well formed.
pub proof fn lemma_adapted_element_is_well_formed(e: SyntaxElement)
    requires
        adapt_element(e) is Ok,
    ensures
        adapt_element(e)->Ok_0.well_formed(),
{
    match e {
        SyntaxElement::Text(t) => {},
        SyntaxElement::Placeable { expressions: list } => {
            let expressions = adapt_element(e)->Ok_0->expressions;
            lemma_traverse_keeps_order(list@, expression_adapter());
            assert forall|i: int| 0 <= i < expressions.len() implies (
            #[trigger] expressions[i]).well_formed() by {
                assert(expression_adapter()(list@[i]) == Ok::<
                    ExpressionView,
                    UnsupportedConstruct,
                >(expressions[i]));
            }
        },
    }
}

/// A converted pattern is well formed.
pub proof fn lemma_adapted_pattern_is_well_formed(p: SyntaxPattern)
    requires
        adapt_pattern(p) is Ok,
    ensures
        pattern_well_formed(adapt_pattern(p)->Ok_0),
{
    let out = adapt_pattern(p)->Ok_0;
    lemma_elements_keep_order(p);
    assert forall|i: int| 0 <= i < out.len() implies (#[trigger] out[i]).well_formed() by {
        assert(adapt_element(p.elements@[i]) == Ok::<PatternElementView, UnsupportedConstruct>(
            out[i],
        ));
        lemma_adapted_element_is_well_formed(p.elements@[i]);
    }
}

/// A converted entry is well formed.
pub proof fn lemma_adapted_entry_is_well_formed(e: SyntaxEntry)
    requires
        adapt_entry(e) is Ok,
    ensures
        adapt_entry(e)->Ok_0.well_formed(),
{
    match e {
        SyntaxEntry::Message(m) => {
            lemma_adapted_pattern_is_well_formed(m.value->Some_0);
            let attributes = adapt_members(m.traits)->Ok_0;
            if m.traits is Some {
                let list = m.traits->Some_0@;
                lemma_traverse_keeps_order(list, member_adapter());
                assert forall|i: int| 0 <= i < attributes.len() implies (
                #[trigger] attributes[i]).well_formed() by {
                    assert(member_adapter()(list[i]) == Ok::<AttributeView, UnsupportedConstruct>(
                        attributes[i],
                    ));
                    lemma_adapted_pattern_is_well_formed(list[i].value);
                }
            }
        },
        _ => {},
    }
}

/// A converted resource is well formed.
pub proof fn lemma_adapted_is_well_formed(r: SyntaxResource)
    requires
        adapt_resource(r) is Ok,
    ensures
        adapt_resource(r)->Ok_0.well_formed(),
{
    let out = adapt_resource(r)->Ok_0;
    lemma_entries_keep_order(r);
    assert forall|i: int| 0 <= i < out.body.len() implies (
    #[trigger] out.body[i]).well_formed() by {
        assert(adapt_entry(r.body@[i]) == Ok::<EntryView, UnsupportedConstruct>(out.body[i]));
        lemma_adapted_entry_is_well_formed(r.body@[i]);
    }
}

/// Every resource that the conversion of a syntax tree gives is read back
/// unchanged from its encoding.
pub proof fn lemma_adapted_round_trip(r: SyntaxResource)
    requires
        adapt_resource(r) is Ok,
    ensures
        decode_resource(encode_resource(adapt_resource(r)->Ok_0)) == Ok::<
            ResourceView,
            DecodeError,
        >(adapt_resource(r)->Ok_0),
{
    lemma_adapted_is_well_formed(r);
    lemma_round_trip(adapt_resource(r)->Ok_0);
}

/// A decoded pattern element is well formed.
pub proof fn lemma_decoded_element_is_well_formed(j: Json)
    requires
        decode_element(j) is Ok,
    ensures
        decode_element(j)->Ok_0.well_formed(),
{
    match decode_element(j)->Ok_0 {
        PatternElementView::Text { value } => {},
        PatternElementView::Placeable { expressions } => {
            let items = required(j, "expressions"@)->Ok_0->Array_0;
            lemma_traverse_keeps_order(items, expression_decoder());
            assert forall|i: int| 0 <= i < expressions.len() implies (
            #[trigger] expressions[i]).well_formed() by {
                assert(expression_decoder()(items[i]) == Ok::<ExpressionView, DecodeError>(
                    expressions[i],
                ));
            }
        },
    }
}

/// A decoded pattern is well formed.
pub proof fn lemma_decoded_pattern_is_well_formed(j: Json)
    requires
        decode_pattern(j) is Ok,
    ensures
        pattern_well_formed(decode_pattern(j)->Ok_0),
{
    let out = decode_pattern(j)->Ok_0;
    let items = required(j, "elements"@)->Ok_0->Array_0;
    lemma_traverse_keeps_order(items, element_decoder());
    assert forall|i: int| 0 <= i < out.len() implies (#[trigger] out[i]).well_formed() by {
        assert(element_decoder()(items[i]) == Ok::<PatternElementView, DecodeError>(out[i]));
        lemma_decoded_element_is_well_formed(items[i]);
    }
}

/// A decoded entry is well formed.
pub proof fn lemma_decoded_entry_is_well_formed(j: Json)
    requires
        decode_entry(j) is Ok,
    ensures
        decode_entry(j)->Ok_0.well_formed(),
{
    match decode_entry(j)->Ok_0 {
        EntryView::Message { id, value, attributes } => {
            lemma_decoded_pattern_is_well_formed(required(j, "value"@)->Ok_0);
            if field(j, "attributes"@) is Some {
                let items = field(j, "attributes"@)->Some_0->Array_0;
                lemma_traverse_keeps_order(items, attribute_decoder());
                assert forall|i: int| 0 <= i < attributes.len() implies (
                #[trigger] attributes[i]).well_formed() by {
                    assert(attribute_decoder()(items[i]) == Ok::<AttributeView, DecodeError>(
                        attributes[i],
                    ));
                    lemma_decoded_pattern_is_well_formed(required(items[i], "value"@)->Ok_0);
                }
            }
        },
        _ => {},
    }
}

/// A decoded resource is well formed.
pub proof fn lemma_decoded_is_well_formed(j: Json)
    requires
        decode_resource(j) is Ok,
    ensures
        decode_resource(j)->Ok_0.well_formed(),
{
    let out = decode_resource(j)->Ok_0;
    let items = required(j, "body"@)->Ok_0->Array_0;
    lemma_traverse_keeps_order(items, entry_decoder());
    assert forall|i: int| 0 <= i < out.body.len() implies (
    #[trigger] out.body[i]).well_formed() by {
        assert(entry_decoder()(items[i]) == Ok::<EntryView, DecodeError>(out.body[i]));
        lemma_decoded_entry_is_well_formed(items[i]);
    }
}

/// Every resource that decoding gives is read back unchanged from its own
/// encoding.
pub proof fn lemma_decoded_round_trip(j: Json)
    requires
        decode_resource(j) is Ok,
    ensures
        decode_resource(encode_resource(decode_resource(j)->Ok_0)) == decode_resource(j),
{
    lemma_decoded_is_well_formed(j);
    lemma_round_trip(decode_resource(j)->Ok_0);
}

} // verus!
