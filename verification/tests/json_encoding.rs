use fluent_json::{
    deserialize_json, serialize_json, Attribute, Comment, DecodeError, Entry, Expression,
    Identifier, Pattern, PatternElement, Resource, Symbol,
};
use serde_json::Value;

fn json(text: &str) -> Value {
    serde_json::from_str(text).unwrap()
}

fn id(name: &str) -> Identifier {
    Identifier { name: name.to_string() }
}

fn text(value: &str) -> PatternElement {
    PatternElement::Text { value: value.to_string() }
}

fn reference(name: &str) -> PatternElement {
    PatternElement::Placeable { expressions: vec![Expression::MessageReference { id: id(name) }] }
}

fn greeting() -> Resource {
    Resource {
        body: vec![Entry::Message {
            id: id("greeting"),
            value: Pattern { elements: vec![text("Hello, "), reference("user"), text("!")] },
            attributes: vec![],
        }],
        comment: None,
    }
}

fn rich() -> Resource {
    Resource {
        body: vec![
            Entry::Comment(Comment { content: "a \"quoted\" comment\n".to_string() }),
            Entry::Section { name: Symbol { name: "menu".to_string() }, comment: None },
            Entry::Section {
                name: Symbol { name: "tools".to_string() },
                comment: Some(Comment { content: "for tools".to_string() }),
            },
            Entry::Message {
                id: id("open"),
                value: Pattern { elements: vec![] },
                attributes: vec![
                    Attribute {
                        key: "label".to_string(),
                        value: Pattern { elements: vec![text("Open"), reference("brand")] },
                        is_default: true,
                    },
                    Attribute {
                        key: "".to_string(),
                        value: Pattern { elements: vec![] },
                        is_default: false,
                    },
                ],
            },
            Entry::Message {
                id: id("open"),
                value: Pattern {
                    elements: vec![
                        PatternElement::Placeable { expressions: vec![] },
                        PatternElement::Placeable {
                            expressions: vec![
                                Expression::MessageReference { id: id("a") },
                                Expression::MessageReference { id: id("b") },
                            ],
                        },
                        text("  \u{e9}\t"),
                    ],
                },
                attributes: vec![],
            },
        ],
        comment: Some(Comment { content: "lead".to_string() }),
    }
}

#[test]
fn identifier_is_a_bare_string() {
    let v = id("greeting").to_json();
    assert_eq!(v, Value::String("greeting".to_string()));
    assert_ne!(v, json(r#"{"name":"greeting"}"#));
    assert_eq!(serde_json::to_string(&v).unwrap(), "\"greeting\"");
    assert_eq!(Identifier::from_json(&v), Ok(id("greeting")));
}

#[test]
fn symbol_is_a_bare_string() {
    let s = Symbol { name: "menu".to_string() };
    assert_eq!(s.to_json(), json("\"menu\""));
    assert_eq!(Symbol::from_json(&json("\"menu\"")), Ok(s));
}

#[test]
fn names_must_be_strings_and_not_empty() {
    assert_eq!(Identifier::from_json(&json("\"\"")), Err(DecodeError::EmptyName));
    assert_eq!(Symbol::from_json(&json("\"\"")), Err(DecodeError::EmptyName));
    assert_eq!(Identifier::from_json(&json("7")), Err(DecodeError::TypeMismatch));
    assert_eq!(
        Identifier::from_json(&json(r#"{"name":"greeting"}"#)),
        Err(DecodeError::TypeMismatch)
    );
    assert_eq!(Symbol::from_json(&json("null")), Err(DecodeError::TypeMismatch));
}

#[test]
fn expression_encoding() {
    let e = Expression::MessageReference { id: id("user") };
    assert_eq!(e.to_json(), json(r#"{"type":"MessageReference","id":"user"}"#));
    assert_eq!(Expression::from_json(&e.to_json()), Ok(e));
}

#[test]
fn element_encoding() {
    assert_eq!(text("Hello, ").to_json(), json(r#"{"type":"Text","value":"Hello, "}"#));
    assert_eq!(
        reference("user").to_json(),
        json(r#"{"type":"Placeable","expressions":[{"type":"MessageReference","id":"user"}]}"#)
    );
}

#[test]
fn comment_encoding() {
    let c = Comment { content: "note".to_string() };
    assert_eq!(c.to_json(), json(r#"{"content":"note"}"#));
    assert_eq!(Comment::from_json(&c.to_json()), Ok(c));
}

#[test]
fn attribute_encoding() {
    let a = Attribute {
        key: "label".to_string(),
        value: Pattern { elements: vec![text("Open")] },
        is_default: true,
    };
    assert_eq!(
        a.to_json(),
        json(
            r#"{"key":"label","value":{"elements":[{"type":"Text","value":"Open"}]},"is_default":true}"#
        )
    );
    assert_eq!(Attribute::from_json(&a.to_json()), Ok(a));
}

#[test]
fn entry_encoding() {
    let section = Entry::Section { name: Symbol { name: "menu".to_string() }, comment: None };
    assert_eq!(section.to_json(), json(r#"{"type":"Section","name":"menu","comment":null}"#));
    let comment = Entry::Comment(Comment { content: "c".to_string() });
    assert_eq!(comment.to_json(), json(r#"{"type":"Comment","content":"c"}"#));
    let message = Entry::Message {
        id: id("m"),
        value: Pattern { elements: vec![] },
        attributes: vec![],
    };
    assert_eq!(
        message.to_json(),
        json(r#"{"type":"Message","id":"m","value":{"elements":[]},"attributes":[]}"#)
    );
}

#[test]
fn greeting_is_encoded_in_order() {
    let expected = json(
        r#"{
            "body": [
                {
                    "type": "Message",
                    "id": "greeting",
                    "value": {
                        "elements": [
                            {"type": "Text", "value": "Hello, "},
                            {"type": "Placeable",
                             "expressions": [{"type": "MessageReference", "id": "user"}]},
                            {"type": "Text", "value": "!"}
                        ]
                    },
                    "attributes": []
                }
            ],
            "comment": null
        }"#,
    );
    assert_eq!(greeting().to_json(), expected);
    let text = serialize_json(&greeting());
    assert_eq!(json(&text), expected);
    assert!(text.contains("\"type\": \"Message\""));
    assert!(text.contains("\"id\": \"greeting\""));
    let hello = text.find("\"Hello, \"").unwrap();
    let user = text.find("\"user\"").unwrap();
    let bang = text.find("\"!\"").unwrap();
    assert!(hello < user && user < bang);
    assert_eq!(deserialize_json(&text), Ok(greeting()));
}

#[test]
fn pretty_text_of_a_small_resource() {
    let r = Resource {
        body: vec![Entry::Comment(Comment { content: "hi".to_string() })],
        comment: None,
    };
    let expected = [
        "{",
        "  \"body\": [",
        "    {",
        "      \"content\": \"hi\",",
        "      \"type\": \"Comment\"",
        "    }",
        "  ],",
        "  \"comment\": null",
        "}",
    ]
    .join("\n");
    assert_eq!(serialize_json(&r), expected);
}

#[test]
fn pretty_text_of_the_empty_resource() {
    let r = Resource { body: vec![], comment: None };
    assert_eq!(serialize_json(&r), "{\n  \"body\": [],\n  \"comment\": null\n}");
    assert_eq!(deserialize_json("{\"body\":[]}"), Ok(r));
}

#[test]
fn round_trip_through_values() {
    for r in [greeting(), rich(), Resource { body: vec![], comment: None }] {
        assert_eq!(Resource::from_json(&r.to_json()), Ok(r));
    }
}

#[test]
fn round_trip_through_text() {
    for r in [greeting(), rich(), Resource { body: vec![], comment: None }] {
        assert_eq!(deserialize_json(&serialize_json(&r)), Ok(r));
    }
}

#[test]
fn unknown_entry_type_is_refused() {
    let v = json(r#"{"type":"Frobnicate"}"#);
    assert_eq!(Entry::from_json(&v), Err(DecodeError::UnknownTag));
    assert_eq!(
        deserialize_json(r#"{"body":[{"type":"Comment","content":"c"},{"type":"Frobnicate"}]}"#),
        Err(DecodeError::UnknownTag)
    );
}

#[test]
fn unknown_element_and_expression_types_are_refused() {
    assert_eq!(
        PatternElement::from_json(&json(r#"{"type":"Image","value":"x"}"#)),
        Err(DecodeError::UnknownTag)
    );
    assert_eq!(
        Expression::from_json(&json(r#"{"type":"Call","id":"x"}"#)),
        Err(DecodeError::UnknownTag)
    );
    assert_eq!(
        Entry::from_json(&json(r#"{"type":"message","id":"m","value":{"elements":[]}}"#)),
        Err(DecodeError::UnknownTag)
    );
}

#[test]
fn missing_tag_is_refused() {
    assert_eq!(Entry::from_json(&json(r#"{"id":"m"}"#)), Err(DecodeError::MissingTag));
    assert_eq!(Entry::from_json(&json("{}")), Err(DecodeError::MissingTag));
    assert_eq!(
        PatternElement::from_json(&json(r#"{"value":"x"}"#)),
        Err(DecodeError::MissingTag)
    );
}

#[test]
fn tag_of_another_type_is_refused() {
    assert_eq!(Entry::from_json(&json(r#"{"type":1}"#)), Err(DecodeError::TypeMismatch));
    assert_eq!(Entry::from_json(&json(r#"{"type":null}"#)), Err(DecodeError::TypeMismatch));
    assert_eq!(Entry::from_json(&json(r#"[{"type":"Comment"}]"#)), Err(DecodeError::TypeMismatch));
    assert_eq!(Entry::from_json(&json("\"Comment\"")), Err(DecodeError::TypeMismatch));
}

#[test]
fn missing_fields_are_refused() {
    assert_eq!(
        Entry::from_json(&json(r#"{"type":"Message","value":{"elements":[]}}"#)),
        Err(DecodeError::MissingField)
    );
    assert_eq!(
        Entry::from_json(&json(r#"{"type":"Message","id":"m"}"#)),
        Err(DecodeError::MissingField)
    );
    assert_eq!(Entry::from_json(&json(r#"{"type":"Section"}"#)), Err(DecodeError::MissingField));
    assert_eq!(Entry::from_json(&json(r#"{"type":"Comment"}"#)), Err(DecodeError::MissingField));
    assert_eq!(Pattern::from_json(&json("{}")), Err(DecodeError::MissingField));
    assert_eq!(
        Attribute::from_json(&json(r#"{"key":"k","value":{"elements":[]}}"#)),
        Err(DecodeError::MissingField)
    );
    assert_eq!(deserialize_json(r#"{"comment":null}"#), Err(DecodeError::MissingField));
    assert_eq!(
        PatternElement::from_json(&json(r#"{"type":"Placeable"}"#)),
        Err(DecodeError::MissingField)
    );
}

#[test]
fn mismatched_fields_are_refused() {
    assert_eq!(deserialize_json("[]"), Err(DecodeError::TypeMismatch));
    assert_eq!(deserialize_json("null"), Err(DecodeError::TypeMismatch));
    assert_eq!(deserialize_json(r#"{"body":{}}"#), Err(DecodeError::TypeMismatch));
    assert_eq!(deserialize_json(r#"{"body":[],"comment":"c"}"#), Err(DecodeError::TypeMismatch));
    assert_eq!(
        Entry::from_json(&json(r#"{"type":"Message","id":"m","value":[]}"#)),
        Err(DecodeError::TypeMismatch)
    );
    assert_eq!(
        Entry::from_json(&json(
            r#"{"type":"Message","id":"m","value":{"elements":[]},"attributes":null}"#
        )),
        Err(DecodeError::TypeMismatch)
    );
    assert_eq!(
        Entry::from_json(&json(r#"{"type":"Comment","content":3.5}"#)),
        Err(DecodeError::TypeMismatch)
    );
    assert_eq!(
        Attribute::from_json(&json(r#"{"key":"k","value":{"elements":[]},"is_default":"no"}"#)),
        Err(DecodeError::TypeMismatch)
    );
    assert_eq!(
        PatternElement::from_json(&json(r#"{"type":"Text","value":null}"#)),
        Err(DecodeError::TypeMismatch)
    );
}

#[test]
fn text_that_is_not_json_is_refused() {
    assert_eq!(deserialize_json(""), Err(DecodeError::Syntax));
    assert_eq!(deserialize_json("{\"body\": ["), Err(DecodeError::Syntax));
    assert_eq!(deserialize_json("greeting = Hello"), Err(DecodeError::Syntax));
}

#[test]
fn absent_and_null_comments_are_the_same() {
    let none = Resource { body: vec![], comment: None };
    assert_eq!(deserialize_json(r#"{"body":[]}"#), Ok(none.clone()));
    assert_eq!(deserialize_json(r#"{"body":[],"comment":null}"#), Ok(none));
    let section = Entry::Section { name: Symbol { name: "s".to_string() }, comment: None };
    assert_eq!(Entry::from_json(&json(r#"{"type":"Section","name":"s"}"#)), Ok(section.clone()));
    assert_eq!(
        Entry::from_json(&json(r#"{"type":"Section","name":"s","comment":null}"#)),
        Ok(section)
    );
}

#[test]
fn message_without_attributes_field_has_none() {
    assert_eq!(
        Entry::from_json(&json(r#"{"type":"Message","id":"m","value":{"elements":[]}}"#)),
        Ok(Entry::Message { id: id("m"), value: Pattern { elements: vec![] }, attributes: vec![] })
    );
}

#[test]
fn unknown_fields_are_passed_over() {
    assert_eq!(
        Entry::from_json(&json(r#"{"type":"Comment","content":"c","since":3}"#)),
        Ok(Entry::Comment(Comment { content: "c".to_string() }))
    );
}

#[test]
fn two_default_attributes_are_refused() {
    let v = json(
        r#"{"type":"Message","id":"m","value":{"elements":[]},"attributes":[
            {"key":"a","value":{"elements":[]},"is_default":true},
            {"key":"b","value":{"elements":[]},"is_default":true}]}"#,
    );
    assert_eq!(Entry::from_json(&v), Err(DecodeError::MultipleDefaults));
}

#[test]
fn empty_names_are_refused() {
    assert_eq!(
        Entry::from_json(&json(r#"{"type":"Message","id":"","value":{"elements":[]}}"#)),
        Err(DecodeError::EmptyName)
    );
    assert_eq!(
        Entry::from_json(&json(r#"{"type":"Section","name":""}"#)),
        Err(DecodeError::EmptyName)
    );
    assert_eq!(
        Expression::from_json(&json(r#"{"type":"MessageReference","id":""}"#)),
        Err(DecodeError::EmptyName)
    );
}

#[test]
fn first_deviation_decides() {
    assert_eq!(
        deserialize_json(r#"{"body":[{"type":"Section"},{"type":"Frobnicate"}]}"#),
        Err(DecodeError::MissingField)
    );
    assert_eq!(
        deserialize_json(r#"{"body":[{"type":"Frobnicate"},{"type":"Section"}]}"#),
        Err(DecodeError::UnknownTag)
    );
    assert_eq!(
        Entry::from_json(&json(r#"{"type":"Message","id":7,"value":3}"#)),
        Err(DecodeError::TypeMismatch)
    );
    assert_eq!(
        Entry::from_json(&json(r#"{"type":"Message","id":"","value":3}"#)),
        Err(DecodeError::EmptyName)
    );
}

#[test]
fn array_order_is_kept_in_both_directions() {
    let p = Pattern { elements: vec![text("1"), text("2"), text("3"), text("2")] };
    let v = p.to_json();
    let items = v["elements"].as_array().unwrap();
    assert_eq!(items.len(), 4);
    for (i, e) in p.elements.iter().enumerate() {
        assert_eq!(items[i], e.to_json());
    }
    assert_eq!(Pattern::from_json(&v), Ok(p));
}
