use fluent::syntax::ast;
use fluent::syntax::parse;
use fluent_json::syntax::{
    SyntaxElement, SyntaxEntry, SyntaxExpression, SyntaxMember, SyntaxMemberKey, SyntaxMessage,
    SyntaxPattern, SyntaxResource, SyntaxSection,
};
use fluent_json::{
    deserialize_json, serialize_json, Attribute, Comment, Entry, Expression, Identifier, Pattern,
    PatternElement, Resource, Symbol, UnsupportedConstruct,
};

fn resource_tree(r: ast::Resource) -> SyntaxResource {
    SyntaxResource {
        body: r.body.into_iter().map(entry_tree).collect(),
        comment: r.comment.map(|c| c.body),
    }
}

fn entry_tree(e: ast::Entry) -> SyntaxEntry {
    match e {
        ast::Entry::Message(m) => SyntaxEntry::Message(SyntaxMessage {
            id: m.id.name,
            value: m.value.map(pattern_tree),
            traits: m.traits.map(|list| list.into_iter().map(member_tree).collect()),
            comment: m.comment.map(|c| c.body),
        }),
        ast::Entry::Comment(c) => SyntaxEntry::Comment(c.body),
        ast::Entry::Section(s) => SyntaxEntry::Section(SyntaxSection {
            key: s.key.name,
            body: s.body.into_iter().map(entry_tree).collect(),
            comment: s.comment.map(|c| c.body),
        }),
        ast::Entry::Junk(j) => SyntaxEntry::Junk(j.body),
    }
}

fn member_tree(m: ast::Member) -> SyntaxMember {
    let key = match m.key {
        ast::MemberKey::Keyword(k) => {
            SyntaxMemberKey::Keyword { namespace: k.ns.map(|ns| ns.name), name: k.name.name }
        }
        ast::MemberKey::Number(n) => SyntaxMemberKey::Number(n.value),
    };
    SyntaxMember { key, value: pattern_tree(m.value), default: m.default }
}

fn pattern_tree(p: ast::Pattern) -> SyntaxPattern {
    SyntaxPattern {
        elements: p.elements.into_iter().map(element_tree).collect(),
        quoted: p.quoted,
    }
}

fn element_tree(e: ast::PatternElement) -> SyntaxElement {
    match e {
        ast::PatternElement::Text(t) => SyntaxElement::Text(t),
        ast::PatternElement::Placeable { expressions } => SyntaxElement::Placeable {
            expressions: expressions.into_iter().map(expression_tree).collect(),
        },
    }
}

fn expression_tree(e: ast::Expression) -> SyntaxExpression {
    match e {
        ast::Expression::MessageReference { id } => {
            SyntaxExpression::MessageReference { id: id.name }
        }
        ast::Expression::ExternalArgument { .. } => SyntaxExpression::ExternalArgument,
        ast::Expression::CallExpression { .. } => SyntaxExpression::Call,
        ast::Expression::SelectExpression { .. } => SyntaxExpression::Select,
        ast::Expression::KeyValueArgument { .. } => SyntaxExpression::KeyValueArgument,
        ast::Expression::Number(_) => SyntaxExpression::NumberLiteral,
        ast::Expression::String(_) => SyntaxExpression::StringLiteral,
        ast::Expression::Member { .. } => SyntaxExpression::Member,
    }
}

fn convert(source: &str) -> Result<Resource, UnsupportedConstruct> {
    match parse(source) {
        Ok(tree) => Resource::from_syntax(&resource_tree(tree)),
        Err((tree, _)) => Resource::from_syntax(&resource_tree(tree)),
    }
}

fn id(name: &str) -> Identifier {
    Identifier { name: name.to_string() }
}

fn text(value: &str) -> PatternElement {
    PatternElement::Text { value: value.to_string() }
}

#[test]
fn greeting_from_source_text_to_json_and_back() {
    let res = convert("greeting = Hello, { user }!\n").unwrap();
    let expected = Resource {
        body: vec![Entry::Message {
            id: id("greeting"),
            value: Pattern {
                elements: vec![
                    text("Hello, "),
                    PatternElement::Placeable {
                        expressions: vec![Expression::MessageReference { id: id("user") }],
                    },
                    text("!"),
                ],
            },
            attributes: vec![],
        }],
        comment: None,
    };
    assert_eq!(res, expected);
    let json = serialize_json(&res);
    assert!(json.contains("\"type\": \"Message\""));
    assert!(json.contains("\"id\": \"greeting\""));
    let hello = json.find("\"Hello, \"").unwrap();
    let user = json.find("\"user\"").unwrap();
    let bang = json.find("\"!\"").unwrap();
    assert!(hello < user && user < bang);
    assert_eq!(deserialize_json(&json), Ok(expected));
}

#[test]
fn external_argument_is_not_converted() {
    assert_eq!(
        convert("greeting = Hello, { $user }!\n"),
        Err(UnsupportedConstruct::Expression)
    );
}

#[test]
fn message_with_members_only_is_not_converted() {
    assert_eq!(convert("key2 =\n [gender] male\n"), Err(UnsupportedConstruct::MissingValue));
}

#[test]
fn members_become_attributes() {
    let res = convert("key3 = Value\n *[masculine] He\n  [feminine] She\n").unwrap();
    let attribute = |key: &str, value: &str, is_default: bool| Attribute {
        key: key.to_string(),
        value: Pattern { elements: vec![text(value)] },
        is_default,
    };
    assert_eq!(
        res.body,
        vec![Entry::Message {
            id: id("key3"),
            value: Pattern { elements: vec![text("Value")] },
            attributes: vec![
                attribute("masculine", "He", true),
                attribute("feminine", "She", false),
            ],
        }]
    );
    assert_eq!(deserialize_json(&serialize_json(&res)), Ok(res));
}

#[test]
fn namespaced_member_is_not_converted() {
    assert_eq!(
        convert("key4 = Value\n [html/aria-label] Test\n"),
        Err(UnsupportedConstruct::MemberKey)
    );
}

#[test]
fn sections_comments_and_messages_keep_their_order() {
    let source = "# lead\n\nfirst = One\n\n[[ menu ]]\n\nsecond = Two\n\n# free\n\nthird = Three\n";
    let res = convert(source).unwrap();
    let message = |name: &str, value: &str| Entry::Message {
        id: id(name),
        value: Pattern { elements: vec![text(value)] },
        attributes: vec![],
    };
    let expected = Resource {
        body: vec![
            message("first", "One"),
            Entry::Section { name: Symbol { name: "menu".to_string() }, comment: None },
            message("second", "Two"),
            Entry::Comment(Comment { content: "free".to_string() }),
            message("third", "Three"),
        ],
        comment: Some(Comment { content: "lead".to_string() }),
    };
    assert_eq!(res, expected);
    assert_eq!(deserialize_json(&serialize_json(&res)), Ok(expected));
}

#[test]
fn comment_on_a_message_is_not_dropped() {
    assert_eq!(
        convert("first = One\n\n# about second\nsecond = Two\n"),
        Err(UnsupportedConstruct::MessageComment)
    );
}

#[test]
fn junk_is_not_dropped() {
    assert_eq!(convert("first = One\n\n???\n\nsecond = Two\n"), Err(UnsupportedConstruct::Junk));
}
