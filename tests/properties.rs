use adf::error::{DecodeErrorKind, PathStep};
use adf::json::{JsonNumber, JsonValue};
use adf::model::{
    CodeBlockAttrs, ColorAttrs, EmojiAttrs, HeadingAttrs, LinkAttrs, Mark, MediaAttrs, MediaSingleAttrs,
    Node, SubSupAttrs, TableCellAttrs,
};
use adf::text::{encode, encode_text, from_str, from_value, value_from_str};

fn text(s: &str) -> Node {
    Node::Text { text: s.to_string(), marks: None }
}

fn reread(n: &Node) -> Node {
    from_value(encode(n)).unwrap()
}

#[test]
fn unknown_variant_is_rejected() {
    let r = from_str(r#"{"type":"doc","version":1,"content":[{"type":"banana"}]}"#).unwrap_err();
    assert_eq!(r.kind, DecodeErrorKind::UnknownVariant("banana".to_string()));
    assert_eq!(r.path, vec![PathStep::Field("content"), PathStep::Index(0)]);
    let top = from_str(r#"{"type":"nope"}"#).unwrap_err();
    assert_eq!(top.kind, DecodeErrorKind::UnknownVariant("nope".to_string()));
    let untyped = from_str(r#"{"version":1}"#).unwrap_err();
    assert_eq!(untyped.kind, DecodeErrorKind::UnknownVariant(String::new()));
}

#[test]
fn unknown_mark_is_rejected() {
    let r = from_str(r#"{"type":"text","text":"a","marks":[{"type":"blink"}]}"#).unwrap_err();
    assert_eq!(r.kind, DecodeErrorKind::UnknownVariant("blink".to_string()));
    assert_eq!(r.path, vec![PathStep::Field("marks"), PathStep::Index(0)]);
}

#[test]
fn code_block_absent_and_empty_content_differ() {
    let absent = from_str(r#"{"type":"codeBlock"}"#).unwrap();
    assert_eq!(absent, Node::CodeBlock { content: None, attrs: None });
    let empty = from_str(r#"{"type":"codeBlock","content":[]}"#).unwrap();
    assert_eq!(empty, Node::CodeBlock { content: Some(vec![]), attrs: None });
    assert_eq!(encode_text(&absent), r#"{"type":"codeBlock"}"#);
    assert_eq!(encode_text(&empty), r#"{"content":[],"type":"codeBlock"}"#);
    assert_eq!(reread(&absent), absent);
    assert_eq!(reread(&empty), empty);
}

#[test]
fn emoji_identity_variants() {
    let standard = from_str(r#"{"type":"emoji","attrs":{"shortName":":grinning:","text":"😀"}}"#).unwrap();
    assert_eq!(
        standard,
        Node::Emoji {
            attrs: EmojiAttrs { short_name: ":grinning:".to_string(), id: None, text: Some("😀".to_string()) }
        }
    );
    let custom = from_str(r#"{"type":"emoji","attrs":{"shortName":":thumbsup::skin-tone-2:","id":"1f44d","text":"👍🏽"}}"#).unwrap();
    assert_eq!(
        custom,
        Node::Emoji {
            attrs: EmojiAttrs {
                short_name: ":thumbsup::skin-tone-2:".to_string(),
                id: Some("1f44d".to_string()),
                text: Some("👍🏽".to_string()),
            }
        }
    );
}

#[test]
fn nested_blockquote_round_trips() {
    let input = r#"{"type":"doc","version":1,"content":[{"type":"blockquote","content":[{"type":"paragraph","content":[{"type":"text","text":"Hello world"}]}]}]}"#;
    let doc = from_str(input).unwrap();
    let expected = Node::Doc {
        version: 1,
        content: vec![Node::Blockquote {
            content: vec![Node::Paragraph { content: vec![text("Hello world")], attrs: None }],
        }],
    };
    assert_eq!(doc, expected);
    assert_eq!(reread(&doc), expected);
    assert_eq!(from_str(&encode_text(&doc)).unwrap(), expected);
}

#[test]
fn hard_break_keeps_sibling_order() {
    let input = r#"{"type":"paragraph","content":[{"type":"text","text":"Hello"},{"type":"hardBreak"},{"type":"text","text":"world"}]}"#;
    let p = from_str(input).unwrap();
    assert_eq!(
        p,
        Node::Paragraph { content: vec![text("Hello"), Node::HardBreak { attrs: None }, text("world")], attrs: None }
    );
    let swapped = r#"{"type":"paragraph","content":[{"type":"text","text":"world"},{"type":"hardBreak"},{"type":"text","text":"Hello"}]}"#;
    assert_ne!(from_str(swapped).unwrap(), p);
}

#[test]
fn empty_document_round_trips() {
    let doc = from_str(r#"{"type":"doc","version":1,"content":[]}"#).unwrap();
    assert_eq!(doc, Node::Doc { version: 1, content: vec![] });
    assert_eq!(encode_text(&doc), r#"{"content":[],"type":"doc","version":1}"#);
    assert_eq!(reread(&doc), doc);
}

#[test]
fn rule_with_attrs_is_rejected() {
    let r = from_str(r#"{"type":"rule","attrs":{}}"#).unwrap_err();
    assert_eq!(r.kind, DecodeErrorKind::UnexpectedField { variant: "rule", field: "attrs".to_string() });
    assert_eq!(from_str(r#"{"type":"rule"}"#).unwrap(), Node::Rule);
}

#[test]
fn unexpected_attribute_key_is_rejected() {
    let r = from_str(r#"{"type":"heading","content":[],"attrs":{"level":1,"colour":"red"}}"#).unwrap_err();
    assert_eq!(r.kind, DecodeErrorKind::UnexpectedField { variant: "heading", field: "colour".to_string() });
    assert_eq!(r.path, vec![PathStep::Field("attrs")]);
}

#[test]
fn missing_field_is_reported() {
    let r = from_str(r#"{"type":"heading","content":[]}"#).unwrap_err();
    assert_eq!(r.kind, DecodeErrorKind::MissingField { variant: "heading", field: "attrs" });
    let level = from_str(r#"{"type":"heading","content":[],"attrs":{}}"#).unwrap_err();
    assert_eq!(level.kind, DecodeErrorKind::MissingField { variant: "heading", field: "level" });
    let content = from_str(r#"{"type":"paragraph"}"#).unwrap_err();
    assert_eq!(content.kind, DecodeErrorKind::MissingField { variant: "paragraph", field: "content" });
}

#[test]
fn type_mismatch_is_reported() {
    let r = from_str(r#"{"type":"text","text":5}"#).unwrap_err();
    assert_eq!(r.kind, DecodeErrorKind::TypeMismatch { variant: "text", field: "text", expected: "string" });
    let big = from_str(r#"{"type":"heading","content":[],"attrs":{"level":300}}"#).unwrap_err();
    assert_eq!(
        big.kind,
        DecodeErrorKind::TypeMismatch { variant: "heading", field: "level", expected: "integer in range" }
    );
    let frac = from_str(r#"{"type":"doc","version":1.5,"content":[]}"#).unwrap_err();
    assert_eq!(frac.kind, DecodeErrorKind::TypeMismatch { variant: "doc", field: "version", expected: "integer" });
}

#[test]
fn malformed_text_is_rejected() {
    let r = from_str("{\"type\": ").unwrap_err();
    assert_eq!(r.kind, DecodeErrorKind::MalformedInput);
    assert!(r.path.is_empty());
    assert_eq!(value_from_str("[1,"), None);
}

#[test]
fn absent_null_and_empty_marks_read_alike() {
    let a = from_str(r#"{"type":"text","text":"x"}"#).unwrap();
    let b = from_str(r#"{"type":"text","text":"x","marks":[]}"#).unwrap();
    let c = from_str(r#"{"type":"text","text":"x","marks":null}"#).unwrap();
    assert_eq!(a, text("x"));
    assert_eq!(b, a);
    assert_eq!(c, a);
    assert_eq!(encode_text(&b), r#"{"text":"x","type":"text"}"#);
}

#[test]
fn marks_with_attributes_round_trip() {
    let input = r##"{"type":"text","text":"x","marks":[{"type":"strong"},{"type":"link","attrs":{"href":"https://example.com","title":"t"}},{"type":"subSup","attrs":{"type":"sup"}},{"type":"textColor","attrs":{"color":"#daa520"}}]}"##;
    let n = from_str(input).unwrap();
    let expected = Node::Text {
        text: "x".to_string(),
        marks: Some(vec![
            Mark::Strong,
            Mark::Link {
                attrs: LinkAttrs {
                    collection: None,
                    href: "https://example.com".to_string(),
                    id: None,
                    occurrence_key: None,
                    title: Some("t".to_string()),
                },
            },
            Mark::SubSup { attrs: SubSupAttrs::Sup },
            Mark::TextColor { attrs: ColorAttrs { color: "#daa520".to_string() } },
        ]),
    };
    assert_eq!(n, expected);
    assert_eq!(reread(&n), expected);
}

#[test]
fn media_type_attribute_is_not_the_discriminator() {
    let n = from_str(r#"{"type":"media","attrs":{"type":"file","id":"abc","collection":"c","width":10}}"#).unwrap();
    let expected = Node::Media {
        attrs: MediaAttrs {
            type_: "file".to_string(),
            width: Some(10),
            height: None,
            id: "abc".to_string(),
            collection: "c".to_string(),
            occurrence_key: None,
        },
    };
    assert_eq!(n, expected);
    assert_eq!(reread(&n), expected);
    assert_eq!(
        encode_text(&n),
        r#"{"attrs":{"collection":"c","id":"abc","type":"file","width":10},"type":"media"}"#
    );
}

#[test]
fn media_single_keeps_a_fractional_width() {
    let n = from_str(r#"{"type":"mediaSingle","content":[],"attrs":{"layout":"center","width":50.5}}"#).unwrap();
    let expected = Node::MediaSingle {
        content: vec![],
        attrs: MediaSingleAttrs {
            layout: "center".to_string(),
            width: Some(JsonNumber::Decimal("50.5".parse().unwrap())),
            width_type: None,
        },
    };
    assert_eq!(n, expected);
    assert_eq!(
        encode_text(&n),
        r#"{"attrs":{"layout":"center","width":50.5},"content":[],"type":"mediaSingle"}"#
    );
}

#[test]
fn table_cell_column_widths_round_trip() {
    let n = from_str(r#"{"type":"tableCell","content":[],"attrs":{"colwidth":[100,200],"colspan":2}}"#).unwrap();
    let expected = Node::TableCell {
        content: vec![],
        attrs: Some(TableCellAttrs { background: None, colspan: Some(2), colwidth: Some(vec![100, 200]), rowspan: None }),
    };
    assert_eq!(n, expected);
    assert_eq!(reread(&n), expected);
    let bad = from_str(r#"{"type":"tableCell","content":[],"attrs":{"colwidth":[70000]}}"#).unwrap_err();
    assert_eq!(bad.path, vec![PathStep::Field("attrs")]);
}

#[test]
fn encode_writes_canonical_members() {
    let n = Node::Heading {
        content: vec![text("H")],
        attrs: HeadingAttrs { level: 2, local_id: None },
    };
    let j = encode(&n);
    let expected = JsonValue::Object(vec![
        ("type".to_string(), JsonValue::Str("heading".to_string())),
        (
            "content".to_string(),
            JsonValue::Array(vec![JsonValue::Object(vec![
                ("type".to_string(), JsonValue::Str("text".to_string())),
                ("text".to_string(), JsonValue::Str("H".to_string())),
            ])]),
        ),
        (
            "attrs".to_string(),
            JsonValue::Object(vec![("level".to_string(), JsonValue::Number(JsonNumber::Int(2)))]),
        ),
    ]);
    assert_eq!(j, expected);
}

#[test]
fn later_duplicate_key_wins() {
    let v = JsonValue::Object(vec![
        ("type".to_string(), JsonValue::Str("text".to_string())),
        ("text".to_string(), JsonValue::Str("first".to_string())),
        ("text".to_string(), JsonValue::Str("second".to_string())),
    ]);
    assert_eq!(from_value(v).unwrap(), text("second"));
}

#[test]
fn code_block_attrs_round_trip() {
    let n = Node::CodeBlock {
        content: Some(vec![text("let x = 1;")]),
        attrs: Some(CodeBlockAttrs { language: "rust".to_string() }),
    };
    assert_eq!(reread(&n), n);
}

#[test]
fn sub_sup_mark_keeps_its_position_and_order() {
    let s = r#"{"type":"text","text":"x","marks":[{"type":"subSup","attrs":{"type":"sub"}},{"type":"strong"}]}"#;
    assert_eq!(
        from_str(s),
        Ok(Node::Text {
            text: "x".to_string(),
            marks: Some(vec![Mark::SubSup { attrs: SubSupAttrs::Sub }, Mark::Strong]),
        })
    );
    let lower = from_str(r#"{"type":"text","text":"x","marks":[{"type":"subsup","attrs":{"type":"sub"}}]}"#).unwrap_err();
    assert_eq!(lower.kind, DecodeErrorKind::UnknownVariant("subsup".to_string()));
}

#[test]
fn encoded_text_reads_back() {
    let n = from_str(r#"{"type":"doc","version":1,"content":[{"type":"paragraph","content":[{"type":"text","text":"a\"b"}]}]}"#).unwrap();
    assert_eq!(from_str(&encode_text(&n)), Ok(n));
}

#[test]
fn first_required_field_missing_or_mistyped() {
    let date = from_str(r#"{"type":"date"}"#).unwrap_err();
    assert_eq!(date.kind, DecodeErrorKind::MissingField { variant: "date", field: "attrs" });
    assert!(date.path.is_empty());
    let doc = from_str(r#"{"type":"doc","content":[]}"#).unwrap_err();
    assert_eq!(doc.kind, DecodeErrorKind::MissingField { variant: "doc", field: "version" });
    let emoji = from_str(r#"{"type":"emoji","attrs":{}}"#).unwrap_err();
    assert_eq!(emoji.kind, DecodeErrorKind::MissingField { variant: "emoji", field: "shortName" });
    assert_eq!(emoji.path, vec![PathStep::Field("attrs")]);
    let content = from_str(r#"{"type":"paragraph","content":{}}"#).unwrap_err();
    assert_eq!(content.kind, DecodeErrorKind::TypeMismatch { variant: "paragraph", field: "content", expected: "array" });
}

#[test]
fn deeply_nested_unknown_type_is_located() {
    let s = r#"{"type":"doc","version":1,"content":[{"type":"paragraph","content":[]},{"type":"blockquote","content":[{"type":"mystery"}]}]}"#;
    let e = from_str(s).unwrap_err();
    assert_eq!(e.kind, DecodeErrorKind::UnknownVariant("mystery".to_string()));
    assert_eq!(
        e.path,
        vec![PathStep::Field("content"), PathStep::Index(1), PathStep::Field("content"), PathStep::Index(0)]
    );
}
