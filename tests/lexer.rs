use adf::model::{CodeBlockAttrs, DateAttrs, EmojiAttrs, ExpandAttrs, HeadingAttrs, Node};
use adf::text::{from_serde, from_str, from_value, value_from_str};


#[test]
fn from_value_and_from_str_should_return_same_result() {
    let input = r#"{
        "type": "doc",
        "version": 1,
        "content": [
            {
                "type": "paragraph",
                "content": [
                  {
                    "type": "text",
                    "text": "Hello world"
                  }
                ]
            }
        ]
    }"#;

    let from_str_result = from_str(input);
    let from_value_result = from_value(from_serde(&serde_json::from_str(input).unwrap()));

    assert_eq!(from_str_result, from_value_result);
    assert_eq!(from_value(value_from_str(input).unwrap()), from_value_result);
}

#[test]
fn should_read_blockquote() {
    let input = r#"{
        "type": "doc",
        "version": 1,
        "content": [{
            "type": "blockquote",
            "content": [
                {
                    "type": "paragraph",
                    "content": [
                        {
                            "type": "text",
                            "text": "Hello world"
                        }
                    ]
                }
            ]
        }]
    }"#;

    let from_str_result = from_str(input);
    assert_eq!(
        from_str_result,
        Ok(Node::Doc {
            version: 1,
            content: vec![Node::Blockquote {
                content: vec![Node::Paragraph {
                    content: vec![Node::Text {
                        text: "Hello world".to_string(),
                        marks: None
                    }],
                    attrs: None
                }]
            }]
        })
    );
}

#[test]
fn should_read_bullet_list() {
    let input = r#"{
        "type": "doc",
        "version": 1,
        "content": [{
            "type": "bulletList",
            "content": [
                {
                "type": "listItem",
                "content": [
                    {
                    "type": "paragraph",
                    "content": [
                        {
                        "type": "text",
                        "text": "Hello world"
                        }
                    ]
                    }
                ]
                }
            ]
        }]
    }"#;

    let from_str_result = from_str(input);
    assert_eq!(
        from_str_result,
        Ok(Node::Doc {
            version: 1,
            content: vec![Node::BulletList {
                content: vec![Node::ListItem {
                    content: vec![Node::Paragraph {
                        content: vec![Node::Text {
                            text: "Hello world".to_string(),
                            marks: None
                        }],
                        attrs: None
                    }]
                }]
            }]
        })
    );
}

#[test]
fn should_read_code_block() {
    let input = r#"{
        "type": "doc",
        "version": 1,
        "content": [{
            "type": "codeBlock",
            "attrs": {
                "language": "javascript"
            },
            "content": [
                {
                "type": "text",
                "text": "var foo = {};\nvar bar = [];"
                }
            ]
        }]
    }"#;

    let from_str_result = from_str(input);
    assert_eq!(
        from_str_result,
        Ok(Node::Doc {
            version: 1,
            content: vec![
                Node::CodeBlock {
                    content: vec![
                        Node::Text {
                            text: "var foo = {};\nvar bar = [];".to_string(),
                            marks: None
                        }
                    ].into(),
                    attrs: Some(
                        CodeBlockAttrs {
                            language: "javascript".to_string(),
                        }
                    )
                }
            ]
        })
    );
}

#[test]
fn should_read_date() {
    let input = r#"{
        "type": "doc",
        "version": 1,
        "content": [{
            "type": "paragraph",
            "content": [
                {
                    "type": "date",
                    "attrs": {
                        "timestamp": "1582152559"
                    }
                }
            ]
        }]
    }"#;

    let from_str_result = from_str(input);
    assert_eq!(
        from_str_result,
        Ok(Node::Doc {
            version: 1,
            content: vec![
                Node::Paragraph {
                    content: vec![
                        Node::Date {
                            attrs: DateAttrs {
                                timestamp: "1582152559".to_string(),
                            }
                        }
                    ],
                    attrs: None,
                }
            ]
        })
    );
}

#[test]
fn should_read_doc() {
    let input = r#"{
        "type": "doc",
        "version": 1,
        "content": []
    }"#;

    let from_str_result = from_str(input);
    assert_eq!(
        from_str_result,
        Ok(Node::Doc {
            version: 1,
            content: vec![]
        })
    );
}

#[test]
fn should_read_unicode_emoji() {
    let input = r#"{
        "type": "doc",
        "version": 1,
        "content": [{
            "type": "paragraph",
            "content": [
                {
                   "type": "emoji",
                    "attrs": {
                        "shortName": ":grinning:",
                        "text": "😀"
                    }
                }
            ]
        }]
    }"#;

    let from_str_result = from_str(input);
    assert_eq!(
        from_str_result,
        Ok(Node::Doc {
            version: 1,
            content: vec![
                Node::Paragraph {
                    content: vec![
                        Node::Emoji {
                            attrs: EmojiAttrs {
                                id: None,
                                short_name: ":grinning:".to_string(),
                                text: Some("😀".to_string()),
                            }
                        }
                    ],
                    attrs: None,
                }
            ]
        })
    );
}

#[test]
fn should_read_non_standard_atlassian_emoji() {
    let input = r#"{
        "type": "doc",
        "version": 1,
        "content": [{
            "type": "paragraph",
            "content": [
                {
                    "type": "emoji",
                    "attrs": {
                        "shortName": ":awthanks:",
                        "id": "atlassian-awthanks",
                        "text": ":awthanks:"
                    }
                }
            ]
        }]
    }"#;

    let from_str_result = from_str(input);
    assert_eq!(
        from_str_result,
        Ok(Node::Doc {
            version: 1,
            content: vec![
                Node::Paragraph {
                    content: vec![
                        Node::Emoji {
                            attrs: EmojiAttrs {
                                id: Some("atlassian-awthanks".to_string()),
                                short_name: ":awthanks:".to_string(),
                                text: Some(":awthanks:".to_string()),
                            }
                        }
                    ],
                    attrs: None,
                }
            ]
        })
    );
}

#[test]
fn should_read_non_standard_customer_emoji() {
    let input = r#"{
        "type": "doc",
        "version": 1,
        "content": [{
            "type": "paragraph",
            "content": [
                {
                    "type": "emoji",
                    "attrs": {
                        "shortName": ":thumbsup::skin-tone-2:",
                        "id": "1f44d",
                        "text": "👍🏽"
                    }
                }
            ]
        }]
    }"#;

    let from_str_result = from_str(input);
    assert_eq!(
        from_str_result,
        Ok(Node::Doc {
            version: 1,
            content: vec![
                Node::Paragraph {
                    content: vec![
                        Node::Emoji {
                            attrs: EmojiAttrs {
                                id: Some("1f44d".to_string()),
                                short_name: ":thumbsup::skin-tone-2:".to_string(),
                                text: Some("👍🏽".to_string()),
                            }
                        }
                    ],
                    attrs: None,
                }
            ]
        })
    );
}


#[test]
fn should_read_expand() {
    let input = r#"{
        "type": "doc",
        "version": 1,
        "content": [
            {
              "type": "expand",
              "attrs": {
                "title": "Hello world"
              },
              "content": [
                {
                  "type": "paragraph",
                  "content": [
                    {
                      "type": "text",
                      "text": "Hello world"
                    }
                  ]
                }
              ]
            }
        ]
    }"#;

    let from_str_result = from_str(input);
    assert_eq!(
        from_str_result,
        Ok(Node::Doc {
            version: 1,
            content: vec![
                Node::Expand {
                    content: vec![
                        Node::Paragraph {
                            content: vec![
                                Node::Text {
                                    text: "Hello world".to_string(),
                                    marks: None
                                }
                            ],
                            attrs: None
                        }
                    ],
                    attrs: ExpandAttrs { title: "Hello world".to_string() },
                    marks: None,
                }
            ],
        })
    );
}

#[test]
fn should_read_hard_break() {
    let input = r#"
        {
          "version": 1,
          "type": "doc",
          "content": [
            {
              "type": "paragraph",
              "content": [
                {
                  "type": "text",
                  "text": "Hello"
                },
                {
                  "type": "hardBreak"
                },
                {
                  "type": "text",
                  "text": "world"
                }
              ]
            }
          ]
        }
    "#;

    let from_str_result = from_str(input);
    assert_eq!(
        from_str_result,
        Ok(Node::Doc {
            version: 1,
            content: vec![
                Node::Paragraph {
                    content: vec![
                        Node::Text {
                            text: "Hello".to_string(),
                            marks: None
                        },
                        Node::HardBreak { attrs: None },
                        Node::Text {
                            text: "world".to_string(),
                            marks: None
                        }
                    ],
                    attrs: None,
                }
            ]
        })
    );
}

#[test]
fn should_read_heading() {
    let input = r#"{
        "version": 1,
        "type": "doc",
        "content": [
          {
              "type": "heading",
              "attrs": {
                "level": 1
              },
              "content": [
                {
                  "type": "text",
                  "text": "Heading 1"
                }
              ]
            }
        ]
    }"#;

    let from_str_result = from_str(input);
    assert_eq!(
        from_str_result,
        Ok(Node::Doc {
            version: 1,
            content: vec![
                Node::Heading {
                    content: vec![
                        Node::Text {
                            text: "Heading 1".to_string(),
                            marks: None
                        }
                    ],
                    attrs: HeadingAttrs { level: 1, local_id: None },
                }
            ]
        })
    );
}
