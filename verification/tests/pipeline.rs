//! End-to-end tests: wikitext through the external tokenizer, converted to
//! grammar nodes, simplified, serialized, and template-expanded.

use std::collections::HashMap;

use parse_wiki_text_2 as pwt;

use wikitext_simplified::{
    check_wf_nodes, simplify_wikitext_nodes, DefinitionListItemType, GrammarDefinitionListItem,
    GrammarListItem, GrammarNode, GrammarTableCaption, GrammarTableCell, GrammarTableCellType,
    GrammarTableRow, GrammarTemplateParameter, NodeStructureError, SimplificationError, Span,
    Spanned, TemplateContext, TemplateError, TemplateEvaluator, TemplateParameter,
    TemplateToInstantiate, WikitextSimplifiedDefinitionListItem, WikitextSimplifiedListItem,
    WikitextSimplifiedNode as WSN, WikitextSimplifiedTableCaption, WikitextSimplifiedTableCell,
    WikitextSimplifiedTableRow,
};

/// The character index of a byte offset in `src`.
fn char_index(src: &str, byte: usize) -> usize {
    src[..byte].chars().count()
}

fn conv_nodes(src: &str, nodes: &[pwt::Node]) -> Vec<GrammarNode> {
    nodes.iter().map(|n| conv_node(src, n)).collect()
}

fn conv_opt_nodes(src: &str, nodes: &Option<Vec<pwt::Node>>) -> Option<Vec<GrammarNode>> {
    nodes.as_ref().map(|ns| conv_nodes(src, ns))
}

fn conv_node(src: &str, n: &pwt::Node) -> GrammarNode {
    let ci = |b: usize| char_index(src, b);
    match n {
        pwt::Node::Bold { end, start } => GrammarNode::Bold {
            end: ci(*end),
            start: ci(*start),
        },
        pwt::Node::BoldItalic { end, start } => GrammarNode::BoldItalic {
            end: ci(*end),
            start: ci(*start),
        },
        pwt::Node::Category {
            end,
            ordinal,
            start,
            target,
        } => GrammarNode::Category {
            end: ci(*end),
            ordinal: conv_nodes(src, ordinal),
            start: ci(*start),
            target: target.to_string(),
        },
        pwt::Node::CharacterEntity {
            character,
            end,
            start,
        } => GrammarNode::CharacterEntity {
            character: *character,
            end: ci(*end),
            start: ci(*start),
        },
        pwt::Node::Comment { end, start } => GrammarNode::Comment {
            end: ci(*end),
            start: ci(*start),
        },
        pwt::Node::DefinitionList { end, items, start } => GrammarNode::DefinitionList {
            end: ci(*end),
            items: items
                .iter()
                .map(|it| GrammarDefinitionListItem {
                    end: ci(it.end),
                    nodes: conv_nodes(src, &it.nodes),
                    start: ci(it.start),
                    type_: match it.type_ {
                        pwt::DefinitionListItemType::Term => DefinitionListItemType::Term,
                        pwt::DefinitionListItemType::Details => DefinitionListItemType::Details,
                    },
                })
                .collect(),
            start: ci(*start),
        },
        pwt::Node::EndTag { end, name, start } => GrammarNode::EndTag {
            end: ci(*end),
            name: name.to_string(),
            start: ci(*start),
        },
        pwt::Node::ExternalLink { end, nodes, start } => GrammarNode::ExternalLink {
            end: ci(*end),
            nodes: conv_nodes(src, nodes),
            start: ci(*start),
        },
        pwt::Node::Heading {
            end,
            level,
            nodes,
            start,
        } => GrammarNode::Heading {
            end: ci(*end),
            level: *level,
            nodes: conv_nodes(src, nodes),
            start: ci(*start),
        },
        pwt::Node::HorizontalDivider { end, start } => GrammarNode::HorizontalDivider {
            end: ci(*end),
            start: ci(*start),
        },
        pwt::Node::Image {
            end,
            start,
            target,
            text,
        } => GrammarNode::Image {
            end: ci(*end),
            start: ci(*start),
            target: target.to_string(),
            text: conv_nodes(src, text),
        },
        pwt::Node::Italic { end, start } => GrammarNode::Italic {
            end: ci(*end),
            start: ci(*start),
        },
        pwt::Node::Link {
            end,
            start,
            target,
            text,
        } => GrammarNode::Link {
            end: ci(*end),
            start: ci(*start),
            target: target.to_string(),
            text: conv_nodes(src, text),
        },
        pwt::Node::MagicWord { end, start } => GrammarNode::MagicWord {
            end: ci(*end),
            start: ci(*start),
        },
        pwt::Node::OrderedList { end, items, start } => GrammarNode::OrderedList {
            end: ci(*end),
            items: conv_list_items(src, items),
            start: ci(*start),
        },
        pwt::Node::ParagraphBreak { end, start } => GrammarNode::ParagraphBreak {
            end: ci(*end),
            start: ci(*start),
        },
        pwt::Node::Parameter {
            default,
            end,
            name,
            start,
        } => GrammarNode::Parameter {
            default: conv_opt_nodes(src, default),
            end: ci(*end),
            name: conv_nodes(src, name),
            start: ci(*start),
        },
        pwt::Node::Preformatted { end, nodes, start } => GrammarNode::Preformatted {
            end: ci(*end),
            nodes: conv_nodes(src, nodes),
            start: ci(*start),
        },
        pwt::Node::Redirect { end, target, start } => GrammarNode::Redirect {
            end: ci(*end),
            target: target.to_string(),
            start: ci(*start),
        },
        pwt::Node::StartTag { end, name, start } => GrammarNode::StartTag {
            end: ci(*end),
            name: name.to_string(),
            start: ci(*start),
        },
        pwt::Node::Table {
            attributes,
            captions,
            end,
            rows,
            start,
        } => GrammarNode::Table {
            attributes: conv_nodes(src, attributes),
            captions: captions
                .iter()
                .map(|c| GrammarTableCaption {
                    attributes: conv_opt_nodes(src, &c.attributes),
                    content: conv_nodes(src, &c.content),
                    end: ci(c.end),
                    start: ci(c.start),
                })
                .collect(),
            end: ci(*end),
            rows: rows
                .iter()
                .map(|r| GrammarTableRow {
                    attributes: conv_nodes(src, &r.attributes),
                    cells: r
                        .cells
                        .iter()
                        .map(|c| GrammarTableCell {
                            attributes: conv_opt_nodes(src, &c.attributes),
                            content: conv_nodes(src, &c.content),
                            end: ci(c.end),
                            start: ci(c.start),
                            type_: match c.type_ {
                                pwt::TableCellType::Heading => GrammarTableCellType::Heading,
                                pwt::TableCellType::Ordinary => GrammarTableCellType::Ordinary,
                            },
                        })
                        .collect(),
                    end: ci(r.end),
                    start: ci(r.start),
                })
                .collect(),
            start: ci(*start),
        },
        pwt::Node::Tag {
            end,
            name,
            nodes,
            start,
        } => GrammarNode::Tag {
            end: ci(*end),
            name: name.to_string(),
            nodes: conv_nodes(src, nodes),
            start: ci(*start),
        },
        pwt::Node::Template {
            end,
            name,
            parameters,
            start,
        } => GrammarNode::Template {
            end: ci(*end),
            name: conv_nodes(src, name),
            parameters: parameters
                .iter()
                .map(|p| GrammarTemplateParameter {
                    end: ci(p.end),
                    name: conv_opt_nodes(src, &p.name),
                    start: ci(p.start),
                    value: conv_nodes(src, &p.value),
                })
                .collect(),
            start: ci(*start),
        },
        pwt::Node::Text { end, start, value } => GrammarNode::Text {
            end: ci(*end),
            start: ci(*start),
            value: value.to_string(),
        },
        pwt::Node::UnorderedList { end, items, start } => GrammarNode::UnorderedList {
            end: ci(*end),
            items: conv_list_items(src, items),
            start: ci(*start),
        },
    }
}

fn conv_list_items(src: &str, items: &[pwt::ListItem]) -> Vec<GrammarListItem> {
    items
        .iter()
        .map(|it| GrammarListItem {
            end: char_index(src, it.end),
            nodes: conv_nodes(src, &it.nodes),
            start: char_index(src, it.start),
        })
        .collect()
}

fn wikipedia_configuration() -> pwt::Configuration {
    pwt::Configuration::new(&pwt::ConfigurationSource {
        category_namespaces: &["category"],
        extension_tags: &[
            "categorytree",
            "ce",
            "charinsert",
            "chem",
            "gallery",
            "graph",
            "hiero",
            "imagemap",
            "indicator",
            "inputbox",
            "langconvert",
            "mapframe",
            "maplink",
            "math",
            "nowiki",
            "poem",
            "pre",
            "ref",
            "references",
            "score",
            "section",
            "source",
            "syntaxhighlight",
            "templatedata",
            "templatestyles",
            "timeline",
        ],
        file_namespaces: &["file", "image"],
        link_trail: "abcdefghijklmnopqrstuvwxyz",
        magic_words: &[
            "disambig",
            "expected_unconnected_page",
            "expectunusedcategory",
            "forcetoc",
            "hiddencat",
            "index",
            "newsectionlink",
            "nocc",
            "nocontentconvert",
            "noeditsection",
            "nogallery",
            "noglobal",
            "noindex",
            "nonewsectionlink",
            "notc",
            "notitleconvert",
            "notoc",
            "staticredirect",
            "toc",
        ],
        protocols: &[
            "//",
            "bitcoin:",
            "ftp://",
            "ftps://",
            "geo:",
            "git://",
            "gopher://",
            "http://",
            "https://",
            "irc://",
            "ircs://",
            "magnet:",
            "mailto:",
            "mms://",
            "news:",
            "nntp://",
            "redis://",
            "sftp://",
            "sip:",
            "sips:",
            "sms:",
            "ssh://",
            "svn://",
            "tel:",
            "telnet://",
            "urn:",
            "worldwind://",
            "xmpp:",
        ],
        redirect_magic_words: &["redirect"],
    })
}

fn parse_and_simplify(wikitext: &str) -> Result<Vec<Spanned<WSN>>, SimplificationError> {
    let config = wikipedia_configuration();
    let output = config.parse(wikitext).expect("tokenizer failed");
    let nodes = conv_nodes(wikitext, &output.nodes);
    assert!(check_wf_nodes(&nodes, wikitext.chars().count()));
    simplify_wikitext_nodes(wikitext, &nodes)
}

fn sp(value: WSN, start: usize, end: usize) -> Spanned<WSN> {
    Spanned {
        value,
        span: Span { start, end },
    }
}

fn spanned(value: WSN) -> Spanned<WSN> {
    Spanned {
        value,
        span: Span { start: 0, end: 0 },
    }
}

#[test]
fn test_s_after_link() {
    let wikitext = "cool [[thing]]s by cool [[Person|person]]s";
    let simplified = parse_and_simplify(wikitext).unwrap();
    assert_eq!(
        simplified,
        vec![
            sp(
                WSN::Text {
                    text: "cool ".into()
                },
                0,
                5
            ),
            sp(
                WSN::Link {
                    text: "things".into(),
                    title: "thing".into()
                },
                5,
                15
            ),
            sp(
                WSN::Text {
                    text: " by cool ".into()
                },
                15,
                24
            ),
            sp(
                WSN::Link {
                    text: "persons".into(),
                    title: "Person".into()
                },
                24,
                42
            ),
        ]
    )
}

#[test]
fn can_parse_wikitext_in_link() {
    let wikitext = r#"[[Time signature|{{music|time|4|4}}]]"#;
    let simplified = parse_and_simplify(wikitext).unwrap();
    assert_eq!(
        simplified,
        vec![spanned(WSN::Link {
            text: "{{music|time|4|4}}".into(),
            title: "Time signature".into()
        })]
    )
}

#[test]
fn will_gracefully_ignore_refs() {
    let wikitext = r#"<ref name=bigtakeover>{{cite web|author=Kristen Sollee|title=Japanese Rock on NPR|work=[[The Big Takeover]]|date=2006-06-25|url=http://www.bigtakeover.com/news/japanese-rock-on-npr|access-date=2013-06-07|quote=It's a style of dress, there's a lot of costuming and make up and it's uniquely Japanese because it goes back to ancient Japan. Men would often wear women's clothing...}}</ref>"#;
    let simplified = parse_and_simplify(wikitext).unwrap();
    assert_eq!(simplified, vec![]);
}

#[test]
fn will_simplify_nested_template_parameters() {
    let wikitext = r#"{{{description|{{{file_name}}}}}}"#;
    let simplified = parse_and_simplify(wikitext).unwrap();
    assert_eq!(
        simplified,
        vec![spanned(WSN::TemplateParameterUse {
            name: "description".into(),
            default: Some(vec![spanned(WSN::TemplateParameterUse {
                name: "file_name".into(),
                default: None,
            })]),
        })]
    );
}

#[test]
fn will_simplify_template_parameter_inside_html_tag() {
    let wikitext = r#"<span style="color:#505050;font-size:80%">{{{1}}}</span>"#;
    let simplified = parse_and_simplify(wikitext).unwrap();
    assert_eq!(
        simplified,
        vec![spanned(WSN::Tag {
            name: "span".into(),
            attributes: Some(r#"style="color:#505050;font-size:80%""#.into()),
            children: vec![spanned(WSN::TemplateParameterUse {
                name: "1".into(),
                default: None,
            })],
        })]
    );
}

#[test]
fn can_parse_heading() {
    let wikitext = r#"==Heading=="#;
    let simplified = parse_and_simplify(wikitext).unwrap();
    assert_eq!(
        simplified,
        vec![sp(
            WSN::Heading {
                level: 2,
                children: vec![sp(
                    WSN::Text {
                        text: "Heading".into(),
                    },
                    2,
                    9
                )],
            },
            0,
            11
        )]
    );
}

#[test]
fn test_basic_text() {
    let wikitext = "Hello, world!";
    let simplified = parse_and_simplify(wikitext).unwrap();
    assert_eq!(
        simplified,
        vec![sp(
            WSN::Text {
                text: "Hello, world!".into()
            },
            0,
            13
        )]
    );
}

#[test]
fn test_bold_text() {
    let wikitext = "'''bold text'''";
    let simplified = parse_and_simplify(wikitext).unwrap();
    assert_eq!(
        simplified,
        vec![sp(
            WSN::Bold {
                children: vec![sp(
                    WSN::Text {
                        text: "bold text".into()
                    },
                    3,
                    12
                )]
            },
            0,
            15
        )]
    );
}

#[test]
fn test_italic_text() {
    let wikitext = "''italic text''";
    let simplified = parse_and_simplify(wikitext).unwrap();
    assert_eq!(
        simplified,
        vec![sp(
            WSN::Italic {
                children: vec![sp(
                    WSN::Text {
                        text: "italic text".into()
                    },
                    2,
                    13
                )]
            },
            0,
            15
        )]
    );
}

#[test]
fn test_bold_italic_text() {
    let wikitext = "'''''bold italic text'''''";
    let simplified = parse_and_simplify(wikitext).unwrap();
    assert_eq!(
        simplified,
        vec![sp(
            WSN::Bold {
                children: vec![sp(
                    WSN::Italic {
                        children: vec![sp(
                            WSN::Text {
                                text: "bold italic text".into()
                            },
                            5,
                            21
                        )]
                    },
                    0,
                    26
                )]
            },
            0,
            26
        )]
    );
}

#[test]
fn test_mixed_formatting() {
    let wikitext = "This is '''bold''', this is ''italic'', and this is '''''bold italic'''''";
    let simplified = parse_and_simplify(wikitext).unwrap();
    assert_eq!(
        simplified,
        vec![
            spanned(WSN::Text {
                text: "This is ".into()
            }),
            spanned(WSN::Bold {
                children: vec![spanned(WSN::Text {
                    text: "bold".into()
                })]
            }),
            spanned(WSN::Text {
                text: ", this is ".into()
            }),
            spanned(WSN::Italic {
                children: vec![spanned(WSN::Text {
                    text: "italic".into()
                })]
            }),
            spanned(WSN::Text {
                text: ", and this is ".into()
            }),
            spanned(WSN::Bold {
                children: vec![spanned(WSN::Italic {
                    children: vec![spanned(WSN::Text {
                        text: "bold italic".into()
                    })]
                })]
            })
        ]
    );
}

#[test]
fn test_internal_link() {
    let wikitext = "[[Main Page]]";
    let simplified = parse_and_simplify(wikitext).unwrap();
    assert_eq!(
        simplified,
        vec![sp(
            WSN::Link {
                text: "Main Page".into(),
                title: "Main Page".into()
            },
            0,
            13
        )]
    );
}

#[test]
fn test_internal_link_with_text() {
    let wikitext = "[[Main Page|Home]]";
    let simplified = parse_and_simplify(wikitext).unwrap();
    assert_eq!(
        simplified,
        vec![sp(
            WSN::Link {
                text: "Home".into(),
                title: "Main Page".into()
            },
            0,
            18
        )]
    );
}

#[test]
fn test_external_link() {
    let wikitext = "[https://example.com]";
    let simplified = parse_and_simplify(wikitext).unwrap();
    assert_eq!(
        simplified,
        vec![sp(
            WSN::ExtLink {
                link: "https://example.com".into(),
                text: None
            },
            0,
            21
        )]
    );
}

#[test]
fn test_external_link_with_text() {
    let wikitext = "[https://example.com Example]";
    let simplified = parse_and_simplify(wikitext).unwrap();
    assert_eq!(
        simplified,
        vec![sp(
            WSN::ExtLink {
                link: "https://example.com".into(),
                text: Some("Example".into())
            },
            0,
            29
        )]
    );
}

#[test]
fn test_simple_template() {
    let wikitext = "{{Template}}";
    let simplified = parse_and_simplify(wikitext).unwrap();
    assert_eq!(
        simplified,
        vec![sp(
            WSN::Template {
                name: "Template".into(),
                parameters: vec![]
            },
            0,
            12
        )]
    );
}

#[test]
fn test_template_with_parameters() {
    let wikitext = "{{Template|param1=value1|param2=value2}}";
    let simplified = parse_and_simplify(wikitext).unwrap();
    assert_eq!(
        simplified,
        vec![sp(
            WSN::Template {
                name: "Template".into(),
                parameters: vec![
                    TemplateParameter {
                        name: "param1".into(),
                        value: "value1".into()
                    },
                    TemplateParameter {
                        name: "param2".into(),
                        value: "value2".into()
                    }
                ]
            },
            0,
            40
        )]
    );
}

#[test]
fn test_template_with_unnamed_parameters() {
    let wikitext = "{{Template|value1|value2}}";
    let simplified = parse_and_simplify(wikitext).unwrap();
    assert_eq!(
        simplified,
        vec![sp(
            WSN::Template {
                name: "Template".into(),
                parameters: vec![
                    TemplateParameter {
                        name: "1".into(),
                        value: "value1".into()
                    },
                    TemplateParameter {
                        name: "2".into(),
                        value: "value2".into()
                    }
                ]
            },
            0,
            26
        )]
    );
}

#[test]
fn test_html_tag() {
    let wikitext = "<span>Hello</span>";
    let simplified = parse_and_simplify(wikitext).unwrap();
    assert_eq!(
        simplified,
        vec![spanned(WSN::Tag {
            name: "span".into(),
            attributes: None,
            children: vec![spanned(WSN::Text {
                text: "Hello".into()
            })]
        })]
    );
}

#[test]
fn test_html_tag_with_attributes() {
    let wikitext = r#"<span style="color:red">Red text</span>"#;
    let simplified = parse_and_simplify(wikitext).unwrap();
    assert_eq!(
        simplified,
        vec![spanned(WSN::Tag {
            name: "span".into(),
            attributes: Some("style=\"color:red\"".into()),
            children: vec![spanned(WSN::Text {
                text: "Red text".into()
            })]
        })]
    );
}

#[test]
fn test_blockquote() {
    let wikitext = "<blockquote>Quoted text</blockquote>";
    let simplified = parse_and_simplify(wikitext).unwrap();
    assert_eq!(
        simplified,
        vec![spanned(WSN::Blockquote {
            children: vec![spanned(WSN::Text {
                text: "Quoted text".into()
            })]
        })]
    );
}

#[test]
fn test_superscript() {
    let wikitext = "<sup>superscript</sup>";
    let simplified = parse_and_simplify(wikitext).unwrap();
    assert_eq!(
        simplified,
        vec![spanned(WSN::Superscript {
            children: vec![spanned(WSN::Text {
                text: "superscript".into()
            })]
        })]
    );
}

#[test]
fn test_subscript() {
    let wikitext = "<sub>subscript</sub>";
    let simplified = parse_and_simplify(wikitext).unwrap();
    assert_eq!(
        simplified,
        vec![spanned(WSN::Subscript {
            children: vec![spanned(WSN::Text {
                text: "subscript".into()
            })]
        })]
    );
}

#[test]
fn test_small_text() {
    let wikitext = "<small>small text</small>";
    let simplified = parse_and_simplify(wikitext).unwrap();
    assert_eq!(
        simplified,
        vec![spanned(WSN::Small {
            children: vec![spanned(WSN::Text {
                text: "small text".into()
            })]
        })]
    );
}

#[test]
fn test_preformatted() {
    let wikitext = "<pre>preformatted text</pre>";
    let simplified = parse_and_simplify(wikitext).unwrap();
    assert_eq!(
        simplified,
        vec![spanned(WSN::Preformatted {
            children: vec![spanned(WSN::Text {
                text: "preformatted text".into()
            })]
        })]
    );
}

#[test]
fn test_paragraph_breaks() {
    let wikitext = "Paragraph 1\n\nParagraph 2";
    let simplified = parse_and_simplify(wikitext).unwrap();
    assert_eq!(
        simplified,
        vec![
            sp(
                WSN::Text {
                    text: "Paragraph 1".into()
                },
                0,
                11
            ),
            sp(WSN::ParagraphBreak, 11, 13),
            sp(
                WSN::Text {
                    text: "Paragraph 2".into()
                },
                13,
                24
            )
        ]
    );
}

#[test]
fn test_nested_formatting() {
    let wikitext = "'''bold with ''italic'' inside'''";
    let simplified = parse_and_simplify(wikitext).unwrap();
    assert_eq!(
        simplified,
        vec![spanned(WSN::Bold {
            children: vec![
                spanned(WSN::Text {
                    text: "bold with ".into()
                }),
                spanned(WSN::Italic {
                    children: vec![spanned(WSN::Text {
                        text: "italic".into()
                    })]
                }),
                spanned(WSN::Text {
                    text: " inside".into()
                })
            ]
        })]
    );
}

#[test]
fn test_template_in_link() {
    let wikitext = "[[Page|{{Template}}]]";
    let simplified = parse_and_simplify(wikitext).unwrap();
    assert_eq!(
        simplified,
        vec![spanned(WSN::Link {
            text: "{{Template}}".into(),
            title: "Page".into()
        })]
    );
}

#[test]
fn test_formatting_in_template() {
    let wikitext = "{{Template|param='''bold'''}}";
    let simplified = parse_and_simplify(wikitext).unwrap();
    assert_eq!(
        simplified,
        vec![spanned(WSN::Template {
            name: "Template".into(),
            parameters: vec![TemplateParameter {
                name: "param".into(),
                value: "'''bold'''".into()
            }]
        })]
    );
}

#[test]
fn test_mismatched_tags() {
    let wikitext = "<span>text</div>";
    let result = parse_and_simplify(wikitext);
    assert!(result.is_err());
    if let Err(SimplificationError::InvalidNodeStructure { kind, .. }) = result {
        assert!(matches!(kind, NodeStructureError::TagClosureMismatch { .. }));
    } else {
        panic!("Expected TagClosureMismatch error");
    }
}

#[test]
fn test_table_conversion() {
    let wikitext = r#"{| class="wikitable"
|+ Caption
|-
! Header 1 !! Header 2
|-
| Cell 1 || Cell 2
|-
| Cell 3 || Cell 4
|}"#;
    let simplified = parse_and_simplify(wikitext).unwrap();
    assert_eq!(
        simplified,
        vec![spanned(WSN::Table {
            attributes: vec![spanned(WSN::Text {
                text: "class=\"wikitable\"".into()
            })],
            captions: vec![WikitextSimplifiedTableCaption {
                attributes: None,
                content: vec![spanned(WSN::Text {
                    text: "Caption".into()
                })]
            }],
            rows: vec![
                WikitextSimplifiedTableRow {
                    attributes: vec![],
                    cells: vec![
                        WikitextSimplifiedTableCell {
                            attributes: None,
                            content: vec![spanned(WSN::Text {
                                text: "Header 1".into()
                            })],
                            is_header: true,
                        },
                        WikitextSimplifiedTableCell {
                            attributes: None,
                            content: vec![spanned(WSN::Text {
                                text: "Header 2".into()
                            })],
                            is_header: true,
                        }
                    ]
                },
                WikitextSimplifiedTableRow {
                    attributes: vec![],
                    cells: vec![
                        WikitextSimplifiedTableCell {
                            attributes: None,
                            content: vec![spanned(WSN::Text {
                                text: "Cell 1".into()
                            })],
                            is_header: false,
                        },
                        WikitextSimplifiedTableCell {
                            attributes: None,
                            content: vec![spanned(WSN::Text {
                                text: "Cell 2".into()
                            })],
                            is_header: false,
                        }
                    ]
                },
                WikitextSimplifiedTableRow {
                    attributes: vec![],
                    cells: vec![
                        WikitextSimplifiedTableCell {
                            attributes: None,
                            content: vec![spanned(WSN::Text {
                                text: "Cell 3".into()
                            })],
                            is_header: false,
                        },
                        WikitextSimplifiedTableCell {
                            attributes: None,
                            content: vec![spanned(WSN::Text {
                                text: "Cell 4".into()
                            })],
                            is_header: false,
                        }
                    ]
                }
            ]
        })]
    );
}

#[test]
fn test_redirect() {
    let wikitext = "#REDIRECT [[Target Page]]";
    let simplified = parse_and_simplify(wikitext).unwrap();
    assert_eq!(
        simplified,
        vec![sp(
            WSN::Redirect {
                target: "Target Page".into()
            },
            0,
            25
        )]
    );
}

#[test]
fn can_handle_nested_defaults_in_template_parameters() {
    let wikitext = r#"[[Lua/{{{1}}}/{{{2}}}/Functions/{{{3}}}|{{{4|{{{2}}}:{{{3}}}}}}]]"#;
    let simplified = parse_and_simplify(wikitext).unwrap();
    assert_eq!(
        simplified,
        vec![
            spanned(WSN::Text {
                text: "[[Lua/".to_string()
            }),
            spanned(WSN::TemplateParameterUse {
                name: "1".into(),
                default: None
            }),
            spanned(WSN::Text { text: "/".into() }),
            spanned(WSN::TemplateParameterUse {
                name: "2".into(),
                default: None
            }),
            spanned(WSN::Text {
                text: "/Functions/".into()
            }),
            spanned(WSN::TemplateParameterUse {
                name: "3".into(),
                default: None
            }),
            spanned(WSN::Text { text: "|".into() }),
            spanned(WSN::TemplateParameterUse {
                name: "4".into(),
                default: Some(vec![
                    spanned(WSN::TemplateParameterUse {
                        name: "2".into(),
                        default: None
                    }),
                    spanned(WSN::Text { text: ":".into() }),
                    spanned(WSN::TemplateParameterUse {
                        name: "3".into(),
                        default: None
                    })
                ])
            }),
            spanned(WSN::Text { text: "]]".into() })
        ]
    );
}

#[test]
fn can_handle_conventional_tags() {
    let wikitext = r#"<syntaxhighlight line>
effects = {}

-- Make sure to clean up everything on ModuleUnload.
Events:Subscribe("ModuleUnload", function()
	for index, effect in ipairs(effects) do
		effect:Remove()
	end
end)
</syntaxhighlight>"#;
    let simplified = parse_and_simplify(wikitext).unwrap();
    assert_eq!(
        simplified,
        vec![spanned(WSN::Tag {
            name: "syntaxhighlight".into(),
            attributes: Some("line".into()),
            children: vec![
                spanned(WSN::Text {
                    text: "\neffects = {}\n\n-- Make sure to clean up everything on ModuleUnload.\nEvents:Subscribe(\"ModuleUnload\", function()\n\tfor index, effect in ipairs(effects) do\n\t\teffect:Remove()\n\tend\nend)\n".into(),
                })
            ]
        })]
    );
}

#[test]
fn can_handle_horizontal_divider() {
    let wikitext = "----";
    let simplified = parse_and_simplify(wikitext).unwrap();
    assert_eq!(simplified, vec![sp(WSN::HorizontalDivider, 0, 4)]);
}

#[test]
fn returns_verbatim_texts_for_unclosed_single_tags() {
    {
        let wikitext = r#"<font size="3">"#;
        let simplified = parse_and_simplify(wikitext).unwrap();
        assert_eq!(
            simplified,
            vec![spanned(WSN::Text {
                text: r#"<font size="3">"#.into()
            })]
        );
    }
    {
        let wikitext = r#"</font>"#;
        let simplified = parse_and_simplify(wikitext).unwrap();
        assert_eq!(
            simplified,
            vec![spanned(WSN::Text {
                text: r#"</font>"#.into()
            })]
        );
    }
}

#[test]
fn can_handle_lists_underneath_headers() {
    let wikitext = r#"==0.1.4a (Available on the publicbeta branch)==

====New features====

* Shared
** Overhauled the logging system to support unicode (the first of many unicode additions to come)
** Added console command for profiling Lua modules; usage: profiler_sample {{Arg|number_of_seconds}}"#;
    let simplified = parse_and_simplify(wikitext).unwrap();
    assert_eq!(
        simplified,
        vec![
            spanned(WSN::Heading {
                level: 2,
                children: vec![spanned(WSN::Text {
                    text: "0.1.4a (Available on the publicbeta branch)".into()
                })]
            }),
            spanned(WSN::Heading {
                level: 4,
                children: vec![spanned(WSN::Text {
                    text: "New features".into()
                })]
            }),
            spanned(WSN::UnorderedList {
                items: vec![WikitextSimplifiedListItem {
                    content: vec![
                        spanned(WSN::Text { text: "Shared".into() }),
                        spanned(WSN::UnorderedList {
                            items: vec![
                                WikitextSimplifiedListItem {
                                    content: vec![spanned(WSN::Text {
                                        text: "Overhauled the logging system to support unicode (the first of many unicode additions to come)".into()
                                    })]
                                },
                                WikitextSimplifiedListItem {
                                    content: vec![
                                        spanned(WSN::Text {
                                            text: "Added console command for profiling Lua modules; usage: profiler_sample ".into()
                                        }),
                                        spanned(WSN::Template {
                                            name: "Arg".into(),
                                            parameters: vec![TemplateParameter {
                                                name: "1".into(),
                                                value: "number_of_seconds".into()
                                            }]
                                        })
                                    ]
                                }
                            ]
                        })
                    ]
                }]
            })
        ]
    );
}

#[test]
fn test_multiline_wikitext_roundtrip() {
    let sample = r#"----
{|
!width="120" align="right"|<font size="3">Returns</font> &nbsp;&nbsp;
|<font size="3">[[Lua/Server/CellID|CellID]]</font>
|-
!width="120" align="right"|<font size="3">Prototype</font> &nbsp;&nbsp;
|<font size="3">StreamableObject:GetCellId()</font>
|-
!width="120" align="right"|<font size="3">Description</font> &nbsp;&nbsp;
|<font size="3">No description</font>
|}
<br/>"#;
    let simplified = parse_and_simplify(sample).unwrap();
    assert_eq!(
        WSN::Fragment {
            children: simplified
        }
        .to_wikitext(),
        sample
    );
}

#[test]
fn test_warning_box_instantiated_table() {
    let sample = r#"<center>
{|border="1"
|- style="background:#e02020; color:white"
!width="800" height="50"|<br/><font size="3">Please note: This documentation is a major work in progress.<br/>Expect it to be greatly improved over time.</font>
|}
</center>"#;
    let simplified = parse_and_simplify(sample).unwrap();
    assert_eq!(
        WSN::Fragment {
            children: simplified
        }
        .to_wikitext(),
        sample
    );
}

#[test]
fn test_definition_list() {
    let wikitext = r#";Term 1
:Definition 1
;Term 2
:Definition 2"#;
    let simplified = parse_and_simplify(wikitext).unwrap();
    assert_eq!(
        simplified,
        vec![spanned(WSN::DefinitionList {
            items: vec![
                WikitextSimplifiedDefinitionListItem {
                    type_: DefinitionListItemType::Term,
                    content: vec![spanned(WSN::Text {
                        text: "Term 1".into()
                    })]
                },
                WikitextSimplifiedDefinitionListItem {
                    type_: DefinitionListItemType::Details,
                    content: vec![spanned(WSN::Text {
                        text: "Definition 1".into()
                    })]
                },
                WikitextSimplifiedDefinitionListItem {
                    type_: DefinitionListItemType::Term,
                    content: vec![spanned(WSN::Text {
                        text: "Term 2".into()
                    })]
                },
                WikitextSimplifiedDefinitionListItem {
                    type_: DefinitionListItemType::Details,
                    content: vec![spanned(WSN::Text {
                        text: "Definition 2".into()
                    })]
                }
            ]
        })]
    );
}

#[test]
fn test_definition_list_with_formatting() {
    let wikitext = r#";'''Bold Term'''
:''Italic Definition''"#;
    let simplified = parse_and_simplify(wikitext).unwrap();
    assert_eq!(
        simplified,
        vec![spanned(WSN::DefinitionList {
            items: vec![
                WikitextSimplifiedDefinitionListItem {
                    type_: DefinitionListItemType::Term,
                    content: vec![spanned(WSN::Bold {
                        children: vec![spanned(WSN::Text {
                            text: "Bold Term".into()
                        })]
                    })]
                },
                WikitextSimplifiedDefinitionListItem {
                    type_: DefinitionListItemType::Details,
                    content: vec![spanned(WSN::Italic {
                        children: vec![spanned(WSN::Text {
                            text: "Italic Definition".into()
                        })]
                    })]
                }
            ]
        })]
    );
}

/// In-memory template loader for testing.
struct MockContext {
    configuration: pwt::Configuration,
    templates: HashMap<String, String>,
    magic_variables: HashMap<String, String>,
}

impl MockContext {
    fn new() -> Self {
        Self {
            configuration: wikipedia_configuration(),
            templates: HashMap::new(),
            magic_variables: HashMap::new(),
        }
    }

    fn add_template(&mut self, name: &str, content: &str) {
        let key = name.to_lowercase().replace(" ", "_");
        self.templates.insert(key, content.to_string());
    }

    fn add_magic_variable(&mut self, name: &str, value: &str) {
        self.magic_variables
            .insert(name.to_lowercase(), value.to_string());
    }
}

impl TemplateContext for MockContext {
    fn resolve_magic_variable(&self, name: &str) -> Option<String> {
        self.magic_variables.get(&name.to_lowercase()).cloned()
    }

    fn load_template(&self, name: &str) -> Result<String, TemplateError> {
        let key = name.to_lowercase().replace(" ", "_");
        self.templates
            .get(&key)
            .cloned()
            .ok_or_else(|| TemplateError::TemplateNotFound {
                name: name.to_string(),
                key,
            })
    }

    fn parse_wikitext(&self, wikitext: &str) -> Result<Vec<GrammarNode>, String> {
        match self.configuration.parse(wikitext) {
            Ok(output) => Ok(conv_nodes(wikitext, &output.nodes)),
            Err(e) => Err(format!("{:?}", e)),
        }
    }
}

#[test]
fn test_nested_table_template_instantiation() {
    let mut context = MockContext::new();

    context.add_template("lua/cellalign", r#"align="right""#);

    context.add_template(
        "lua/testtable",
        r#"{| class="wikitable"
!Returns
!Prototype
|-
|{{Lua/CellAlign}} | TypeA
|align="left" | FunctionA()
|-
|{{Lua/CellAlign}} | TypeB
|align="left" | FunctionB()
|}"#,
    );

    let mut evaluator = TemplateEvaluator::new(&context);

    let result = evaluator.instantiate(TemplateToInstantiate::Name("Lua/TestTable"), &[]);

    let table_node = match &result {
        WSN::Table { .. } => &result,
        WSN::Fragment { children } => {
            &children
                .iter()
                .find(|node| matches!(node.value, WSN::Table { .. }))
                .expect("Fragment should contain a Table node")
                .value
        }
        _ => panic!(
            "Expected Table or Fragment with Table node, got {:?}",
            result
        ),
    };

    match table_node {
        WSN::Table { rows, .. } => {
            assert_eq!(rows.len(), 3, "Table should have 3 rows (1 header + 2 data)");

            assert_eq!(rows[1].cells.len(), 2, "First data row should have 2 cells");

            if let Some(attrs) = &rows[1].cells[0].attributes {
                let attrs_node = WSN::Fragment {
                    children: attrs.clone(),
                };
                let attrs_text = attrs_node.to_wikitext();
                assert!(
                    attrs_text.contains("right"),
                    "First cell should have 'align=right' attribute from template expansion"
                );
            }

            let cell_content = WSN::Fragment {
                children: rows[1].cells[0].content.clone(),
            }
            .to_wikitext();
            assert!(
                !cell_content.contains("FunctionA"),
                "First cell should not contain content from second cell"
            );
            assert!(
                cell_content.contains("TypeA"),
                "First cell should contain TypeA"
            );

            let cell2_content = WSN::Fragment {
                children: rows[1].cells[1].content.clone(),
            }
            .to_wikitext();
            assert!(
                cell2_content.contains("FunctionA"),
                "Second cell should contain FunctionA"
            );
        }
        _ => panic!("Expected Table node, got {:?}", result),
    }
}

#[test]
fn test_non_table_template_uses_roundtrip() {
    let mut context = MockContext::new();

    context.add_template("boldtext", "'''important'''");

    let mut evaluator = TemplateEvaluator::new(&context);

    let result = evaluator.instantiate(TemplateToInstantiate::Name("BoldText"), &[]);

    match result {
        WSN::Fragment { children } => {
            assert!(
                children
                    .iter()
                    .any(|node| matches!(node.value, WSN::Bold { .. })),
                "Template should be reparsed into Bold node through wikitext roundtrip"
            );
        }
        WSN::Bold { .. } => {}
        _ => panic!("Expected Bold or Fragment with Bold node, got {:?}", result),
    }
}

#[test]
fn test_magic_variable_resolution() {
    let mut context = MockContext::new();
    context.add_magic_variable("subpagename", "TestPage");
    context.add_template("greet", "Hello, {{{subpagename}}}!");

    let mut evaluator = TemplateEvaluator::new(&context);

    let result = evaluator.instantiate(TemplateToInstantiate::Name("greet"), &[]);

    let text = result.to_wikitext();
    assert!(
        text.contains("TestPage"),
        "Magic variable should be resolved: {text}"
    );
}

#[test]
fn magic_variable_expansion_is_exact() {
    let mut context = MockContext::new();
    context.add_magic_variable("subpagename", "TestPage");
    context.add_template("greet", "Hello, {{{subpagename}}}!");

    let mut evaluator = TemplateEvaluator::new(&context);
    let result = evaluator.instantiate(TemplateToInstantiate::Name("greet"), &[]);
    assert_eq!(result.to_wikitext(), "Hello, TestPage!");
}

#[test]
fn parameter_binding_beats_default() {
    let mut context = MockContext::new();
    context.add_template("wrap", "A{{{1|d}}}B");

    let mut evaluator = TemplateEvaluator::new(&context);
    let bound = evaluator.instantiate(
        TemplateToInstantiate::Name("wrap"),
        &[TemplateParameter {
            name: "1".into(),
            value: "x".into(),
        }],
    );
    assert_eq!(bound.to_wikitext(), "AxB");

    let mut evaluator = TemplateEvaluator::new(&context);
    let defaulted = evaluator.instantiate(TemplateToInstantiate::Name("wrap"), &[]);
    assert_eq!(defaulted.to_wikitext(), "AdB");
}
