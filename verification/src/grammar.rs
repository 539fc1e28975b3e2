//! The grammar-level node tree, as the external tokenizer hands it over.
//!
//! The tokenizer itself is an external collaborator; this module holds the
//! plain-value image of its output: every construct it distinguishes, each
//! with its source span, plus the metadata adapter that gives any node its
//! kind tag and span.  Spans count characters of the source text.

use vstd::prelude::*;

use crate::ast::DefinitionListItemType;

verus! {

/// The kind of a grammar-level node, as [`NodeMetadata::ty`] reports it.
#[derive(Debug, Clone, Copy, PartialEq, Eq, Structural)]
#[allow(missing_docs)]
pub enum NodeMetadataType {
    Bold,
    BoldItalic,
    Category,
    CharacterEntity,
    Comment,
    DefinitionList,
    EndTag,
    ExternalLink,
    Heading,
    HorizontalDivider,
    Image,
    Italic,
    Link,
    MagicWord,
    OrderedList,
    ParagraphBreak,
    Parameter,
    Preformatted,
    Redirect,
    StartTag,
    Table,
    Tag,
    Template,
    Text,
    UnorderedList,
}

/// Metadata of a grammar-level node: its kind and its span.
#[derive(Debug, Clone, Copy, PartialEq, Eq, Structural)]
pub struct NodeMetadata {
    /// The kind of the node.
    pub ty: NodeMetadataType,
    /// The start position of the node in the source text.
    pub start: usize,
    /// The end position of the node in the source text.
    pub end: usize,
}

/// A parameter of a grammar-level template invocation.
#[derive(Debug)]
pub struct GrammarTemplateParameter {
    /// The end position of the parameter.
    pub end: usize,
    /// The nodes of the parameter name, if the parameter is named.
    pub name: Option<Vec<GrammarNode>>,
    /// The start position of the parameter.
    pub start: usize,
    /// The nodes of the parameter value.
    pub value: Vec<GrammarNode>,
}

/// An item of a grammar-level ordered or unordered list.
#[derive(Debug)]
pub struct GrammarListItem {
    /// The end position of the item.
    pub end: usize,
    /// The content of the item.
    pub nodes: Vec<GrammarNode>,
    /// The start position of the item.
    pub start: usize,
}

/// An item of a grammar-level definition list.
#[derive(Debug)]
pub struct GrammarDefinitionListItem {
    /// The end position of the item.
    pub end: usize,
    /// The content of the item.
    pub nodes: Vec<GrammarNode>,
    /// The start position of the item.
    pub start: usize,
    /// Whether the item is a term (`;`) or details (`:`).
    pub type_: DefinitionListItemType,
}

/// A caption of a grammar-level table.
#[derive(Debug)]
pub struct GrammarTableCaption {
    /// The attribute nodes of the caption, if any.
    pub attributes: Option<Vec<GrammarNode>>,
    /// The content of the caption.
    pub content: Vec<GrammarNode>,
    /// The end position of the caption.
    pub end: usize,
    /// The start position of the caption.
    pub start: usize,
}

/// Whether a grammar-level table cell uses the heading syntax.
#[derive(Debug, Clone, Copy, PartialEq, Eq, Structural)]
pub enum GrammarTableCellType {
    /// A heading cell (`!`).
    Heading,
    /// An ordinary cell (`|`).
    Ordinary,
}

/// A cell of a grammar-level table row.
#[derive(Debug)]
pub struct GrammarTableCell {
    /// The attribute nodes of the cell, if any.
    pub attributes: Option<Vec<GrammarNode>>,
    /// The content of the cell.
    pub content: Vec<GrammarNode>,
    /// The end position of the cell.
    pub end: usize,
    /// The start position of the cell.
    pub start: usize,
    /// Whether the cell uses the heading syntax.
    pub type_: GrammarTableCellType,
}

/// A row of a grammar-level table.
#[derive(Debug)]
pub struct GrammarTableRow {
    /// The attribute nodes of the row.
    pub attributes: Vec<GrammarNode>,
    /// The cells of the row.
    pub cells: Vec<GrammarTableCell>,
    /// The end position of the row.
    pub end: usize,
    /// The start position of the row.
    pub start: usize,
}

/// A grammar-level node: the tokenizer's variant set, with plain values in
/// every field.
#[derive(Debug)]
pub enum GrammarNode {
    /// A bold toggle (`'''`).
    Bold {
        /// The end position of the node.
        end: usize,
        /// The start position of the node.
        start: usize,
    },
    /// A combined bold-italic toggle (`'''''`).
    BoldItalic {
        /// The end position of the node.
        end: usize,
        /// The start position of the node.
        start: usize,
    },
    /// A category assignment.
    Category {
        /// The end position of the node.
        end: usize,
        /// The sort-ordinal nodes, if any.
        ordinal: Vec<GrammarNode>,
        /// The start position of the node.
        start: usize,
        /// The category referred to.
        target: String,
    },
    /// A character entity.
    CharacterEntity {
        /// The character represented.
        character: char,
        /// The end position of the node.
        end: usize,
        /// The start position of the node.
        start: usize,
    },
    /// A comment.
    Comment {
        /// The end position of the node.
        end: usize,
        /// The start position of the node.
        start: usize,
    },
    /// A definition list.
    DefinitionList {
        /// The end position of the node.
        end: usize,
        /// The items of the list.
        items: Vec<GrammarDefinitionListItem>,
        /// The start position of the node.
        start: usize,
    },
    /// An end tag.
    EndTag {
        /// The end position of the node.
        end: usize,
        /// The tag name.
        name: String,
        /// The start position of the node.
        start: usize,
    },
    /// An external link.
    ExternalLink {
        /// The end position of the node.
        end: usize,
        /// The content of the link.
        nodes: Vec<GrammarNode>,
        /// The start position of the node.
        start: usize,
    },
    /// A heading.
    Heading {
        /// The end position of the node.
        end: usize,
        /// The level of the heading, 1 to 6.
        level: u8,
        /// The content of the heading.
        nodes: Vec<GrammarNode>,
        /// The start position of the node.
        start: usize,
    },
    /// A horizontal divider.
    HorizontalDivider {
        /// The end position of the node.
        end: usize,
        /// The start position of the node.
        start: usize,
    },
    /// An image.
    Image {
        /// The end position of the node.
        end: usize,
        /// The start position of the node.
        start: usize,
        /// The file name of the image.
        target: String,
        /// Additional information of the image.
        text: Vec<GrammarNode>,
    },
    /// An italic toggle (`''`).
    Italic {
        /// The end position of the node.
        end: usize,
        /// The start position of the node.
        start: usize,
    },
    /// An internal link.
    Link {
        /// The end position of the node.
        end: usize,
        /// The start position of the node.
        start: usize,
        /// The target of the link.
        target: String,
        /// The display text nodes of the link.
        text: Vec<GrammarNode>,
    },
    /// A magic word.
    MagicWord {
        /// The end position of the node.
        end: usize,
        /// The start position of the node.
        start: usize,
    },
    /// An ordered list.
    OrderedList {
        /// The end position of the node.
        end: usize,
        /// The items of the list.
        items: Vec<GrammarListItem>,
        /// The start position of the node.
        start: usize,
    },
    /// A paragraph break.
    ParagraphBreak {
        /// The end position of the node.
        end: usize,
        /// The start position of the node.
        start: usize,
    },
    /// A parameter placeholder (`{{{...}}}`).
    Parameter {
        /// The default value nodes, if present.
        default: Option<Vec<GrammarNode>>,
        /// The end position of the node.
        end: usize,
        /// The nodes of the parameter name.
        name: Vec<GrammarNode>,
        /// The start position of the node.
        start: usize,
    },
    /// A preformatted block.
    Preformatted {
        /// The end position of the node.
        end: usize,
        /// The content of the block.
        nodes: Vec<GrammarNode>,
        /// The start position of the node.
        start: usize,
    },
    /// A redirect.
    Redirect {
        /// The end position of the node.
        end: usize,
        /// The target of the redirect.
        target: String,
        /// The start position of the node.
        start: usize,
    },
    /// A start tag.
    StartTag {
        /// The end position of the node.
        end: usize,
        /// The tag name.
        name: String,
        /// The start position of the node.
        start: usize,
    },
    /// A table.
    Table {
        /// The attribute nodes of the table.
        attributes: Vec<GrammarNode>,
        /// The captions of the table.
        captions: Vec<GrammarTableCaption>,
        /// The end position of the node.
        end: usize,
        /// The rows of the table.
        rows: Vec<GrammarTableRow>,
        /// The start position of the node.
        start: usize,
    },
    /// An extension tag with children.
    Tag {
        /// The end position of the node.
        end: usize,
        /// The tag name.
        name: String,
        /// The content of the tag.
        nodes: Vec<GrammarNode>,
        /// The start position of the node.
        start: usize,
    },
    /// A template invocation.
    Template {
        /// The end position of the node.
        end: usize,
        /// The nodes of the template name.
        name: Vec<GrammarNode>,
        /// The parameters of the invocation.
        parameters: Vec<GrammarTemplateParameter>,
        /// The start position of the node.
        start: usize,
    },
    /// Plain text.
    Text {
        /// The end position of the node.
        end: usize,
        /// The start position of the node.
        start: usize,
        /// The text, equal to the source slice the span covers.
        value: String,
    },
    /// An unordered list.
    UnorderedList {
        /// The end position of the node.
        end: usize,
        /// The items of the list.
        items: Vec<GrammarListItem>,
        /// The start position of the node.
        start: usize,
    },
}

/// The metadata of a grammar node: its kind tag and its span.
pub open spec fn spec_metadata(n: &GrammarNode) -> NodeMetadata {
    match n {
        GrammarNode::Bold { end, start } => NodeMetadata {
            ty: NodeMetadataType::Bold,
            start: *start,
            end: *end,
        },
        GrammarNode::BoldItalic { end, start } => NodeMetadata {
            ty: NodeMetadataType::BoldItalic,
            start: *start,
            end: *end,
        },
        GrammarNode::Category { end, start, .. } => NodeMetadata {
            ty: NodeMetadataType::Category,
            start: *start,
            end: *end,
        },
        GrammarNode::CharacterEntity { end, start, .. } => NodeMetadata {
            ty: NodeMetadataType::CharacterEntity,
            start: *start,
            end: *end,
        },
        GrammarNode::Comment { end, start } => NodeMetadata {
            ty: NodeMetadataType::Comment,
            start: *start,
            end: *end,
        },
        GrammarNode::DefinitionList { end, start, .. } => NodeMetadata {
            ty: NodeMetadataType::DefinitionList,
            start: *start,
            end: *end,
        },
        GrammarNode::EndTag { end, start, .. } => NodeMetadata {
            ty: NodeMetadataType::EndTag,
            start: *start,
            end: *end,
        },
        GrammarNode::ExternalLink { end, start, .. } => NodeMetadata {
            ty: NodeMetadataType::ExternalLink,
            start: *start,
            end: *end,
        },
        GrammarNode::Heading { end, start, .. } => NodeMetadata {
            ty: NodeMetadataType::Heading,
            start: *start,
            end: *end,
        },
        GrammarNode::HorizontalDivider { end, start } => NodeMetadata {
            ty: NodeMetadataType::HorizontalDivider,
            start: *start,
            end: *end,
        },
        GrammarNode::Image { end, start, .. } => NodeMetadata {
            ty: NodeMetadataType::Image,
            start: *start,
            end: *end,
        },
        GrammarNode::Italic { end, start } => NodeMetadata {
            ty: NodeMetadataType::Italic,
            start: *start,
            end: *end,
        },
        GrammarNode::Link { end, start, .. } => NodeMetadata {
            ty: NodeMetadataType::Link,
            start: *start,
            end: *end,
        },
        GrammarNode::MagicWord { end, start } => NodeMetadata {
            ty: NodeMetadataType::MagicWord,
            start: *start,
            end: *end,
        },
        GrammarNode::OrderedList { end, start, .. } => NodeMetadata {
            ty: NodeMetadataType::OrderedList,
            start: *start,
            end: *end,
        },
        GrammarNode::ParagraphBreak { end, start } => NodeMetadata {
            ty: NodeMetadataType::ParagraphBreak,
            start: *start,
            end: *end,
        },
        GrammarNode::Parameter { end, start, .. } => NodeMetadata {
            ty: NodeMetadataType::Parameter,
            start: *start,
            end: *end,
        },
        GrammarNode::Preformatted { end, start, .. } => NodeMetadata {
            ty: NodeMetadataType::Preformatted,
            start: *start,
            end: *end,
        },
        GrammarNode::Redirect { end, start, .. } => NodeMetadata {
            ty: NodeMetadataType::Redirect,
            start: *start,
            end: *end,
        },
        GrammarNode::StartTag { end, start, .. } => NodeMetadata {
            ty: NodeMetadataType::StartTag,
            start: *start,
            end: *end,
        },
        GrammarNode::Table { end, start, .. } => NodeMetadata {
            ty: NodeMetadataType::Table,
            start: *start,
            end: *end,
        },
        GrammarNode::Tag { end, start, .. } => NodeMetadata {
            ty: NodeMetadataType::Tag,
            start: *start,
            end: *end,
        },
        GrammarNode::Template { end, start, .. } => NodeMetadata {
            ty: NodeMetadataType::Template,
            start: *start,
            end: *end,
        },
        GrammarNode::Text { end, start, .. } => NodeMetadata {
            ty: NodeMetadataType::Text,
            start: *start,
            end: *end,
        },
        GrammarNode::UnorderedList { end, start, .. } => NodeMetadata {
            ty: NodeMetadataType::UnorderedList,
            start: *start,
            end: *end,
        },
    }
}

impl NodeMetadata {
    /// The metadata of a grammar node.
    pub fn for_node(node: &GrammarNode) -> (r: NodeMetadata)
        ensures
            r == spec_metadata(node),
    {
        match node {
            GrammarNode::Bold { end, start } => NodeMetadata {
                ty: NodeMetadataType::Bold,
                start: *start,
                end: *end,
            },
            GrammarNode::BoldItalic { end, start } => NodeMetadata {
                ty: NodeMetadataType::BoldItalic,
                start: *start,
                end: *end,
            },
            GrammarNode::Category { end, start, .. } => NodeMetadata {
                ty: NodeMetadataType::Category,
                start: *start,
                end: *end,
            },
            GrammarNode::CharacterEntity { end, start, .. } => NodeMetadata {
                ty: NodeMetadataType::CharacterEntity,
                start: *start,
                end: *end,
            },
            GrammarNode::Comment { end, start } => NodeMetadata {
                ty: NodeMetadataType::Comment,
                start: *start,
                end: *end,
            },
            GrammarNode::DefinitionList { end, start, .. } => NodeMetadata {
                ty: NodeMetadataType::DefinitionList,
                start: *start,
                end: *end,
            },
            GrammarNode::EndTag { end, start, .. } => NodeMetadata {
                ty: NodeMetadataType::EndTag,
                start: *start,
                end: *end,
            },
            GrammarNode::ExternalLink { end, start, .. } => NodeMetadata {
                ty: NodeMetadataType::ExternalLink,
                start: *start,
                end: *end,
            },
            GrammarNode::Heading { end, start, .. } => NodeMetadata {
                ty: NodeMetadataType::Heading,
                start: *start,
                end: *end,
            },
            GrammarNode::HorizontalDivider { end, start } => NodeMetadata {
                ty: NodeMetadataType::HorizontalDivider,
                start: *start,
                end: *end,
            },
            GrammarNode::Image { end, start, .. } => NodeMetadata {
                ty: NodeMetadataType::Image,
                start: *start,
                end: *end,
            },
            GrammarNode::Italic { end, start } => NodeMetadata {
                ty: NodeMetadataType::Italic,
                start: *start,
                end: *end,
            },
            GrammarNode::Link { end, start, .. } => NodeMetadata {
                ty: NodeMetadataType::Link,
                start: *start,
                end: *end,
            },
            GrammarNode::MagicWord { end, start } => NodeMetadata {
                ty: NodeMetadataType::MagicWord,
                start: *start,
                end: *end,
            },
            GrammarNode::OrderedList { end, start, .. } => NodeMetadata {
                ty: NodeMetadataType::OrderedList,
                start: *start,
                end: *end,
            },
            GrammarNode::ParagraphBreak { end, start } => NodeMetadata {
                ty: NodeMetadataType::ParagraphBreak,
                start: *start,
                end: *end,
            },
            GrammarNode::Parameter { end, start, .. } => NodeMetadata {
                ty: NodeMetadataType::Parameter,
                start: *start,
                end: *end,
            },
            GrammarNode::Preformatted { end, start, .. } => NodeMetadata {
                ty: NodeMetadataType::Preformatted,
                start: *start,
                end: *end,
            },
            GrammarNode::Redirect { end, start, .. } => NodeMetadata {
                ty: NodeMetadataType::Redirect,
                start: *start,
                end: *end,
            },
            GrammarNode::StartTag { end, start, .. } => NodeMetadata {
                ty: NodeMetadataType::StartTag,
                start: *start,
                end: *end,
            },
            GrammarNode::Table { end, start, .. } => NodeMetadata {
                ty: NodeMetadataType::Table,
                start: *start,
                end: *end,
            },
            GrammarNode::Tag { end, start, .. } => NodeMetadata {
                ty: NodeMetadataType::Tag,
                start: *start,
                end: *end,
            },
            GrammarNode::Template { end, start, .. } => NodeMetadata {
                ty: NodeMetadataType::Template,
                start: *start,
                end: *end,
            },
            GrammarNode::Text { end, start, .. } => NodeMetadata {
                ty: NodeMetadataType::Text,
                start: *start,
                end: *end,
            },
            GrammarNode::UnorderedList { end, start, .. } => NodeMetadata {
                ty: NodeMetadataType::UnorderedList,
                start: *start,
                end: *end,
            },
        }
    }
}

/// Whether a grammar node is well formed against a source text of `len`
/// characters: every span lies within the source with `start <= end`, every
/// text node's value is as long as its span, and every template parameter's
/// value nodes cover a valid source range.
pub open spec fn wf_node(n: GrammarNode, len: int) -> bool
    decreases n,
{
    let m = spec_metadata(&n);
    &&& m.start <= m.end
    &&& m.end <= len
    &&& match n {
        GrammarNode::Category { ordinal, .. } => wf_nodes(ordinal@, len),
        GrammarNode::DefinitionList { items, .. } => wf_definition_list_items(items@, len),
        GrammarNode::ExternalLink { nodes, .. } => wf_nodes(nodes@, len),
        GrammarNode::Heading { nodes, .. } => wf_nodes(nodes@, len),
        GrammarNode::Image { text, .. } => wf_nodes(text@, len),
        GrammarNode::Link { text, .. } => wf_nodes(text@, len),
        GrammarNode::OrderedList { items, .. } => wf_list_items(items@, len),
        GrammarNode::UnorderedList { items, .. } => wf_list_items(items@, len),
        GrammarNode::Parameter { name, default, .. } => wf_nodes(name@, len) && (match default {
            Some(d) => wf_nodes(d@, len),
            None => true,
        }),
        GrammarNode::Preformatted { nodes, .. } => wf_nodes(nodes@, len),
        GrammarNode::Table { attributes, captions, rows, .. } => wf_nodes(attributes@, len)
            && wf_captions(captions@, len) && wf_rows(rows@, len),
        GrammarNode::Tag { nodes, .. } => wf_nodes(nodes@, len),
        GrammarNode::Template { name, parameters, .. } => wf_nodes(name@, len) && wf_parameters(
            parameters@,
            len,
        ) && parameters@.len() < usize::MAX,
        GrammarNode::Text { value, start, end } => value@.len() == end - start,
        _ => true,
    }
}

/// Whether every node of a list is well formed.
pub open spec fn wf_nodes(s: Seq<GrammarNode>, len: int) -> bool
    decreases s,
{
    forall|i: int| 0 <= i < s.len() ==> wf_node(#[trigger] s[i], len)
}

/// Whether every parameter of a template is well formed: its name and value
/// nodes are, and a non-empty value covers a valid source range.
pub open spec fn wf_parameters(s: Seq<GrammarTemplateParameter>, len: int) -> bool
    decreases s,
{
    forall|i: int|
        0 <= i < s.len() ==> wf_parameter(#[trigger] s[i], len)
}

/// Whether one template parameter is well formed.
pub open spec fn wf_parameter(p: GrammarTemplateParameter, len: int) -> bool
    decreases p,
{
    &&& match p.name {
        Some(n) => wf_nodes(n@, len),
        None => true,
    }
    &&& wf_nodes(p.value@, len)
    &&& (p.value@.len() > 0 ==> spec_metadata(&p.value@[0]).start <= spec_metadata(
        &p.value@.last(),
    ).end)
}

/// Whether every item of an ordered or unordered list is well formed.
pub open spec fn wf_list_items(s: Seq<GrammarListItem>, len: int) -> bool
    decreases s,
{
    forall|i: int| 0 <= i < s.len() ==> wf_nodes(#[trigger] s[i].nodes@, len)
}

/// Whether every item of a definition list is well formed.
pub open spec fn wf_definition_list_items(s: Seq<GrammarDefinitionListItem>, len: int) -> bool
    decreases s,
{
    forall|i: int| 0 <= i < s.len() ==> wf_nodes(#[trigger] s[i].nodes@, len)
}

/// Whether one caption of a table is well formed.
pub open spec fn wf_caption(c: GrammarTableCaption, len: int) -> bool
    decreases c,
{
    wf_nodes(c.content@, len) && (match c.attributes {
        Some(a) => wf_nodes(a@, len),
        None => true,
    })
}

/// Whether every caption of a table is well formed.
pub open spec fn wf_captions(s: Seq<GrammarTableCaption>, len: int) -> bool
    decreases s,
{
    forall|i: int| 0 <= i < s.len() ==> wf_caption(#[trigger] s[i], len)
}

/// Whether one cell of a table row is well formed.
pub open spec fn wf_cell(c: GrammarTableCell, len: int) -> bool
    decreases c,
{
    wf_nodes(c.content@, len) && (match c.attributes {
        Some(a) => wf_nodes(a@, len),
        None => true,
    })
}

/// Whether every cell of a table row is well formed.
pub open spec fn wf_cells(s: Seq<GrammarTableCell>, len: int) -> bool
    decreases s,
{
    forall|i: int| 0 <= i < s.len() ==> wf_cell(#[trigger] s[i], len)
}

/// Whether one row of a table is well formed.
pub open spec fn wf_row(r: GrammarTableRow, len: int) -> bool
    decreases r,
{
    wf_nodes(r.attributes@, len) && wf_cells(r.cells@, len)
}

/// Whether every row of a table is well formed.
pub open spec fn wf_rows(s: Seq<GrammarTableRow>, len: int) -> bool
    decreases s,
{
    forall|i: int| 0 <= i < s.len() ==> wf_row(#[trigger] s[i], len)
}

/// The raw source text covered by a list of nodes: the concatenation of each
/// node's source slice.
pub open spec fn spec_nodes_wikitext(src: Seq<char>, gs: Seq<GrammarNode>) -> Seq<char>
    decreases gs,
{
    if gs.len() == 0 {
        Seq::empty()
    } else {
        spec_nodes_wikitext(src, gs.drop_last()) + src.subrange(
            spec_metadata(&gs.last()).start as int,
            spec_metadata(&gs.last()).end as int,
        )
    }
}

/// Extracts the raw wikitext covered by a sequence of nodes, preserving the
/// original formatting.
#[verifier::loop_isolation(false)]
pub fn nodes_wikitext(original_wikitext: &str, nodes: &[GrammarNode]) -> (r: String)
    requires
        wf_nodes(nodes@, original_wikitext@.len() as int),
    ensures
        r@ == spec_nodes_wikitext(original_wikitext@, nodes@),
{
    let mut out = String::new();
    let mut i: usize = 0;
    while i < nodes.len()
        invariant
            i <= nodes@.len(),
            out@ == spec_nodes_wikitext(original_wikitext@, nodes@.take(i as int)),
        decreases nodes@.len() - i,
    {
        let m = NodeMetadata::for_node(&nodes[i]);
        let piece = original_wikitext.substring_char(m.start, m.end);
        out.append(piece);
        proof {
            assert(nodes@.take(i + 1).drop_last() =~= nodes@.take(i as int));
            assert(nodes@.take(i + 1).last() == nodes@[i as int]);
        }
        i += 1;
    }
    proof {
        assert(nodes@.take(nodes@.len() as int) =~= nodes@);
    }
    out
}

/// Checks that one grammar node is well formed against a source of `len`
/// characters.
#[verifier::loop_isolation(false)]
pub fn check_wf_node(node: &GrammarNode, len: usize) -> (r: bool)
    ensures
        r == wf_node(*node, len as int),
    decreases *node, 3int,
{
    let m = NodeMetadata::for_node(node);
    if !(m.start <= m.end && m.end <= len) {
        return false;
    }
    match node {
        GrammarNode::Category { ordinal, .. } => check_wf_nodes(ordinal.as_slice(), len),
        GrammarNode::DefinitionList { items, .. } => check_wf_definition_list_items(items, len),
        GrammarNode::ExternalLink { nodes, .. } => check_wf_nodes(nodes.as_slice(), len),
        GrammarNode::Heading { nodes, .. } => check_wf_nodes(nodes.as_slice(), len),
        GrammarNode::Image { text, .. } => check_wf_nodes(text.as_slice(), len),
        GrammarNode::Link { text, .. } => check_wf_nodes(text.as_slice(), len),
        GrammarNode::OrderedList { items, .. } => check_wf_list_items(items, len),
        GrammarNode::UnorderedList { items, .. } => check_wf_list_items(items, len),
        GrammarNode::Parameter { name, default, .. } => {
            if !check_wf_nodes(name.as_slice(), len) {
                false
            } else {
                match default {
                    Some(d) => check_wf_nodes(d.as_slice(), len),
                    None => true,
                }
            }
        },
        GrammarNode::Preformatted { nodes, .. } => check_wf_nodes(nodes.as_slice(), len),
        GrammarNode::Table { attributes, captions, rows, .. } => {
            check_wf_nodes(attributes.as_slice(), len) && check_wf_captions(captions, len)
                && check_wf_rows(rows, len)
        },
        GrammarNode::Tag { nodes, .. } => check_wf_nodes(nodes.as_slice(), len),
        GrammarNode::Template { name, parameters, .. } => {
            check_wf_nodes(name.as_slice(), len) && parameters.len() < usize::MAX
                && check_wf_parameters(parameters, len)
        },
        GrammarNode::Text { value, start, end } => {
            let vlen = value.as_str().unicode_len();
            vlen == *end - *start
        },
        _ => true,
    }
}

/// Checks that every item of a definition list is well formed.
#[verifier::loop_isolation(false)]
fn check_wf_definition_list_items(items: &Vec<GrammarDefinitionListItem>, len: usize) -> (r: bool)
    ensures
        r == wf_definition_list_items(items@, len as int),
    decreases items@, 4int,
{
    let mut i: usize = 0;
    let mut ok = true;
    while i < items.len()
        invariant
            i <= items@.len(),
            ok == (forall|j: int| 0 <= j < i ==> wf_nodes(#[trigger] items@[j].nodes@, len as int)),
        decreases items@.len() - i,
    {
        if !check_wf_nodes(items[i].nodes.as_slice(), len) {
            ok = false;
            i = items.len();
        } else {
            i += 1;
        }
    }
    ok
}

/// Checks that every caption of a table is well formed.
#[verifier::loop_isolation(false)]
fn check_wf_captions(cs: &Vec<GrammarTableCaption>, len: usize) -> (r: bool)
    ensures
        r == wf_captions(cs@, len as int),
    decreases cs@, 4int,
{
    let mut i: usize = 0;
    let mut ok = true;
    while i < cs.len()
        invariant
            i <= cs@.len(),
            ok == (forall|j: int| 0 <= j < i ==> wf_caption(#[trigger] cs@[j], len as int)),
        decreases cs@.len() - i,
    {
        let c_ok = check_wf_nodes(cs[i].content.as_slice(), len) && (match &cs[i].attributes {
            Some(a) => check_wf_nodes(a.as_slice(), len),
            None => true,
        });
        proof {
            assert(c_ok == wf_caption(cs@[i as int], len as int));
        }
        if !c_ok {
            ok = false;
            i = cs.len();
        } else {
            i += 1;
        }
    }
    ok
}

/// Checks that every row of a table is well formed.
#[verifier::loop_isolation(false)]
fn check_wf_rows(rs: &Vec<GrammarTableRow>, len: usize) -> (r: bool)
    ensures
        r == wf_rows(rs@, len as int),
    decreases rs@, 5int,
{
    let mut i: usize = 0;
    let mut ok = true;
    while i < rs.len()
        invariant
            i <= rs@.len(),
            ok == (forall|j: int| 0 <= j < i ==> wf_row(#[trigger] rs@[j], len as int)),
        decreases rs@.len() - i,
    {
        let r_ok = check_wf_nodes(rs[i].attributes.as_slice(), len) && check_wf_cells(
            &rs[i].cells,
            len,
        );
        proof {
            assert(r_ok == wf_row(rs@[i as int], len as int));
        }
        if !r_ok {
            ok = false;
            i = rs.len();
        } else {
            i += 1;
        }
    }
    ok
}

/// Checks that every parameter of a template is well formed.
#[verifier::loop_isolation(false)]
fn check_wf_parameters(ps: &Vec<GrammarTemplateParameter>, len: usize) -> (r: bool)
    ensures
        r == wf_parameters(ps@, len as int),
    decreases ps@, 5int,
{
    let mut i: usize = 0;
    let mut ok = true;
    while i < ps.len()
        invariant
            i <= ps@.len(),
            ok == (forall|j: int| 0 <= j < i ==> wf_parameter(#[trigger] ps@[j], len as int)),
        decreases ps@.len() - i,
    {
        if !check_wf_parameter(&ps[i], len) {
            ok = false;
            i = ps.len();
        } else {
            i += 1;
        }
    }
    ok
}

/// Checks that one template parameter is well formed.
#[verifier::loop_isolation(false)]
fn check_wf_parameter(p: &GrammarTemplateParameter, len: usize) -> (r: bool)
    ensures
        r == wf_parameter(*p, len as int),
    decreases *p, 4int,
{
    let name_ok = match &p.name {
        Some(n) => check_wf_nodes(n.as_slice(), len),
        None => true,
    };
    if !name_ok {
        return false;
    }
    if !check_wf_nodes(p.value.as_slice(), len) {
        return false;
    }
    if p.value.len() > 0 {
        let m0 = NodeMetadata::for_node(&p.value[0]);
        let m1 = NodeMetadata::for_node(&p.value[p.value.len() - 1]);
        m0.start <= m1.end
    } else {
        true
    }
}

/// Checks that the cells of a table row are well formed.
#[verifier::loop_isolation(false)]
fn check_wf_cells(cs: &Vec<GrammarTableCell>, len: usize) -> (r: bool)
    ensures
        r == wf_cells(cs@, len as int),
    decreases cs@, 4int,
{
    let mut i: usize = 0;
    let mut ok = true;
    while i < cs.len()
        invariant
            i <= cs@.len(),
            ok == (forall|j: int| 0 <= j < i ==> wf_cell(#[trigger] cs@[j], len as int)),
        decreases cs@.len() - i,
    {
        let c_ok = check_wf_nodes(cs[i].content.as_slice(), len) && (match &cs[i].attributes {
            Some(a) => check_wf_nodes(a.as_slice(), len),
            None => true,
        });
        proof {
            assert(c_ok == wf_cell(cs@[i as int], len as int));
        }
        if !c_ok {
            ok = false;
            i = cs.len();
        } else {
            i += 1;
        }
    }
    ok
}

/// Checks that the items of an ordered or unordered list are well formed.
#[verifier::loop_isolation(false)]
fn check_wf_list_items(items: &Vec<GrammarListItem>, len: usize) -> (r: bool)
    ensures
        r == wf_list_items(items@, len as int),
    decreases items@, 4int,
{
    let mut i: usize = 0;
    let mut ok = true;
    while i < items.len()
        invariant
            i <= items@.len(),
            ok == (forall|j: int| 0 <= j < i ==> wf_nodes(#[trigger] items@[j].nodes@, len as int)),
        decreases items@.len() - i,
    {
        if !check_wf_nodes(items[i].nodes.as_slice(), len) {
            ok = false;
            i = items.len();
        } else {
            i += 1;
        }
    }
    ok
}

/// Checks that every node of a list is well formed against a source of `len`
/// characters.
#[verifier::loop_isolation(false)]
pub fn check_wf_nodes(nodes: &[GrammarNode], len: usize) -> (r: bool)
    ensures
        r == wf_nodes(nodes@, len as int),
    decreases nodes@, 4int,
{
    let mut i: usize = 0;
    let mut ok = true;
    while i < nodes.len()
        invariant
            i <= nodes@.len(),
            ok == (forall|j: int| 0 <= j < i ==> wf_node(#[trigger] nodes@[j], len as int)),
        decreases nodes@.len() - i,
    {
        if !check_wf_node(&nodes[i], len) {
            ok = false;
            i = nodes.len();
        } else {
            i += 1;
        }
    }
    ok
}

/// The immediate child nodes a grammar node carries for text extraction:
/// exactly the kinds whose metadata exposed a child slice — external links,
/// headings, images, links, preformatted blocks and extension tags.
pub open spec fn spec_grammar_children(n: &GrammarNode) -> Option<&Vec<GrammarNode>> {
    match n {
        GrammarNode::ExternalLink { nodes, .. } => Some(nodes),
        GrammarNode::Heading { nodes, .. } => Some(nodes),
        GrammarNode::Image { text, .. } => Some(text),
        GrammarNode::Link { text, .. } => Some(text),
        GrammarNode::Preformatted { nodes, .. } => Some(nodes),
        GrammarNode::Tag { nodes, .. } => Some(nodes),
        _ => None,
    }
}

impl GrammarNode {
    /// The immediate child nodes this node carries for text extraction, for
    /// the kinds that have them; the companion of [`NodeMetadata::for_node`].
    pub fn children(&self) -> (r: Option<&Vec<GrammarNode>>)
        ensures
            r == spec_grammar_children(self),
    {
        match self {
            GrammarNode::ExternalLink { nodes, .. } => Some(nodes),
            GrammarNode::Heading { nodes, .. } => Some(nodes),
            GrammarNode::Image { text, .. } => Some(text),
            GrammarNode::Link { text, .. } => Some(text),
            GrammarNode::Preformatted { nodes, .. } => Some(nodes),
            GrammarNode::Tag { nodes, .. } => Some(nodes),
            _ => None,
        }
    }
}

} // verus!
