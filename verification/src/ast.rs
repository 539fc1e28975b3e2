//! The simplified AST: a closed set of node kinds with source spans.

use vstd::prelude::*;

verus! {

/// A range in the source text.
///
/// Offsets count characters of the source text (the unit of the text's
/// abstract view), with `start <= end` for every node the simplifier builds.
#[derive(Debug, Clone, Copy, PartialEq, Eq, Structural)]
pub struct Span {
    /// The start position in the source text.
    pub start: usize,
    /// The end position in the source text.
    pub end: usize,
}

/// A value paired with the span it was read from.
#[derive(Debug)]
pub struct Spanned<T> {
    /// The wrapped value.
    pub value: T,
    /// The span of this value in the source text.
    pub span: Span,
}

/// A parameter of a template invocation.
///
/// `name` is either the explicit parameter name or the stringified 1-based
/// ordinal of an unnamed positional parameter.  `value` is the raw source
/// substring covering the parameter's value nodes.
#[derive(Debug)]
pub struct TemplateParameter {
    /// The name of the parameter.
    pub name: String,
    /// The value of the parameter.
    pub value: String,
}

/// Whether a definition list item is a term (`;`) or details (`:`).
#[derive(Debug, Clone, Copy, PartialEq, Eq, Structural)]
pub enum DefinitionListItemType {
    /// A term item (`;`).
    Term,
    /// A details item (`:`).
    Details,
}

/// A caption of a table.
#[derive(Debug)]
pub struct WikitextSimplifiedTableCaption {
    /// The HTML attributes of the caption, if any.
    pub attributes: Option<Vec<Spanned<WikitextSimplifiedNode>>>,
    /// The content of the caption.
    pub content: Vec<Spanned<WikitextSimplifiedNode>>,
}

/// A row of a table.
#[derive(Debug)]
pub struct WikitextSimplifiedTableRow {
    /// The HTML attributes of the row.
    pub attributes: Vec<Spanned<WikitextSimplifiedNode>>,
    /// The cells in the row.
    pub cells: Vec<WikitextSimplifiedTableCell>,
}

/// A cell of a table row.
#[derive(Debug)]
pub struct WikitextSimplifiedTableCell {
    /// Whether this cell uses the header (`!`) syntax.
    pub is_header: bool,
    /// The HTML attributes of the cell, if any.
    pub attributes: Option<Vec<Spanned<WikitextSimplifiedNode>>>,
    /// The content of the cell.
    pub content: Vec<Spanned<WikitextSimplifiedNode>>,
}

/// An item of an ordered or unordered list.
#[derive(Debug)]
pub struct WikitextSimplifiedListItem {
    /// The content of the list item.
    pub content: Vec<Spanned<WikitextSimplifiedNode>>,
}

/// An item of a definition list.
#[derive(Debug)]
pub struct WikitextSimplifiedDefinitionListItem {
    /// The kind of item.
    pub type_: DefinitionListItemType,
    /// The content of the list item.
    pub content: Vec<Spanned<WikitextSimplifiedNode>>,
}

/// A simplified wikitext node.
///
/// The closed set of node kinds the simplifier produces; far smaller and more
/// regular than the grammar-level variant set.
#[derive(Debug)]
pub enum WikitextSimplifiedNode {
    /// A container holding an ordered sequence of sibling nodes.
    Fragment {
        /// The child nodes of this fragment.
        children: Vec<Spanned<WikitextSimplifiedNode>>,
    },
    /// A template invocation.
    Template {
        /// The name of the template.
        name: String,
        /// The parameters passed to the template.
        parameters: Vec<TemplateParameter>,
    },
    /// A use of a parameter placeholder within a template body.
    TemplateParameterUse {
        /// The name of the parameter.
        name: String,
        /// The default expression, if present.
        default: Option<Vec<Spanned<WikitextSimplifiedNode>>>,
    },
    /// A heading.
    Heading {
        /// The level of the heading, 1 to 6.
        level: u8,
        /// The content of the heading.
        children: Vec<Spanned<WikitextSimplifiedNode>>,
    },
    /// An internal wiki link.
    Link {
        /// The display text of the link.
        text: String,
        /// The target page of the link.
        title: String,
    },
    /// An external link.
    ExtLink {
        /// The URL of the link.
        link: String,
        /// The display text of the link, if present.
        text: Option<String>,
    },
    /// Bold formatting.
    Bold {
        /// The content of the bold span.
        children: Vec<Spanned<WikitextSimplifiedNode>>,
    },
    /// Italic formatting.
    Italic {
        /// The content of the italic span.
        children: Vec<Spanned<WikitextSimplifiedNode>>,
    },
    /// A blockquote.
    Blockquote {
        /// The content of the blockquote.
        children: Vec<Spanned<WikitextSimplifiedNode>>,
    },
    /// Superscript formatting.
    Superscript {
        /// The content of the superscript span.
        children: Vec<Spanned<WikitextSimplifiedNode>>,
    },
    /// Subscript formatting.
    Subscript {
        /// The content of the subscript span.
        children: Vec<Spanned<WikitextSimplifiedNode>>,
    },
    /// Small-text formatting.
    Small {
        /// The content of the small-text span.
        children: Vec<Spanned<WikitextSimplifiedNode>>,
    },
    /// A preformatted block.
    Preformatted {
        /// The content of the preformatted block.
        children: Vec<Spanned<WikitextSimplifiedNode>>,
    },
    /// A generic tag.
    Tag {
        /// The name of the tag.
        name: String,
        /// The attribute text of the tag, if any.
        attributes: Option<String>,
        /// The content of the tag.
        children: Vec<Spanned<WikitextSimplifiedNode>>,
    },
    /// Plain text.
    Text {
        /// The text content.
        text: String,
    },
    /// A table.
    Table {
        /// The HTML attributes of the table.
        attributes: Vec<Spanned<WikitextSimplifiedNode>>,
        /// The captions of the table.
        captions: Vec<WikitextSimplifiedTableCaption>,
        /// The rows of the table.
        rows: Vec<WikitextSimplifiedTableRow>,
    },
    /// An ordered list.
    OrderedList {
        /// The items of the list.
        items: Vec<WikitextSimplifiedListItem>,
    },
    /// An unordered list.
    UnorderedList {
        /// The items of the list.
        items: Vec<WikitextSimplifiedListItem>,
    },
    /// A definition list.
    DefinitionList {
        /// The items of the list.
        items: Vec<WikitextSimplifiedDefinitionListItem>,
    },
    /// A redirect.
    Redirect {
        /// The target page of the redirect.
        target: String,
    },
    /// A horizontal divider.
    HorizontalDivider,
    /// A paragraph break.
    ParagraphBreak,
    /// A line break.
    Newline,
}

impl WikitextSimplifiedNode {
    /// The kebab-case name of this node's kind.
    pub fn node_type(&self) -> (r: &'static str)
        ensures
            r@ == spec_node_type(self),
    {
        match self {
            Self::Fragment { .. } => "fragment",
            Self::Template { .. } => "template",
            Self::TemplateParameterUse { .. } => "template-parameter-use",
            Self::Heading { .. } => "heading",
            Self::Link { .. } => "link",
            Self::ExtLink { .. } => "ext-link",
            Self::Bold { .. } => "bold",
            Self::Italic { .. } => "italic",
            Self::Blockquote { .. } => "blockquote",
            Self::Superscript { .. } => "superscript",
            Self::Subscript { .. } => "subscript",
            Self::Small { .. } => "small",
            Self::Preformatted { .. } => "preformatted",
            Self::Tag { .. } => "tag",
            Self::Text { .. } => "text",
            Self::Table { .. } => "table",
            Self::OrderedList { .. } => "ordered-list",
            Self::UnorderedList { .. } => "unordered-list",
            Self::DefinitionList { .. } => "definition-list",
            Self::Redirect { .. } => "redirect",
            Self::HorizontalDivider => "horizontal-divider",
            Self::ParagraphBreak => "paragraph-break",
            Self::Newline => "newline",
        }
    }

    /// Whether this node is a block-level construct (heading, table, or list).
    pub fn is_block_type(&self) -> (r: bool)
        ensures
            r == spec_is_block_type(self),
    {
        match self {
            Self::Heading { .. } => true,
            Self::Table { .. } => true,
            Self::OrderedList { .. } => true,
            Self::UnorderedList { .. } => true,
            Self::DefinitionList { .. } => true,
            _ => false,
        }
    }

    /// The immediate children of this node, for the node kinds that hold a
    /// plain child list.  Children nested deeper in table, list and
    /// definition-list substructure are not reachable through this accessor.
    pub fn children(&self) -> (r: Option<&Vec<Spanned<WikitextSimplifiedNode>>>)
        ensures
            r == spec_children(self),
    {
        match self {
            Self::Fragment { children } => Some(children),
            Self::Heading { children, .. } => Some(children),
            Self::Bold { children } => Some(children),
            Self::Italic { children } => Some(children),
            Self::Blockquote { children } => Some(children),
            Self::Superscript { children } => Some(children),
            Self::Subscript { children } => Some(children),
            Self::Small { children } => Some(children),
            Self::Preformatted { children } => Some(children),
            Self::Tag { children, .. } => Some(children),
            _ => None,
        }
    }
}

impl WikitextSimplifiedNode {
    /// A mutable borrow of the immediate child list, for the node kinds that
    /// hold one.
    pub fn children_mut(&mut self) -> (r: Option<&mut Vec<Spanned<WikitextSimplifiedNode>>>) {
        match self {
            Self::Fragment { children } => Some(children),
            Self::Heading { children, .. } => Some(children),
            Self::Bold { children } => Some(children),
            Self::Italic { children } => Some(children),
            Self::Blockquote { children } => Some(children),
            Self::Superscript { children } => Some(children),
            Self::Subscript { children } => Some(children),
            Self::Small { children } => Some(children),
            Self::Preformatted { children } => Some(children),
            Self::Tag { children, .. } => Some(children),
            _ => None,
        }
    }
}

/// The kebab-case kind name of a node, as [`WikitextSimplifiedNode::node_type`]
/// returns it.
pub open spec fn spec_node_type(n: &WikitextSimplifiedNode) -> Seq<char> {
    match n {
        WikitextSimplifiedNode::Fragment { .. } => "fragment"@,
        WikitextSimplifiedNode::Template { .. } => "template"@,
        WikitextSimplifiedNode::TemplateParameterUse { .. } => "template-parameter-use"@,
        WikitextSimplifiedNode::Heading { .. } => "heading"@,
        WikitextSimplifiedNode::Link { .. } => "link"@,
        WikitextSimplifiedNode::ExtLink { .. } => "ext-link"@,
        WikitextSimplifiedNode::Bold { .. } => "bold"@,
        WikitextSimplifiedNode::Italic { .. } => "italic"@,
        WikitextSimplifiedNode::Blockquote { .. } => "blockquote"@,
        WikitextSimplifiedNode::Superscript { .. } => "superscript"@,
        WikitextSimplifiedNode::Subscript { .. } => "subscript"@,
        WikitextSimplifiedNode::Small { .. } => "small"@,
        WikitextSimplifiedNode::Preformatted { .. } => "preformatted"@,
        WikitextSimplifiedNode::Tag { .. } => "tag"@,
        WikitextSimplifiedNode::Text { .. } => "text"@,
        WikitextSimplifiedNode::Table { .. } => "table"@,
        WikitextSimplifiedNode::OrderedList { .. } => "ordered-list"@,
        WikitextSimplifiedNode::UnorderedList { .. } => "unordered-list"@,
        WikitextSimplifiedNode::DefinitionList { .. } => "definition-list"@,
        WikitextSimplifiedNode::Redirect { .. } => "redirect"@,
        WikitextSimplifiedNode::HorizontalDivider => "horizontal-divider"@,
        WikitextSimplifiedNode::ParagraphBreak => "paragraph-break"@,
        WikitextSimplifiedNode::Newline => "newline"@,
    }
}

/// Whether a node is block-level: headings, tables and the three list kinds.
pub open spec fn spec_is_block_type(n: &WikitextSimplifiedNode) -> bool {
    match n {
        WikitextSimplifiedNode::Heading { .. } => true,
        WikitextSimplifiedNode::Table { .. } => true,
        WikitextSimplifiedNode::OrderedList { .. } => true,
        WikitextSimplifiedNode::UnorderedList { .. } => true,
        WikitextSimplifiedNode::DefinitionList { .. } => true,
        _ => false,
    }
}

/// The mathematical model of a [`Spanned`] node: the node's model plus its span.
#[verifier::ext_equal]
pub struct SpannedView {
    /// The model of the carried node.
    pub value: NodeView,
    /// The span of the node.
    pub span: Span,
}

/// The mathematical model of a [`TemplateParameter`].
#[verifier::ext_equal]
pub struct ParameterView {
    /// The characters of the parameter name.
    pub name: Seq<char>,
    /// The characters of the parameter value.
    pub value: Seq<char>,
}

/// The mathematical model of a [`WikitextSimplifiedTableCaption`].
#[verifier::ext_equal]
pub struct CaptionView {
    /// The models of the caption's attribute nodes, if any.
    pub attributes: Option<Seq<SpannedView>>,
    /// The models of the caption's content nodes.
    pub content: Seq<SpannedView>,
}

/// The mathematical model of a [`WikitextSimplifiedTableRow`].
#[verifier::ext_equal]
pub struct RowView {
    /// The models of the row's attribute nodes.
    pub attributes: Seq<SpannedView>,
    /// The models of the row's cells.
    pub cells: Seq<CellView>,
}

/// The mathematical model of a [`WikitextSimplifiedTableCell`].
#[verifier::ext_equal]
pub struct CellView {
    /// Whether the cell uses the header syntax.
    pub is_header: bool,
    /// The models of the cell's attribute nodes, if any.
    pub attributes: Option<Seq<SpannedView>>,
    /// The models of the cell's content nodes.
    pub content: Seq<SpannedView>,
}

/// The mathematical model of a [`WikitextSimplifiedListItem`].
#[verifier::ext_equal]
pub struct ListItemView {
    /// The models of the item's content nodes.
    pub content: Seq<SpannedView>,
}

/// The mathematical model of a [`WikitextSimplifiedDefinitionListItem`].
#[verifier::ext_equal]
pub struct DefinitionListItemView {
    /// The kind of item.
    pub type_: DefinitionListItemType,
    /// The models of the item's content nodes.
    pub content: Seq<SpannedView>,
}

/// The mathematical model of a [`WikitextSimplifiedNode`]: the same tree with
/// every string replaced by its character sequence and every vector by a
/// sequence, so that two nodes with the same content have equal models.
#[verifier::ext_equal]
pub enum NodeView {
    /// Model of `Fragment`.
    Fragment { children: Seq<SpannedView> },
    /// Model of `Template`.
    Template { name: Seq<char>, parameters: Seq<ParameterView> },
    /// Model of `TemplateParameterUse`.
    TemplateParameterUse { name: Seq<char>, default: Option<Seq<SpannedView>> },
    /// Model of `Heading`.
    Heading { level: u8, children: Seq<SpannedView> },
    /// Model of `Link`.
    Link { text: Seq<char>, title: Seq<char> },
    /// Model of `ExtLink`.
    ExtLink { link: Seq<char>, text: Option<Seq<char>> },
    /// Model of `Bold`.
    Bold { children: Seq<SpannedView> },
    /// Model of `Italic`.
    Italic { children: Seq<SpannedView> },
    /// Model of `Blockquote`.
    Blockquote { children: Seq<SpannedView> },
    /// Model of `Superscript`.
    Superscript { children: Seq<SpannedView> },
    /// Model of `Subscript`.
    Subscript { children: Seq<SpannedView> },
    /// Model of `Small`.
    Small { children: Seq<SpannedView> },
    /// Model of `Preformatted`.
    Preformatted { children: Seq<SpannedView> },
    /// Model of `Tag`.
    Tag { name: Seq<char>, attributes: Option<Seq<char>>, children: Seq<SpannedView> },
    /// Model of `Text`.
    Text { text: Seq<char> },
    /// Model of `Table`.
    Table { attributes: Seq<SpannedView>, captions: Seq<CaptionView>, rows: Seq<RowView> },
    /// Model of `OrderedList`.
    OrderedList { items: Seq<ListItemView> },
    /// Model of `UnorderedList`.
    UnorderedList { items: Seq<ListItemView> },
    /// Model of `DefinitionList`.
    DefinitionList { items: Seq<DefinitionListItemView> },
    /// Model of `Redirect`.
    Redirect { target: Seq<char> },
    /// Model of `HorizontalDivider`.
    HorizontalDivider,
    /// Model of `ParagraphBreak`.
    ParagraphBreak,
    /// Model of `Newline`.
    Newline,
}

/// The model of a template parameter list.
pub open spec fn parameters_view(s: Seq<TemplateParameter>) -> Seq<ParameterView> {
    Seq::new(s.len(), |i: int| if 0 <= i < s.len() { parameter_view(s[i]) } else { arbitrary() })
}

/// The model of a table caption list.
pub open spec fn captions_view(s: Seq<WikitextSimplifiedTableCaption>) -> Seq<CaptionView>
    decreases s,
{
    Seq::new(s.len(), |i: int| if 0 <= i < s.len() { caption_view(s[i]) } else { arbitrary() })
}

/// The model of a table row list.
pub open spec fn rows_view(s: Seq<WikitextSimplifiedTableRow>) -> Seq<RowView>
    decreases s,
{
    Seq::new(s.len(), |i: int| if 0 <= i < s.len() { row_view(s[i]) } else { arbitrary() })
}

/// The model of a table cell list.
pub open spec fn cells_view(s: Seq<WikitextSimplifiedTableCell>) -> Seq<CellView>
    decreases s,
{
    Seq::new(s.len(), |i: int| if 0 <= i < s.len() { cell_view(s[i]) } else { arbitrary() })
}

/// The model of a list item list.
pub open spec fn list_items_view(s: Seq<WikitextSimplifiedListItem>) -> Seq<ListItemView>
    decreases s,
{
    Seq::new(s.len(), |i: int| if 0 <= i < s.len() { list_item_view(s[i]) } else { arbitrary() })
}

/// The model of a definition list item list.
pub open spec fn definition_list_items_view(s: Seq<WikitextSimplifiedDefinitionListItem>) -> Seq<
    DefinitionListItemView,
>
    decreases s,
{
    Seq::new(
        s.len(),
        |i: int| if 0 <= i < s.len() { definition_list_item_view(s[i]) } else { arbitrary() },
    )
}

/// The model of a node list: the models of its elements, in order.
pub open spec fn nodes_view(s: Seq<Spanned<WikitextSimplifiedNode>>) -> Seq<SpannedView>
    decreases s,
{
    Seq::new(s.len(), |i: int| if 0 <= i < s.len() { spanned_view(s[i]) } else { arbitrary() })
}

/// The model of a spanned node.
pub open spec fn spanned_view(s: Spanned<WikitextSimplifiedNode>) -> SpannedView
    decreases s,
{
    SpannedView { value: node_view(s.value), span: s.span }
}

/// The model of a template parameter.
pub open spec fn parameter_view(p: TemplateParameter) -> ParameterView {
    ParameterView { name: p.name@, value: p.value@ }
}

/// The model of a table caption.
pub open spec fn caption_view(c: WikitextSimplifiedTableCaption) -> CaptionView
    decreases c,
{
    CaptionView {
        attributes: match c.attributes {
            Some(a) => Some(nodes_view(a@)),
            None => None,
        },
        content: nodes_view(c.content@),
    }
}

/// The model of a table row.
pub open spec fn row_view(r: WikitextSimplifiedTableRow) -> RowView
    decreases r,
{
    RowView {
        attributes: nodes_view(r.attributes@),
        cells: cells_view(r.cells@),
    }
}

/// The model of a table cell.
pub open spec fn cell_view(c: WikitextSimplifiedTableCell) -> CellView
    decreases c,
{
    CellView {
        is_header: c.is_header,
        attributes: match c.attributes {
            Some(a) => Some(nodes_view(a@)),
            None => None,
        },
        content: nodes_view(c.content@),
    }
}

/// The model of a list item.
pub open spec fn list_item_view(it: WikitextSimplifiedListItem) -> ListItemView
    decreases it,
{
    ListItemView { content: nodes_view(it.content@) }
}

/// The model of a definition list item.
pub open spec fn definition_list_item_view(it: WikitextSimplifiedDefinitionListItem)
    -> DefinitionListItemView
    decreases it,
{
    DefinitionListItemView { type_: it.type_, content: nodes_view(it.content@) }
}

/// The model of a node.
pub open spec fn node_view(n: WikitextSimplifiedNode) -> NodeView
    decreases n,
{
    match n {
        WikitextSimplifiedNode::Fragment { children } => NodeView::Fragment {
            children: nodes_view(children@),
        },
        WikitextSimplifiedNode::Template { name, parameters } => NodeView::Template {
            name: name@,
            parameters: parameters_view(parameters@),
        },
        WikitextSimplifiedNode::TemplateParameterUse { name, default } => NodeView::TemplateParameterUse {
            name: name@,
            default: match default {
                Some(d) => Some(nodes_view(d@)),
                None => None,
            },
        },
        WikitextSimplifiedNode::Heading { level, children } => NodeView::Heading {
            level,
            children: nodes_view(children@),
        },
        WikitextSimplifiedNode::Link { text, title } => NodeView::Link {
            text: text@,
            title: title@,
        },
        WikitextSimplifiedNode::ExtLink { link, text } => NodeView::ExtLink {
            link: link@,
            text: match text {
                Some(t) => Some(t@),
                None => None,
            },
        },
        WikitextSimplifiedNode::Bold { children } => NodeView::Bold {
            children: nodes_view(children@),
        },
        WikitextSimplifiedNode::Italic { children } => NodeView::Italic {
            children: nodes_view(children@),
        },
        WikitextSimplifiedNode::Blockquote { children } => NodeView::Blockquote {
            children: nodes_view(children@),
        },
        WikitextSimplifiedNode::Superscript { children } => NodeView::Superscript {
            children: nodes_view(children@),
        },
        WikitextSimplifiedNode::Subscript { children } => NodeView::Subscript {
            children: nodes_view(children@),
        },
        WikitextSimplifiedNode::Small { children } => NodeView::Small {
            children: nodes_view(children@),
        },
        WikitextSimplifiedNode::Preformatted { children } => NodeView::Preformatted {
            children: nodes_view(children@),
        },
        WikitextSimplifiedNode::Tag { name, attributes, children } => NodeView::Tag {
            name: name@,
            attributes: match attributes {
                Some(a) => Some(a@),
                None => None,
            },
            children: nodes_view(children@),
        },
        WikitextSimplifiedNode::Text { text } => NodeView::Text { text: text@ },
        WikitextSimplifiedNode::Table { attributes, captions, rows } => NodeView::Table {
            attributes: nodes_view(attributes@),
            captions: captions_view(captions@),
            rows: rows_view(rows@),
        },
        WikitextSimplifiedNode::OrderedList { items } => NodeView::OrderedList {
            items: list_items_view(items@),
        },
        WikitextSimplifiedNode::UnorderedList { items } => NodeView::UnorderedList {
            items: list_items_view(items@),
        },
        WikitextSimplifiedNode::DefinitionList { items } => NodeView::DefinitionList {
            items: definition_list_items_view(items@),
        },
        WikitextSimplifiedNode::Redirect { target } => NodeView::Redirect { target: target@ },
        WikitextSimplifiedNode::HorizontalDivider => NodeView::HorizontalDivider,
        WikitextSimplifiedNode::ParagraphBreak => NodeView::ParagraphBreak,
        WikitextSimplifiedNode::Newline => NodeView::Newline,
    }
}

/// The immediate child list of a node, for the kinds that hold one.
pub open spec fn spec_children(n: &WikitextSimplifiedNode) -> Option<
    &Vec<Spanned<WikitextSimplifiedNode>>,
> {
    match n {
        WikitextSimplifiedNode::Fragment { children } => Some(children),
        WikitextSimplifiedNode::Heading { children, .. } => Some(children),
        WikitextSimplifiedNode::Bold { children } => Some(children),
        WikitextSimplifiedNode::Italic { children } => Some(children),
        WikitextSimplifiedNode::Blockquote { children } => Some(children),
        WikitextSimplifiedNode::Superscript { children } => Some(children),
        WikitextSimplifiedNode::Subscript { children } => Some(children),
        WikitextSimplifiedNode::Small { children } => Some(children),
        WikitextSimplifiedNode::Preformatted { children } => Some(children),
        WikitextSimplifiedNode::Tag { children, .. } => Some(children),
        _ => None,
    }
}

} // verus!
