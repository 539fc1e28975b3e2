//! `Clone` for the simplified AST.
//!
//! Every clone is exact: the clone's model equals the source value's model.

use vstd::prelude::*;

use crate::ast::{
    caption_view, captions_view, cell_view, cells_view, definition_list_item_view,
    definition_list_items_view, list_item_view, list_items_view, node_view, nodes_view,
    parameter_view, parameters_view, row_view, rows_view, spanned_view, Spanned,
    TemplateParameter, WikitextSimplifiedDefinitionListItem, WikitextSimplifiedListItem,
    WikitextSimplifiedNode, WikitextSimplifiedTableCaption, WikitextSimplifiedTableCell,
    WikitextSimplifiedTableRow,
};

verus! {

/// Clones a list of spanned nodes, preserving its model.
pub(crate) fn clone_nodes(v: &Vec<Spanned<WikitextSimplifiedNode>>) -> (r: Vec<
    Spanned<WikitextSimplifiedNode>,
>)
    ensures
        nodes_view(r@) == nodes_view(v@),
        r@.len() == v@.len(),
    decreases v@,
{
    let mut r: Vec<Spanned<WikitextSimplifiedNode>> = Vec::new();
    let mut i: usize = 0;
    while i < v.len()
        invariant
            i <= v@.len(),
            r@.len() == i,
            forall|j: int| 0 <= j < i ==> spanned_view(r@[j]) == spanned_view(v@[j]),
        decreases v@.len() - i,
    {
        r.push(v[i].clone());
        i += 1;
    }
    proof {
        assert(nodes_view(r@) =~= nodes_view(v@));
    }
    r
}

/// Clones an optional list of spanned nodes, preserving its model.
pub(crate) fn clone_opt_nodes(v: &Option<Vec<Spanned<WikitextSimplifiedNode>>>) -> (r: Option<
    Vec<Spanned<WikitextSimplifiedNode>>,
>)
    ensures
        match (v, &r) {
            (Some(a), Some(b)) => nodes_view(b@) == nodes_view(a@),
            (None, None) => true,
            _ => false,
        },
    decreases v,
{
    match v {
        Some(a) => Some(clone_nodes(a)),
        None => None,
    }
}

impl Clone for Spanned<WikitextSimplifiedNode> {
    /// Clones a spanned node, preserving its model.
    fn clone(&self) -> (r: Self)
        ensures
            spanned_view(r) == spanned_view(*self),
        decreases self,
    {
        Spanned { value: self.value.clone(), span: self.span }
    }
}

impl Clone for TemplateParameter {
    /// Clones a template parameter, preserving its model.
    fn clone(&self) -> (r: Self)
        ensures
            parameter_view(r) == parameter_view(*self),
    {
        TemplateParameter { name: self.name.clone(), value: self.value.clone() }
    }
}

impl Clone for WikitextSimplifiedTableCaption {
    /// Clones a table caption, preserving its model.
    fn clone(&self) -> (r: Self)
        ensures
            caption_view(r) == caption_view(*self),
        decreases self,
    {
        WikitextSimplifiedTableCaption {
            attributes: clone_opt_nodes(&self.attributes),
            content: clone_nodes(&self.content),
        }
    }
}

impl Clone for WikitextSimplifiedTableCell {
    /// Clones a table cell, preserving its model.
    fn clone(&self) -> (r: Self)
        ensures
            cell_view(r) == cell_view(*self),
        decreases self,
    {
        WikitextSimplifiedTableCell {
            is_header: self.is_header,
            attributes: clone_opt_nodes(&self.attributes),
            content: clone_nodes(&self.content),
        }
    }
}

impl Clone for WikitextSimplifiedTableRow {
    /// Clones a table row, preserving its model.
    fn clone(&self) -> (r: Self)
        ensures
            row_view(r) == row_view(*self),
        decreases self,
    {
        let r = WikitextSimplifiedTableRow {
            attributes: clone_nodes(&self.attributes),
            cells: clone_cells(&self.cells),
        };
        r
    }
}

impl Clone for WikitextSimplifiedListItem {
    /// Clones a list item, preserving its model.
    fn clone(&self) -> (r: Self)
        ensures
            list_item_view(r) == list_item_view(*self),
        decreases self,
    {
        WikitextSimplifiedListItem { content: clone_nodes(&self.content) }
    }
}

impl Clone for WikitextSimplifiedDefinitionListItem {
    /// Clones a definition list item, preserving its model.
    fn clone(&self) -> (r: Self)
        ensures
            definition_list_item_view(r) == definition_list_item_view(*self),
        decreases self,
    {
        WikitextSimplifiedDefinitionListItem {
            type_: self.type_,
            content: clone_nodes(&self.content),
        }
    }
}

impl Clone for WikitextSimplifiedNode {
    /// Clones a node, preserving its model.
    #[verifier::rlimit(60)]
    fn clone(&self) -> (r: Self)
        ensures
            node_view(r) == node_view(*self),
        decreases self,
    {
        let r = match self {
            Self::Fragment { children } => Self::Fragment { children: clone_nodes(children) },
            Self::Template { name, parameters } => Self::Template {
                name: name.clone(),
                parameters: clone_parameters(parameters),
            },
            Self::TemplateParameterUse { name, default } => Self::TemplateParameterUse {
                name: name.clone(),
                default: clone_opt_nodes(default),
            },
            Self::Heading { level, children } => Self::Heading {
                level: *level,
                children: clone_nodes(children),
            },
            Self::Link { text, title } => Self::Link {
                text: text.clone(),
                title: title.clone(),
            },
            Self::ExtLink { link, text } => Self::ExtLink {
                link: link.clone(),
                text: match text {
                    Some(t) => Some(t.clone()),
                    None => None,
                },
            },
            Self::Bold { children } => Self::Bold { children: clone_nodes(children) },
            Self::Italic { children } => Self::Italic { children: clone_nodes(children) },
            Self::Blockquote { children } => Self::Blockquote { children: clone_nodes(children) },
            Self::Superscript { children } => Self::Superscript {
                children: clone_nodes(children),
            },
            Self::Subscript { children } => Self::Subscript { children: clone_nodes(children) },
            Self::Small { children } => Self::Small { children: clone_nodes(children) },
            Self::Preformatted { children } => Self::Preformatted {
                children: clone_nodes(children),
            },
            Self::Tag { name, attributes, children } => Self::Tag {
                name: name.clone(),
                attributes: match attributes {
                    Some(a) => Some(a.clone()),
                    None => None,
                },
                children: clone_nodes(children),
            },
            Self::Text { text } => Self::Text { text: text.clone() },
            Self::Table { attributes, captions, rows } => Self::Table {
                attributes: clone_nodes(attributes),
                captions: clone_captions(captions),
                rows: clone_rows(rows),
            },
            Self::OrderedList { items } => Self::OrderedList { items: clone_list_items(items) },
            Self::UnorderedList { items } => Self::UnorderedList {
                items: clone_list_items(items),
            },
            Self::DefinitionList { items } => Self::DefinitionList {
                items: clone_definition_list_items(items),
            },
            Self::Redirect { target } => Self::Redirect { target: target.clone() },
            Self::HorizontalDivider => Self::HorizontalDivider,
            Self::ParagraphBreak => Self::ParagraphBreak,
            Self::Newline => Self::Newline,
        };
        proof {
            assert(node_view(r) =~~= node_view(*self));
        }
        r
    }
}

/// Clones the items of an ordered or unordered list, preserving their models.
pub(crate) fn clone_list_items(items: &Vec<WikitextSimplifiedListItem>) -> (r: Vec<
    WikitextSimplifiedListItem,
>)
    ensures
        list_items_view(r@) == list_items_view(items@),
        r@.len() == items@.len(),
    decreases items@,
{
    let mut r: Vec<WikitextSimplifiedListItem> = Vec::new();
    let mut i: usize = 0;
    while i < items.len()
        invariant
            i <= items@.len(),
            r@.len() == i,
            forall|j: int| 0 <= j < i ==> list_item_view(r@[j]) == list_item_view(items@[j]),
        decreases items@.len() - i,
    {
        r.push(items[i].clone());
        i += 1;
    }
    proof {
        assert(list_items_view(r@) =~= list_items_view(items@));
    }
    r
}

/// Clones the parameters of a template, preserving their models.
pub(crate) fn clone_parameters(ps: &Vec<TemplateParameter>) -> (r: Vec<TemplateParameter>)
    ensures
        parameters_view(r@) == parameters_view(ps@),
        r@.len() == ps@.len(),
{
    let mut r: Vec<TemplateParameter> = Vec::new();
    let mut i: usize = 0;
    while i < ps.len()
        invariant
            i <= ps@.len(),
            r@.len() == i,
            forall|j: int| 0 <= j < i ==> parameter_view(r@[j]) == parameter_view(ps@[j]),
        decreases ps@.len() - i,
    {
        r.push(ps[i].clone());
        i += 1;
    }
    proof {
        assert(parameters_view(r@) =~= parameters_view(ps@));
    }
    r
}

/// Clones the captions of a table, preserving their models.
pub(crate) fn clone_captions(cs: &Vec<WikitextSimplifiedTableCaption>) -> (r: Vec<
    WikitextSimplifiedTableCaption,
>)
    ensures
        captions_view(r@) == captions_view(cs@),
        r@.len() == cs@.len(),
    decreases cs@,
{
    let mut r: Vec<WikitextSimplifiedTableCaption> = Vec::new();
    let mut i: usize = 0;
    while i < cs.len()
        invariant
            i <= cs@.len(),
            r@.len() == i,
            forall|j: int| 0 <= j < i ==> caption_view(r@[j]) == caption_view(cs@[j]),
        decreases cs@.len() - i,
    {
        r.push(cs[i].clone());
        i += 1;
    }
    proof {
        assert(captions_view(r@) =~= captions_view(cs@));
    }
    r
}

/// Clones the cells of a table row, preserving their models.
pub(crate) fn clone_cells(cs: &Vec<WikitextSimplifiedTableCell>) -> (r: Vec<
    WikitextSimplifiedTableCell,
>)
    ensures
        cells_view(r@) == cells_view(cs@),
        r@.len() == cs@.len(),
    decreases cs@,
{
    let mut r: Vec<WikitextSimplifiedTableCell> = Vec::new();
    let mut i: usize = 0;
    while i < cs.len()
        invariant
            i <= cs@.len(),
            r@.len() == i,
            forall|j: int| 0 <= j < i ==> cell_view(r@[j]) == cell_view(cs@[j]),
        decreases cs@.len() - i,
    {
        r.push(cs[i].clone());
        i += 1;
    }
    proof {
        assert(cells_view(r@) =~= cells_view(cs@));
    }
    r
}

/// Clones the rows of a table, preserving their models.
pub(crate) fn clone_rows(rs: &Vec<WikitextSimplifiedTableRow>) -> (r: Vec<
    WikitextSimplifiedTableRow,
>)
    ensures
        rows_view(r@) == rows_view(rs@),
        r@.len() == rs@.len(),
    decreases rs@,
{
    let mut r: Vec<WikitextSimplifiedTableRow> = Vec::new();
    let mut i: usize = 0;
    while i < rs.len()
        invariant
            i <= rs@.len(),
            r@.len() == i,
            forall|j: int| 0 <= j < i ==> row_view(r@[j]) == row_view(rs@[j]),
        decreases rs@.len() - i,
    {
        r.push(rs[i].clone());
        i += 1;
    }
    proof {
        assert(rows_view(r@) =~= rows_view(rs@));
    }
    r
}

/// Clones the items of a definition list, preserving their models.
pub(crate) fn clone_definition_list_items(items: &Vec<WikitextSimplifiedDefinitionListItem>) -> (r:
    Vec<WikitextSimplifiedDefinitionListItem>)
    ensures
        definition_list_items_view(r@) == definition_list_items_view(items@),
        r@.len() == items@.len(),
    decreases items@,
{
    let mut r: Vec<WikitextSimplifiedDefinitionListItem> = Vec::new();
    let mut i: usize = 0;
    while i < items.len()
        invariant
            i <= items@.len(),
            r@.len() == i,
            forall|j: int| 0 <= j < i ==> definition_list_item_view(r@[j])
                == definition_list_item_view(items@[j]),
        decreases items@.len() - i,
    {
        r.push(items[i].clone());
        i += 1;
    }
    proof {
        assert(definition_list_items_view(r@) =~= definition_list_items_view(items@));
    }
    r
}

} // verus!
