//! The Template Evaluator: expands template invocations and parameter
//! placeholders to a fixed point.
//!
//! Expansion is driven by a caller-supplied [`TemplateContext`] collaborator,
//! which resolves magic variables, loads template source text, and runs the
//! external tokenizer.  One rewrite round replaces parameter placeholders and
//! turns each template invocation into a unique placeholder text token; the
//! recorded calls are then resolved and substituted back.  Trees without
//! tables converge by serializing and reparsing from scratch; trees with
//! tables repeat rewrite rounds until the serialization stops changing, then
//! reparse each marked-up table cell.  A failing template renders as an
//! inline error marker instead of failing the whole document.

use vstd::prelude::*;

use crate::ast::{
    node_view, nodes_view, parameters_view, spanned_view, CaptionView, CellView, NodeView,
    ParameterView, RowView, Span, Spanned, SpannedView, TemplateParameter,
    WikitextSimplifiedDefinitionListItem, WikitextSimplifiedListItem, WikitextSimplifiedNode,
    WikitextSimplifiedTableCaption, WikitextSimplifiedTableCell, WikitextSimplifiedTableRow,
};
use crate::clone_impls::{clone_nodes, clone_opt_nodes};
use crate::grammar::{check_wf_nodes, GrammarNode};
use crate::simplify::simplify_wikitext_nodes;
use crate::text::{
    contains_sub, lower_of, replace_char, spec_contains_seq, spec_decimal, spec_replace_char,
    string_eq_str, to_lowercase, usize_to_decimal,
};

verus! {

/// Errors of template operations.
#[derive(Debug)]
pub enum TemplateError {
    /// The named template is not known to the loader.
    TemplateNotFound {
        /// The name as it was asked for.
        name: String,
        /// The normalized lookup key.
        key: String,
    },
    /// Loading the template's content failed.
    LoadFailed {
        /// The name of the template.
        name: String,
        /// Where loading was attempted.
        path: String,
        /// What went wrong.
        message: String,
    },
    /// The template's wikitext could not be parsed.
    ParseFailed {
        /// The name of the template.
        name: String,
        /// What went wrong.
        message: String,
    },
    /// Scanning a template directory failed.
    DirectoryScanFailed {
        /// The directory that was scanned.
        path: String,
        /// What went wrong.
        message: String,
    },
    /// An error of a custom context implementation.
    User(String),
}

/// The model of a [`TemplateError`].
#[verifier::ext_equal]
pub enum TemplateErrorView {
    /// Model of `TemplateNotFound`.
    TemplateNotFound { name: Seq<char>, key: Seq<char> },
    /// Model of `LoadFailed`.
    LoadFailed { name: Seq<char>, path: Seq<char>, message: Seq<char> },
    /// Model of `ParseFailed`.
    ParseFailed { name: Seq<char>, message: Seq<char> },
    /// Model of `DirectoryScanFailed`.
    DirectoryScanFailed { path: Seq<char>, message: Seq<char> },
    /// Model of `User`.
    User { message: Seq<char> },
}

/// The model of a template error.
pub open spec fn template_error_view(e: TemplateError) -> TemplateErrorView {
    match e {
        TemplateError::TemplateNotFound { name, key } => TemplateErrorView::TemplateNotFound {
            name: name@,
            key: key@,
        },
        TemplateError::LoadFailed { name, path, message } => TemplateErrorView::LoadFailed {
            name: name@,
            path: path@,
            message: message@,
        },
        TemplateError::ParseFailed { name, message } => TemplateErrorView::ParseFailed {
            name: name@,
            message: message@,
        },
        TemplateError::DirectoryScanFailed { path, message } => TemplateErrorView::DirectoryScanFailed {
            path: path@,
            message: message@,
        },
        TemplateError::User(message) => TemplateErrorView::User { message: message@ },
    }
}

/// The one-line description of a template error.
pub open spec fn spec_template_error_message(e: TemplateErrorView) -> Seq<char> {
    match e {
        TemplateErrorView::TemplateNotFound { name, key } => "Template not found: "@ + name
            + " (key: "@ + key + ")"@,
        TemplateErrorView::LoadFailed { name, path, message } => "Failed to load template '"@
            + name + "' from "@ + path + ": "@ + message,
        TemplateErrorView::ParseFailed { name, message } => "Failed to parse template '"@ + name
            + "': "@ + message,
        TemplateErrorView::DirectoryScanFailed { path, message } =>
            "Failed to scan template directory "@ + path + ": "@ + message,
        TemplateErrorView::User { message } => message,
    }
}

impl TemplateError {
    /// The one-line description of this error.
    pub fn message(&self) -> (r: String)
        ensures
            r@ == spec_template_error_message(template_error_view(*self)),
    {
        let mut out = String::new();
        match self {
            TemplateError::TemplateNotFound { name, key } => {
                out.append("Template not found: ");
                out.append(name.as_str());
                out.append(" (key: ");
                out.append(key.as_str());
                out.append(")");
            },
            TemplateError::LoadFailed { name, path, message } => {
                out.append("Failed to load template '");
                out.append(name.as_str());
                out.append("' from ");
                out.append(path.as_str());
                out.append(": ");
                out.append(message.as_str());
            },
            TemplateError::ParseFailed { name, message } => {
                out.append("Failed to parse template '");
                out.append(name.as_str());
                out.append("': ");
                out.append(message.as_str());
            },
            TemplateError::DirectoryScanFailed { path, message } => {
                out.append("Failed to scan template directory ");
                out.append(path.as_str());
                out.append(": ");
                out.append(message.as_str());
            },
            TemplateError::User(message) => {
                out.append(message.as_str());
            },
        }
        proof {
            assert(out@ =~= spec_template_error_message(template_error_view(*self)));
        }
        out
    }
}

/// The collaborator that drives template expansion: it resolves magic
/// variables, loads template source text, and runs the external tokenizer
/// that turns wikitext into grammar nodes.
pub trait TemplateContext {
    /// Resolves a magic variable by name, if the name is one.
    fn resolve_magic_variable(&self, name: &str) -> (r: Option<String>);

    /// Loads a template's wikitext content by name.
    fn load_template(&self, name: &str) -> (r: Result<String, TemplateError>);

    /// Tokenizes wikitext into grammar nodes, or reports a parse failure.
    fn parse_wikitext(&self, wikitext: &str) -> (r: Result<Vec<GrammarNode>, String>);
}

/// What to instantiate: a template by name, or an already-simplified node.
#[derive(Debug)]
pub enum TemplateToInstantiate<'a> {
    /// Load and instantiate the template with this name.
    Name(&'a str),
    /// Instantiate this node.
    Node(WikitextSimplifiedNode),
}

/// Whether further instantiation work remains anywhere in a node: a template
/// invocation or a parameter placeholder, at the node itself or among the
/// children the rewrite walks.
pub open spec fn spec_needs(v: NodeView) -> bool
    decreases v, 5int,
{
    ||| v is Template
    ||| v is TemplateParameterUse
    ||| match v {
        NodeView::Fragment { children } => spec_needs_nodes(children),
        NodeView::Heading { children, .. } => spec_needs_nodes(children),
        NodeView::Bold { children } => spec_needs_nodes(children),
        NodeView::Italic { children } => spec_needs_nodes(children),
        NodeView::Blockquote { children } => spec_needs_nodes(children),
        NodeView::Superscript { children } => spec_needs_nodes(children),
        NodeView::Subscript { children } => spec_needs_nodes(children),
        NodeView::Small { children } => spec_needs_nodes(children),
        NodeView::Preformatted { children } => spec_needs_nodes(children),
        NodeView::Tag { children, .. } => spec_needs_nodes(children),
        NodeView::TemplateParameterUse { default, .. } => match default {
            Some(d) => spec_needs_nodes(d),
            None => false,
        },
        NodeView::Table { attributes, captions, rows } => spec_needs_nodes(attributes)
            || spec_needs_captions(captions) || spec_needs_rows(rows),
        NodeView::OrderedList { items } => spec_needs_items(items),
        NodeView::UnorderedList { items } => spec_needs_items(items),
        NodeView::DefinitionList { items } => spec_needs_def_items(items),
        _ => false,
    }
}

/// Whether any node of a list still needs instantiation work.
pub open spec fn spec_needs_nodes(s: Seq<SpannedView>) -> bool
    decreases s, 6int,
{
    exists|i: int| 0 <= i < s.len() && spec_needs((#[trigger] s[i]).value)
}

/// Whether any caption still needs instantiation work.
pub open spec fn spec_needs_captions(cs: Seq<CaptionView>) -> bool
    decreases cs, 7int,
{
    exists|i: int|
        0 <= i < cs.len() && (spec_needs_nodes((#[trigger] cs[i]).content) || (match cs[i].attributes {
            Some(a) => spec_needs_nodes(a),
            None => false,
        }))
}

/// Whether any cell of a row still needs instantiation work.
pub open spec fn spec_needs_cells(cs: Seq<CellView>) -> bool
    decreases cs, 7int,
{
    exists|i: int|
        0 <= i < cs.len() && (spec_needs_nodes((#[trigger] cs[i]).content) || (match cs[i].attributes {
            Some(a) => spec_needs_nodes(a),
            None => false,
        }))
}

/// Whether any row's cells still need instantiation work.  Row attributes
/// take no part in the rewrite walk.
pub open spec fn spec_needs_rows(rs: Seq<RowView>) -> bool
    decreases rs, 8int,
{
    exists|i: int| 0 <= i < rs.len() && spec_needs_cells((#[trigger] rs[i]).cells)
}

/// Whether any plain-list item still needs instantiation work.
pub open spec fn spec_needs_items(items: Seq<crate::ast::ListItemView>) -> bool
    decreases items, 7int,
{
    exists|i: int| 0 <= i < items.len() && spec_needs_nodes((#[trigger] items[i]).content)
}

/// Whether any definition-list item still needs instantiation work.
pub open spec fn spec_needs_def_items(items: Seq<crate::ast::DefinitionListItemView>) -> bool
    decreases items, 7int,
{
    exists|i: int| 0 <= i < items.len() && spec_needs_nodes((#[trigger] items[i]).content)
}

/// Whether a table occurs at a node or among the children the rewrite
/// walks.
pub open spec fn spec_has_table(v: NodeView) -> bool
    decreases v, 5int,
{
    ||| v is Table
    ||| match v {
        NodeView::Fragment { children } => spec_has_table_nodes(children),
        NodeView::Heading { children, .. } => spec_has_table_nodes(children),
        NodeView::Bold { children } => spec_has_table_nodes(children),
        NodeView::Italic { children } => spec_has_table_nodes(children),
        NodeView::Blockquote { children } => spec_has_table_nodes(children),
        NodeView::Superscript { children } => spec_has_table_nodes(children),
        NodeView::Subscript { children } => spec_has_table_nodes(children),
        NodeView::Small { children } => spec_has_table_nodes(children),
        NodeView::Preformatted { children } => spec_has_table_nodes(children),
        NodeView::Tag { children, .. } => spec_has_table_nodes(children),
        NodeView::TemplateParameterUse { default, .. } => match default {
            Some(d) => spec_has_table_nodes(d),
            None => false,
        },
        NodeView::OrderedList { items } => spec_has_table_items(items),
        NodeView::UnorderedList { items } => spec_has_table_items(items),
        NodeView::DefinitionList { items } => spec_has_table_def_items(items),
        _ => false,
    }
}

/// Whether a table occurs in any node of a list.
pub open spec fn spec_has_table_nodes(s: Seq<SpannedView>) -> bool
    decreases s, 6int,
{
    exists|i: int| 0 <= i < s.len() && spec_has_table((#[trigger] s[i]).value)
}

/// Whether a table occurs in any plain-list item.
pub open spec fn spec_has_table_items(items: Seq<crate::ast::ListItemView>) -> bool
    decreases items, 7int,
{
    exists|i: int| 0 <= i < items.len() && spec_has_table_nodes((#[trigger] items[i]).content)
}

/// Whether a table occurs in any definition-list item.
pub open spec fn spec_has_table_def_items(items: Seq<crate::ast::DefinitionListItemView>) -> bool
    decreases items, 7int,
{
    exists|i: int| 0 <= i < items.len() && spec_has_table_nodes((#[trigger] items[i]).content)
}

/// Whether further instantiation work remains anywhere in this node: a
/// template invocation or a parameter placeholder.
#[verifier::loop_isolation(false)]
#[verifier::rlimit(60)]
pub fn needs_instantiation(node: &WikitextSimplifiedNode) -> (r: bool)
    ensures
        r == spec_needs(node_view(*node)),
    decreases *node, 5int,
{
    match node {
        WikitextSimplifiedNode::Template { .. } => true,
        WikitextSimplifiedNode::TemplateParameterUse { .. } => true,
        WikitextSimplifiedNode::Fragment { children } => needs_instantiation_nodes(children),
        WikitextSimplifiedNode::Heading { children, .. } => needs_instantiation_nodes(children),
        WikitextSimplifiedNode::Bold { children } => needs_instantiation_nodes(children),
        WikitextSimplifiedNode::Italic { children } => needs_instantiation_nodes(children),
        WikitextSimplifiedNode::Blockquote { children } => needs_instantiation_nodes(children),
        WikitextSimplifiedNode::Superscript { children } => needs_instantiation_nodes(children),
        WikitextSimplifiedNode::Subscript { children } => needs_instantiation_nodes(children),
        WikitextSimplifiedNode::Small { children } => needs_instantiation_nodes(children),
        WikitextSimplifiedNode::Preformatted { children } => needs_instantiation_nodes(children),
        WikitextSimplifiedNode::Tag { children, .. } => needs_instantiation_nodes(children),
        WikitextSimplifiedNode::Table { attributes, captions, rows } => {
            if needs_instantiation_nodes(attributes) {
                return true;
            }
            let mut i: usize = 0;
            while i < captions.len()
                invariant
                    i <= captions@.len(),
                    !spec_needs_captions(crate::ast::captions_view(captions@).take(i as int)),
                decreases captions@.len() - i,
            {
                let hit = needs_instantiation_nodes(&captions[i].content) || (match &captions[i].attributes {
                    Some(a) => needs_instantiation_nodes(a),
                    None => false,
                });
                proof {
                    assert(crate::ast::captions_view(captions@)[i as int]
                        == crate::ast::caption_view(captions@[i as int]));
                }
                if hit {
                    proof {
                        assert(spec_needs_captions(crate::ast::captions_view(captions@)));
                    }
                    return true;
                }
                proof {
                    assert(forall|j: int|
                        0 <= j < i + 1 ==> crate::ast::captions_view(captions@).take(i + 1)[j]
                            == crate::ast::captions_view(captions@)[j]);
                }
                i += 1;
            }
            proof {
                assert(crate::ast::captions_view(captions@).take(captions@.len() as int)
                    =~= crate::ast::captions_view(captions@));
            }
            let mut k: usize = 0;
            while k < rows.len()
                invariant
                    k <= rows@.len(),
                    !spec_needs_rows(crate::ast::rows_view(rows@).take(k as int)),
                decreases rows@.len() - k,
            {
                proof {
                    assert(crate::ast::rows_view(rows@)[k as int] == crate::ast::row_view(
                        rows@[k as int],
                    ));
                }
                if needs_instantiation_cells(&rows[k].cells) {
                    proof {
                        assert(spec_needs_rows(crate::ast::rows_view(rows@)));
                    }
                    return true;
                }
                proof {
                    assert(forall|j: int|
                        0 <= j < k + 1 ==> crate::ast::rows_view(rows@).take(k + 1)[j]
                            == crate::ast::rows_view(rows@)[j]);
                }
                k += 1;
            }
            proof {
                assert(crate::ast::rows_view(rows@).take(rows@.len() as int)
                    =~= crate::ast::rows_view(rows@));
            }
            false
        },
        WikitextSimplifiedNode::OrderedList { items } => needs_instantiation_items(items),
        WikitextSimplifiedNode::UnorderedList { items } => needs_instantiation_items(items),
        WikitextSimplifiedNode::DefinitionList { items } => {
            let mut i: usize = 0;
            while i < items.len()
                invariant
                    i <= items@.len(),
                    !spec_needs_def_items(
                        crate::ast::definition_list_items_view(items@).take(i as int),
                    ),
                decreases items@.len() - i,
            {
                proof {
                    assert(crate::ast::definition_list_items_view(items@)[i as int]
                        == crate::ast::definition_list_item_view(items@[i as int]));
                }
                if needs_instantiation_nodes(&items[i].content) {
                    proof {
                        assert(spec_needs_def_items(
                            crate::ast::definition_list_items_view(items@),
                        ));
                    }
                    return true;
                }
                proof {
                    assert(forall|j: int|
                        0 <= j < i + 1 ==> crate::ast::definition_list_items_view(items@).take(
                            i + 1,
                        )[j] == crate::ast::definition_list_items_view(items@)[j]);
                }
                i += 1;
            }
            proof {
                assert(crate::ast::definition_list_items_view(items@).take(items@.len() as int)
                    =~= crate::ast::definition_list_items_view(items@));
            }
            false
        },
        _ => false,
    }
}

/// Whether any node of a list still needs instantiation work.
#[verifier::loop_isolation(false)]
fn needs_instantiation_nodes(nodes: &Vec<Spanned<WikitextSimplifiedNode>>) -> (r: bool)
    ensures
        r == spec_needs_nodes(nodes_view(nodes@)),
    decreases nodes@, 6int,
{
    let mut i: usize = 0;
    while i < nodes.len()
        invariant
            i <= nodes@.len(),
            !spec_needs_nodes(nodes_view(nodes@).take(i as int)),
        decreases nodes@.len() - i,
    {
        proof {
            assert(nodes_view(nodes@)[i as int] == spanned_view(nodes@[i as int]));
        }
        if needs_instantiation(&nodes[i].value) {
            proof {
                assert(spec_needs_nodes(nodes_view(nodes@)));
            }
            return true;
        }
        proof {
            assert(forall|j: int|
                0 <= j < i + 1 ==> nodes_view(nodes@).take(i + 1)[j] == nodes_view(nodes@)[j]);
        }
        i += 1;
    }
    proof {
        assert(nodes_view(nodes@).take(nodes@.len() as int) =~= nodes_view(nodes@));
    }
    false
}

/// Whether any cell of a row still needs instantiation work.
#[verifier::loop_isolation(false)]
fn needs_instantiation_cells(cells: &Vec<WikitextSimplifiedTableCell>) -> (r: bool)
    ensures
        r == spec_needs_cells(crate::ast::cells_view(cells@)),
    decreases cells@, 7int,
{
    let mut i: usize = 0;
    while i < cells.len()
        invariant
            i <= cells@.len(),
            !spec_needs_cells(crate::ast::cells_view(cells@).take(i as int)),
        decreases cells@.len() - i,
    {
        proof {
            assert(crate::ast::cells_view(cells@)[i as int] == crate::ast::cell_view(
                cells@[i as int],
            ));
        }
        let hit = needs_instantiation_nodes(&cells[i].content) || (match &cells[i].attributes {
            Some(a) => needs_instantiation_nodes(a),
            None => false,
        });
        if hit {
            proof {
                assert(spec_needs_cells(crate::ast::cells_view(cells@)));
            }
            return true;
        }
        proof {
            assert(forall|j: int|
                0 <= j < i + 1 ==> crate::ast::cells_view(cells@).take(i + 1)[j]
                    == crate::ast::cells_view(cells@)[j]);
        }
        i += 1;
    }
    proof {
        assert(crate::ast::cells_view(cells@).take(cells@.len() as int) =~= crate::ast::cells_view(
            cells@,
        ));
    }
    false
}

/// Whether any plain-list item still needs instantiation work.
#[verifier::loop_isolation(false)]
fn needs_instantiation_items(items: &Vec<WikitextSimplifiedListItem>) -> (r: bool)
    ensures
        r == spec_needs_items(crate::ast::list_items_view(items@)),
    decreases items@, 7int,
{
    let mut i: usize = 0;
    while i < items.len()
        invariant
            i <= items@.len(),
            !spec_needs_items(crate::ast::list_items_view(items@).take(i as int)),
        decreases items@.len() - i,
    {
        proof {
            assert(crate::ast::list_items_view(items@)[i as int] == crate::ast::list_item_view(
                items@[i as int],
            ));
        }
        if needs_instantiation_nodes(&items[i].content) {
            proof {
                assert(spec_needs_items(crate::ast::list_items_view(items@)));
            }
            return true;
        }
        proof {
            assert(forall|j: int|
                0 <= j < i + 1 ==> crate::ast::list_items_view(items@).take(i + 1)[j]
                    == crate::ast::list_items_view(items@)[j]);
        }
        i += 1;
    }
    proof {
        assert(crate::ast::list_items_view(items@).take(items@.len() as int)
            =~= crate::ast::list_items_view(items@));
    }
    false
}

/// Whether a table occurs anywhere the rewrite walks in this node.
#[verifier::loop_isolation(false)]
pub fn contains_table(node: &WikitextSimplifiedNode) -> (r: bool)
    ensures
        r == spec_has_table(node_view(*node)),
    decreases *node, 5int,
{
    match node {
        WikitextSimplifiedNode::Table { .. } => true,
        WikitextSimplifiedNode::TemplateParameterUse { default, .. } => {
            match default {
                Some(d) => contains_table_nodes(d),
                None => false,
            }
        },
        WikitextSimplifiedNode::Fragment { children } => contains_table_nodes(children),
        WikitextSimplifiedNode::Heading { children, .. } => contains_table_nodes(children),
        WikitextSimplifiedNode::Bold { children } => contains_table_nodes(children),
        WikitextSimplifiedNode::Italic { children } => contains_table_nodes(children),
        WikitextSimplifiedNode::Blockquote { children } => contains_table_nodes(children),
        WikitextSimplifiedNode::Superscript { children } => contains_table_nodes(children),
        WikitextSimplifiedNode::Subscript { children } => contains_table_nodes(children),
        WikitextSimplifiedNode::Small { children } => contains_table_nodes(children),
        WikitextSimplifiedNode::Preformatted { children } => contains_table_nodes(children),
        WikitextSimplifiedNode::Tag { children, .. } => contains_table_nodes(children),
        WikitextSimplifiedNode::OrderedList { items } => contains_table_items(items),
        WikitextSimplifiedNode::UnorderedList { items } => contains_table_items(items),
        WikitextSimplifiedNode::DefinitionList { items } => {
            let mut i: usize = 0;
            while i < items.len()
                invariant
                    i <= items@.len(),
                    !spec_has_table_def_items(
                        crate::ast::definition_list_items_view(items@).take(i as int),
                    ),
                decreases items@.len() - i,
            {
                proof {
                    assert(crate::ast::definition_list_items_view(items@)[i as int]
                        == crate::ast::definition_list_item_view(items@[i as int]));
                }
                if contains_table_nodes(&items[i].content) {
                    proof {
                        assert(spec_has_table_def_items(
                            crate::ast::definition_list_items_view(items@),
                        ));
                    }
                    return true;
                }
                proof {
                    assert(forall|j: int|
                        0 <= j < i + 1 ==> crate::ast::definition_list_items_view(items@).take(
                            i + 1,
                        )[j] == crate::ast::definition_list_items_view(items@)[j]);
                }
                i += 1;
            }
            proof {
                assert(crate::ast::definition_list_items_view(items@).take(items@.len() as int)
                    =~= crate::ast::definition_list_items_view(items@));
            }
            false
        },
        _ => false,
    }
}

/// Whether a table occurs in any node of a list.
#[verifier::loop_isolation(false)]
fn contains_table_nodes(nodes: &Vec<Spanned<WikitextSimplifiedNode>>) -> (r: bool)
    ensures
        r == spec_has_table_nodes(nodes_view(nodes@)),
    decreases nodes@, 6int,
{
    let mut i: usize = 0;
    while i < nodes.len()
        invariant
            i <= nodes@.len(),
            !spec_has_table_nodes(nodes_view(nodes@).take(i as int)),
        decreases nodes@.len() - i,
    {
        proof {
            assert(nodes_view(nodes@)[i as int] == spanned_view(nodes@[i as int]));
        }
        if contains_table(&nodes[i].value) {
            proof {
                assert(spec_has_table_nodes(nodes_view(nodes@)));
            }
            return true;
        }
        proof {
            assert(forall|j: int|
                0 <= j < i + 1 ==> nodes_view(nodes@).take(i + 1)[j] == nodes_view(nodes@)[j]);
        }
        i += 1;
    }
    proof {
        assert(nodes_view(nodes@).take(nodes@.len() as int) =~= nodes_view(nodes@));
    }
    false
}

/// Whether a table occurs in any plain-list item.
#[verifier::loop_isolation(false)]
fn contains_table_items(items: &Vec<WikitextSimplifiedListItem>) -> (r: bool)
    ensures
        r == spec_has_table_items(crate::ast::list_items_view(items@)),
    decreases items@, 7int,
{
    let mut i: usize = 0;
    while i < items.len()
        invariant
            i <= items@.len(),
            !spec_has_table_items(crate::ast::list_items_view(items@).take(i as int)),
        decreases items@.len() - i,
    {
        proof {
            assert(crate::ast::list_items_view(items@)[i as int] == crate::ast::list_item_view(
                items@[i as int],
            ));
        }
        if contains_table_nodes(&items[i].content) {
            proof {
                assert(spec_has_table_items(crate::ast::list_items_view(items@)));
            }
            return true;
        }
        proof {
            assert(forall|j: int|
                0 <= j < i + 1 ==> crate::ast::list_items_view(items@).take(i + 1)[j]
                    == crate::ast::list_items_view(items@)[j]);
        }
        i += 1;
    }
    proof {
        assert(crate::ast::list_items_view(items@).take(items@.len() as int)
            =~= crate::ast::list_items_view(items@));
    }
    false
}

/// The value of the first parameter with the given name, if any.
pub open spec fn spec_find_parameter(ps: Seq<ParameterView>, name: Seq<char>) -> Option<Seq<char>>
    decreases ps,
{
    if ps.len() == 0 {
        None
    } else if ps[0].name == name {
        Some(ps[0].value)
    } else {
        spec_find_parameter(ps.drop_first(), name)
    }
}

/// Looks up the value of the first parameter with the given name.
#[verifier::loop_isolation(false)]
pub fn find_parameter(ps: &[TemplateParameter], name: &str) -> (r: Option<String>)
    ensures
        (match &r {
            Some(v) => spec_find_parameter(parameters_view(ps@), name@) == Some(v@),
            None => spec_find_parameter(parameters_view(ps@), name@) is None,
        }),
{
    proof {
        assert(parameters_view(ps@).skip(0) =~= parameters_view(ps@));
    }
    let mut i: usize = 0;
    while i < ps.len()
        invariant
            i <= ps@.len(),
            spec_find_parameter(parameters_view(ps@), name@) == spec_find_parameter(
                parameters_view(ps@).skip(i as int),
                name@,
            ),
        decreases ps@.len() - i,
    {
        proof {
            assert(parameters_view(ps@).skip(i as int)[0] == parameters_view(ps@)[i as int]);
            assert(parameters_view(ps@).skip(i as int).drop_first() =~= parameters_view(
                ps@,
            ).skip(i + 1));
        }
        if string_eq_str(&ps[i].name, name) {
            return Some(ps[i].value.clone());
        }
        i += 1;
    }
    proof {
        assert(parameters_view(ps@).skip(ps@.len() as int) =~= Seq::<ParameterView>::empty());
    }
    None
}

/// The text a parameter placeholder resolves to: the explicit binding if one
/// exists, else the magic variable's value, else the default expression
/// serialized back to wikitext, else nothing.
pub fn resolve_parameter_use(
    default: &Option<Vec<Spanned<WikitextSimplifiedNode>>>,
    binding: Option<String>,
    magic: Option<String>,
) -> (r: WikitextSimplifiedNode)
    ensures
        node_view(r) == (NodeView::Text {
            text: match binding {
                Some(b) => b@,
                None => match magic {
                    Some(m) => m@,
                    None => match default {
                        Some(d) => crate::render::wikitext_of_nodes(nodes_view(d@)),
                        None => Seq::empty(),
                    },
                },
            },
        }),
{
    match binding {
        Some(b) => WikitextSimplifiedNode::Text { text: b },
        None => match magic {
            Some(m) => WikitextSimplifiedNode::Text { text: m },
            None => match default {
                Some(d) => WikitextSimplifiedNode::Text { text: crate::render::nodes_to_wikitext(d) },
                None => WikitextSimplifiedNode::Text { text: String::new() },
            },
        },
    }
}

/// The normalized cache key of a template name: lowercase, with spaces as
/// underscores.
pub fn make_key(name: &str) -> (r: String)
    ensures
        r@ == spec_replace_char(lower_of(name@), ' ', '_'),
{
    let lower = to_lowercase(name);
    replace_char(lower.as_str(), ' ', '_')
}

/// The placeholder text standing for the recorded call with a given index.
pub open spec fn spec_placeholder(idx: int) -> Seq<char> {
    "__TEMPLATE_PLACEHOLDER_"@ + spec_decimal(idx) + "__"@
}

/// Builds the placeholder text for the recorded call with the given index.
pub fn make_placeholder(idx: usize) -> (r: String)
    ensures
        r@ == spec_placeholder(idx as int),
{
    let mut out = String::new();
    out.append("__TEMPLATE_PLACEHOLDER_");
    let d = usize_to_decimal(idx);
    out.append(d.as_str());
    out.append("__");
    proof {
        assert(out@ =~= spec_placeholder(idx as int));
    }
    out
}

/// The inline marker a failing template renders as.
pub fn template_error_text(e: &TemplateError) -> (r: WikitextSimplifiedNode)
    ensures
        node_view(r) == (NodeView::Text {
            text: "{{Template error: "@ + spec_template_error_message(template_error_view(*e))
                + "}}"@,
        }),
{
    let mut text = String::new();
    text.append("{{Template error: ");
    let m = e.message();
    text.append(m.as_str());
    text.append("}}");
    proof {
        assert(text@ =~= "{{Template error: "@ + spec_template_error_message(
            template_error_view(*e),
        ) + "}}"@);
    }
    WikitextSimplifiedNode::Text { text }
}

/// A node with every text node equal to `ph` replaced by `rep`, walking the
/// same children the rewrite walks.
pub open spec fn spec_substitute(v: NodeView, ph: Seq<char>, rep: NodeView) -> NodeView
    decreases v, 5int,
{
    match v {
        NodeView::Text { text } => if text == ph {
            rep
        } else {
            v
        },
        NodeView::Fragment { children } => NodeView::Fragment {
            children: spec_substitute_nodes(children, ph, rep),
        },
        NodeView::Heading { level, children } => NodeView::Heading {
            level,
            children: spec_substitute_nodes(children, ph, rep),
        },
        NodeView::Bold { children } => NodeView::Bold {
            children: spec_substitute_nodes(children, ph, rep),
        },
        NodeView::Italic { children } => NodeView::Italic {
            children: spec_substitute_nodes(children, ph, rep),
        },
        NodeView::Blockquote { children } => NodeView::Blockquote {
            children: spec_substitute_nodes(children, ph, rep),
        },
        NodeView::Superscript { children } => NodeView::Superscript {
            children: spec_substitute_nodes(children, ph, rep),
        },
        NodeView::Subscript { children } => NodeView::Subscript {
            children: spec_substitute_nodes(children, ph, rep),
        },
        NodeView::Small { children } => NodeView::Small {
            children: spec_substitute_nodes(children, ph, rep),
        },
        NodeView::Preformatted { children } => NodeView::Preformatted {
            children: spec_substitute_nodes(children, ph, rep),
        },
        NodeView::Tag { name, attributes, children } => NodeView::Tag {
            name,
            attributes,
            children: spec_substitute_nodes(children, ph, rep),
        },
        NodeView::TemplateParameterUse { name, default } => NodeView::TemplateParameterUse {
            name,
            default: match default {
                Some(d) => Some(spec_substitute_nodes(d, ph, rep)),
                None => None,
            },
        },
        NodeView::Table { attributes, captions, rows } => NodeView::Table {
            attributes: spec_substitute_nodes(attributes, ph, rep),
            captions: spec_substitute_captions(captions, ph, rep),
            rows: spec_substitute_rows(rows, ph, rep),
        },
        NodeView::OrderedList { items } => NodeView::OrderedList {
            items: spec_substitute_items(items, ph, rep),
        },
        NodeView::UnorderedList { items } => NodeView::UnorderedList {
            items: spec_substitute_items(items, ph, rep),
        },
        NodeView::DefinitionList { items } => NodeView::DefinitionList {
            items: spec_substitute_def_items(items, ph, rep),
        },
        _ => v,
    }
}

/// A node list with every placeholder text replaced; spans stay.
pub open spec fn spec_substitute_nodes(s: Seq<SpannedView>, ph: Seq<char>, rep: NodeView) -> Seq<
    SpannedView,
>
    decreases s, 6int,
{
    Seq::new(
        s.len(),
        |i: int|
            if 0 <= i < s.len() {
                SpannedView { value: spec_substitute(s[i].value, ph, rep), span: s[i].span }
            } else {
                arbitrary()
            },
    )
}

/// Table captions with every placeholder text replaced.
pub open spec fn spec_substitute_captions(
    cs: Seq<CaptionView>,
    ph: Seq<char>,
    rep: NodeView,
) -> Seq<CaptionView>
    decreases cs, 7int,
{
    Seq::new(
        cs.len(),
        |i: int|
            if 0 <= i < cs.len() {
                CaptionView {
                    attributes: match cs[i].attributes {
                        Some(a) => Some(spec_substitute_nodes(a, ph, rep)),
                        None => None,
                    },
                    content: spec_substitute_nodes(cs[i].content, ph, rep),
                }
            } else {
                arbitrary()
            },
    )
}

/// Table cells with every placeholder text replaced.
pub open spec fn spec_substitute_cells(cs: Seq<CellView>, ph: Seq<char>, rep: NodeView) -> Seq<
    CellView,
>
    decreases cs, 7int,
{
    Seq::new(
        cs.len(),
        |i: int|
            if 0 <= i < cs.len() {
                CellView {
                    is_header: cs[i].is_header,
                    attributes: match cs[i].attributes {
                        Some(a) => Some(spec_substitute_nodes(a, ph, rep)),
                        None => None,
                    },
                    content: spec_substitute_nodes(cs[i].content, ph, rep),
                }
            } else {
                arbitrary()
            },
    )
}

/// Table rows with every placeholder text replaced in the cells; row
/// attributes take no part in the walk.
pub open spec fn spec_substitute_rows(rs: Seq<RowView>, ph: Seq<char>, rep: NodeView) -> Seq<
    RowView,
>
    decreases rs, 8int,
{
    Seq::new(
        rs.len(),
        |i: int|
            if 0 <= i < rs.len() {
                RowView {
                    attributes: rs[i].attributes,
                    cells: spec_substitute_cells(rs[i].cells, ph, rep),
                }
            } else {
                arbitrary()
            },
    )
}

/// Plain-list items with every placeholder text replaced.
pub open spec fn spec_substitute_items(
    items: Seq<crate::ast::ListItemView>,
    ph: Seq<char>,
    rep: NodeView,
) -> Seq<crate::ast::ListItemView>
    decreases items, 7int,
{
    Seq::new(
        items.len(),
        |i: int|
            if 0 <= i < items.len() {
                crate::ast::ListItemView {
                    content: spec_substitute_nodes(items[i].content, ph, rep),
                }
            } else {
                arbitrary()
            },
    )
}

/// Definition-list items with every placeholder text replaced.
pub open spec fn spec_substitute_def_items(
    items: Seq<crate::ast::DefinitionListItemView>,
    ph: Seq<char>,
    rep: NodeView,
) -> Seq<crate::ast::DefinitionListItemView>
    decreases items, 7int,
{
    Seq::new(
        items.len(),
        |i: int|
            if 0 <= i < items.len() {
                crate::ast::DefinitionListItemView {
                    type_: items[i].type_,
                    content: spec_substitute_nodes(items[i].content, ph, rep),
                }
            } else {
                arbitrary()
            },
    )
}

/// Replaces every text node equal to `ph` by a copy of `rep`, walking the
/// same children the rewrite walks.
#[verifier::loop_isolation(false)]
#[verifier::rlimit(100)]
pub fn substitute_node(node: &WikitextSimplifiedNode, ph: &String, rep: &WikitextSimplifiedNode)
    -> (r: WikitextSimplifiedNode)
    ensures
        node_view(r) == spec_substitute(node_view(*node), ph@, node_view(*rep)),
    decreases *node, 5int,
{
    let r = match node {
        WikitextSimplifiedNode::Text { text } => {
            if string_eq_str(text, ph.as_str()) {
                rep.clone()
            } else {
                WikitextSimplifiedNode::Text { text: text.clone() }
            }
        },
        WikitextSimplifiedNode::Fragment { children } => WikitextSimplifiedNode::Fragment {
            children: substitute_nodes(children, ph, rep),
        },
        WikitextSimplifiedNode::Heading { level, children } => WikitextSimplifiedNode::Heading {
            level: *level,
            children: substitute_nodes(children, ph, rep),
        },
        WikitextSimplifiedNode::Bold { children } => WikitextSimplifiedNode::Bold {
            children: substitute_nodes(children, ph, rep),
        },
        WikitextSimplifiedNode::Italic { children } => WikitextSimplifiedNode::Italic {
            children: substitute_nodes(children, ph, rep),
        },
        WikitextSimplifiedNode::Blockquote { children } => WikitextSimplifiedNode::Blockquote {
            children: substitute_nodes(children, ph, rep),
        },
        WikitextSimplifiedNode::Superscript { children } => WikitextSimplifiedNode::Superscript {
            children: substitute_nodes(children, ph, rep),
        },
        WikitextSimplifiedNode::Subscript { children } => WikitextSimplifiedNode::Subscript {
            children: substitute_nodes(children, ph, rep),
        },
        WikitextSimplifiedNode::Small { children } => WikitextSimplifiedNode::Small {
            children: substitute_nodes(children, ph, rep),
        },
        WikitextSimplifiedNode::Preformatted { children } => WikitextSimplifiedNode::Preformatted {
            children: substitute_nodes(children, ph, rep),
        },
        WikitextSimplifiedNode::Tag { name, attributes, children } => WikitextSimplifiedNode::Tag {
            name: name.clone(),
            attributes: match attributes {
                Some(a) => Some(a.clone()),
                None => None,
            },
            children: substitute_nodes(children, ph, rep),
        },
        WikitextSimplifiedNode::TemplateParameterUse { name, default } => WikitextSimplifiedNode::TemplateParameterUse {
            name: name.clone(),
            default: match default {
                Some(d) => Some(substitute_nodes(d, ph, rep)),
                None => None,
            },
        },
        WikitextSimplifiedNode::Table { attributes, captions, rows } => {
            let new_attrs = substitute_nodes(attributes, ph, rep);
            let mut new_captions: Vec<WikitextSimplifiedTableCaption> = Vec::new();
            let mut i: usize = 0;
            while i < captions.len()
                invariant
                    i <= captions@.len(),
                    new_captions@.len() == i,
                    forall|j: int|
                        0 <= j < i ==> crate::ast::caption_view(#[trigger] new_captions@[j])
                            == spec_substitute_captions(
                            crate::ast::captions_view(captions@),
                            ph@,
                            node_view(*rep),
                        )[j],
                decreases captions@.len() - i,
            {
                proof {
                    assert(crate::ast::captions_view(captions@)[i as int]
                        == crate::ast::caption_view(captions@[i as int]));
                }
                let c = WikitextSimplifiedTableCaption {
                    attributes: match &captions[i].attributes {
                        Some(a) => Some(substitute_nodes(a, ph, rep)),
                        None => None,
                    },
                    content: substitute_nodes(&captions[i].content, ph, rep),
                };
                new_captions.push(c);
                i += 1;
            }
            let mut new_rows: Vec<WikitextSimplifiedTableRow> = Vec::new();
            let mut k: usize = 0;
            while k < rows.len()
                invariant
                    k <= rows@.len(),
                    new_rows@.len() == k,
                    forall|j: int|
                        0 <= j < k ==> crate::ast::row_view(#[trigger] new_rows@[j])
                            == spec_substitute_rows(
                            crate::ast::rows_view(rows@),
                            ph@,
                            node_view(*rep),
                        )[j],
                decreases rows@.len() - k,
            {
                proof {
                    assert(crate::ast::rows_view(rows@)[k as int] == crate::ast::row_view(
                        rows@[k as int],
                    ));
                }
                let mut new_cells: Vec<WikitextSimplifiedTableCell> = Vec::new();
                let mut c: usize = 0;
                while c < rows[k].cells.len()
                    invariant
                        k < rows@.len(),
                        c <= rows@[k as int].cells@.len(),
                        new_cells@.len() == c,
                        forall|j: int|
                            0 <= j < c ==> crate::ast::cell_view(#[trigger] new_cells@[j])
                                == spec_substitute_cells(
                                crate::ast::cells_view(rows@[k as int].cells@),
                                ph@,
                                node_view(*rep),
                            )[j],
                    decreases rows@[k as int].cells@.len() - c,
                {
                    proof {
                        assert(crate::ast::cells_view(rows@[k as int].cells@)[c as int]
                            == crate::ast::cell_view(rows@[k as int].cells@[c as int]));
                    }
                    let cell = WikitextSimplifiedTableCell {
                        is_header: rows[k].cells[c].is_header,
                        attributes: match &rows[k].cells[c].attributes {
                            Some(a) => Some(substitute_nodes(a, ph, rep)),
                            None => None,
                        },
                        content: substitute_nodes(&rows[k].cells[c].content, ph, rep),
                    };
                    new_cells.push(cell);
                    c += 1;
                }
                let row = WikitextSimplifiedTableRow {
                    attributes: clone_nodes(&rows[k].attributes),
                    cells: new_cells,
                };
                proof {
                    assert(crate::ast::cells_view(row.cells@) =~= spec_substitute_cells(
                        crate::ast::cells_view(rows@[k as int].cells@),
                        ph@,
                        node_view(*rep),
                    ));
                    assert(crate::ast::row_view(row) =~= spec_substitute_rows(
                        crate::ast::rows_view(rows@),
                        ph@,
                        node_view(*rep),
                    )[k as int]);
                }
                new_rows.push(row);
                k += 1;
            }
            let out = WikitextSimplifiedNode::Table {
                attributes: new_attrs,
                captions: new_captions,
                rows: new_rows,
            };
            proof {
                assert(crate::ast::captions_view(new_captions@) =~= spec_substitute_captions(
                    crate::ast::captions_view(captions@),
                    ph@,
                    node_view(*rep),
                ));
                assert(crate::ast::rows_view(new_rows@) =~= spec_substitute_rows(
                    crate::ast::rows_view(rows@),
                    ph@,
                    node_view(*rep),
                ));
            }
            out
        },
        WikitextSimplifiedNode::OrderedList { items } => WikitextSimplifiedNode::OrderedList {
            items: substitute_items(items, ph, rep),
        },
        WikitextSimplifiedNode::UnorderedList { items } => WikitextSimplifiedNode::UnorderedList {
            items: substitute_items(items, ph, rep),
        },
        WikitextSimplifiedNode::DefinitionList { items } => {
            let mut out: Vec<WikitextSimplifiedDefinitionListItem> = Vec::new();
            let mut i: usize = 0;
            while i < items.len()
                invariant
                    i <= items@.len(),
                    out@.len() == i,
                    forall|j: int|
                        0 <= j < i ==> crate::ast::definition_list_item_view(#[trigger] out@[j])
                            == spec_substitute_def_items(
                            crate::ast::definition_list_items_view(items@),
                            ph@,
                            node_view(*rep),
                        )[j],
                decreases items@.len() - i,
            {
                proof {
                    assert(crate::ast::definition_list_items_view(items@)[i as int]
                        == crate::ast::definition_list_item_view(items@[i as int]));
                }
                let it = WikitextSimplifiedDefinitionListItem {
                    type_: items[i].type_,
                    content: substitute_nodes(&items[i].content, ph, rep),
                };
                out.push(it);
                i += 1;
            }
            let node_out = WikitextSimplifiedNode::DefinitionList { items: out };
            proof {
                assert(crate::ast::definition_list_items_view(out@) =~= spec_substitute_def_items(
                    crate::ast::definition_list_items_view(items@),
                    ph@,
                    node_view(*rep),
                ));
            }
            node_out
        },
        other => other.clone(),
    };
    proof {
        assert(node_view(r) =~~= spec_substitute(node_view(*node), ph@, node_view(*rep)));
    }
    r
}

/// Replaces every placeholder text in a node list; spans stay.
#[verifier::loop_isolation(false)]
pub fn substitute_nodes(
    nodes: &Vec<Spanned<WikitextSimplifiedNode>>,
    ph: &String,
    rep: &WikitextSimplifiedNode,
) -> (r: Vec<Spanned<WikitextSimplifiedNode>>)
    ensures
        nodes_view(r@) == spec_substitute_nodes(nodes_view(nodes@), ph@, node_view(*rep)),
    decreases nodes@, 6int,
{
    let mut out: Vec<Spanned<WikitextSimplifiedNode>> = Vec::new();
    let mut i: usize = 0;
    while i < nodes.len()
        invariant
            i <= nodes@.len(),
            out@.len() == i,
            forall|j: int|
                0 <= j < i ==> spanned_view(#[trigger] out@[j]) == spec_substitute_nodes(
                    nodes_view(nodes@),
                    ph@,
                    node_view(*rep),
                )[j],
        decreases nodes@.len() - i,
    {
        proof {
            assert(nodes_view(nodes@)[i as int] == spanned_view(nodes@[i as int]));
        }
        let v = substitute_node(&nodes[i].value, ph, rep);
        out.push(Spanned { value: v, span: nodes[i].span });
        i += 1;
    }
    proof {
        assert(nodes_view(out@) =~= spec_substitute_nodes(
            nodes_view(nodes@),
            ph@,
            node_view(*rep),
        ));
    }
    out
}

/// Replaces every placeholder text in the items of an ordered or unordered
/// list.
#[verifier::loop_isolation(false)]
fn substitute_items(
    items: &Vec<WikitextSimplifiedListItem>,
    ph: &String,
    rep: &WikitextSimplifiedNode,
) -> (r: Vec<WikitextSimplifiedListItem>)
    ensures
        crate::ast::list_items_view(r@) == spec_substitute_items(
            crate::ast::list_items_view(items@),
            ph@,
            node_view(*rep),
        ),
    decreases items@, 7int,
{
    let mut out: Vec<WikitextSimplifiedListItem> = Vec::new();
    let mut i: usize = 0;
    while i < items.len()
        invariant
            i <= items@.len(),
            out@.len() == i,
            forall|j: int|
                0 <= j < i ==> crate::ast::list_item_view(#[trigger] out@[j])
                    == spec_substitute_items(
                    crate::ast::list_items_view(items@),
                    ph@,
                    node_view(*rep),
                )[j],
        decreases items@.len() - i,
    {
        proof {
            assert(crate::ast::list_items_view(items@)[i as int] == crate::ast::list_item_view(
                items@[i as int],
            ));
        }
        let it = WikitextSimplifiedListItem { content: substitute_nodes(&items[i].content, ph, rep) };
        out.push(it);
        i += 1;
    }
    proof {
        assert(crate::ast::list_items_view(out@) =~= spec_substitute_items(
            crate::ast::list_items_view(items@),
            ph@,
            node_view(*rep),
        ));
    }
    out
}

/// Whether a cell's serialized content carries link, bold, italic or
/// template markers: the heuristic that decides whether the cell is
/// reparsed after template expansion.
pub open spec fn cell_has_markup(c: CellView) -> bool {
    let t = crate::render::wikitext_of_nodes(c.content);
    ||| spec_contains_seq(t, "[["@)
    ||| spec_contains_seq(t, "'''"@)
    ||| spec_contains_seq(t, "''"@)
    ||| spec_contains_seq(t, "{{"@)
}

/// How a reparsed cell relates to the one it came from: marker flag and
/// attributes are kept; a cell without markup keeps its content; a settled
/// cell stays settled.
pub open spec fn cell_reparse_keeps_shape(old_cell: CellView, new_cell: CellView) -> bool {
    &&& new_cell.is_header == old_cell.is_header
    &&& new_cell.attributes == old_cell.attributes
    &&& (!cell_has_markup(old_cell) ==> new_cell.content == old_cell.content)
    &&& (!spec_needs_nodes(old_cell.content) ==> !spec_needs_nodes(new_cell.content))
}

/// How a reparsed row relates to the one it came from: attributes and cell
/// count are kept, and each cell keeps its shape.
pub open spec fn row_reparse_keeps_shape(old_row: RowView, new_row: RowView) -> bool {
    &&& new_row.attributes == old_row.attributes
    &&& new_row.cells.len() == old_row.cells.len()
    &&& (forall|j: int|
        0 <= j < old_row.cells.len() ==> cell_reparse_keeps_shape(
            old_row.cells[j],
            #[trigger] new_row.cells[j],
        ))
}

/// How a reparsed table relates to the one it came from: attributes,
/// captions and row count are kept, and each row keeps its shape.  Only
/// marked-up cell contents may change.
pub open spec fn table_reparse_keeps_shape(
    attributes: Seq<SpannedView>,
    captions: Seq<CaptionView>,
    rows: Seq<RowView>,
    out: NodeView,
) -> bool {
    match out {
        NodeView::Table { attributes: a1, captions: c1, rows: r1 } => {
            &&& a1 == attributes
            &&& c1 == captions
            &&& r1.len() == rows.len()
            &&& (forall|i: int|
                0 <= i < rows.len() ==> row_reparse_keeps_shape(rows[i], #[trigger] r1[i]))
        },
        _ => false,
    }
}

/// A template call recorded during one rewrite round, to be resolved after
/// the round's synchronous walk.
struct TemplateCall {
    /// The name of the invoked template.
    name: String,
    /// The parameters of the invocation.
    parameters: Vec<TemplateParameter>,
}

/// One bottom-up rewrite of a node: parameter placeholders resolve to text,
/// and each template invocation becomes a unique placeholder text token while
/// its call is recorded.  The result carries no template invocation and no
/// parameter placeholder anywhere the walk reaches.
#[verifier::loop_isolation(false)]
#[verifier::rlimit(100)]
fn rewrite_node<C: TemplateContext>(
    context: &C,
    parameters: &[TemplateParameter],
    node: &WikitextSimplifiedNode,
    calls: &mut Vec<TemplateCall>,
) -> (r: WikitextSimplifiedNode)
    ensures
        !spec_needs(node_view(r)),
    decreases *node, 5int,
{
    match node {
        WikitextSimplifiedNode::Template { name, parameters: tps } => {
            let idx = calls.len();
            calls.push(
                TemplateCall {
                    name: name.clone(),
                    parameters: crate::clone_impls::clone_parameters(tps),
                },
            );
            WikitextSimplifiedNode::Text { text: make_placeholder(idx) }
        },
        WikitextSimplifiedNode::TemplateParameterUse { name, default } => {
            let new_default: Option<Vec<Spanned<WikitextSimplifiedNode>>> = match default {
                Some(d) => Some(rewrite_nodes(context, parameters, d, calls)),
                None => None,
            };
            let binding = find_parameter(parameters, name.as_str());
            let magic: Option<String> = match &binding {
                Some(_) => None,
                None => context.resolve_magic_variable(name.as_str()),
            };
            resolve_parameter_use(&new_default, binding, magic)
        },
        WikitextSimplifiedNode::Fragment { children } => WikitextSimplifiedNode::Fragment {
            children: rewrite_nodes(context, parameters, children, calls),
        },
        WikitextSimplifiedNode::Heading { level, children } => WikitextSimplifiedNode::Heading {
            level: *level,
            children: rewrite_nodes(context, parameters, children, calls),
        },
        WikitextSimplifiedNode::Bold { children } => WikitextSimplifiedNode::Bold {
            children: rewrite_nodes(context, parameters, children, calls),
        },
        WikitextSimplifiedNode::Italic { children } => WikitextSimplifiedNode::Italic {
            children: rewrite_nodes(context, parameters, children, calls),
        },
        WikitextSimplifiedNode::Blockquote { children } => WikitextSimplifiedNode::Blockquote {
            children: rewrite_nodes(context, parameters, children, calls),
        },
        WikitextSimplifiedNode::Superscript { children } => WikitextSimplifiedNode::Superscript {
            children: rewrite_nodes(context, parameters, children, calls),
        },
        WikitextSimplifiedNode::Subscript { children } => WikitextSimplifiedNode::Subscript {
            children: rewrite_nodes(context, parameters, children, calls),
        },
        WikitextSimplifiedNode::Small { children } => WikitextSimplifiedNode::Small {
            children: rewrite_nodes(context, parameters, children, calls),
        },
        WikitextSimplifiedNode::Preformatted { children } => WikitextSimplifiedNode::Preformatted {
            children: rewrite_nodes(context, parameters, children, calls),
        },
        WikitextSimplifiedNode::Tag { name, attributes, children } => WikitextSimplifiedNode::Tag {
            name: name.clone(),
            attributes: match attributes {
                Some(a) => Some(a.clone()),
                None => None,
            },
            children: rewrite_nodes(context, parameters, children, calls),
        },
        WikitextSimplifiedNode::Table { attributes, captions, rows } => {
            let new_attrs = rewrite_nodes(context, parameters, attributes, calls);
            let mut new_captions: Vec<WikitextSimplifiedTableCaption> = Vec::new();
            let mut i: usize = 0;
            while i < captions.len()
                invariant
                    i <= captions@.len(),
                    forall|j: int|
                        0 <= j < new_captions@.len() ==> (!spec_needs_nodes(
                            (#[trigger] crate::ast::captions_view(new_captions@)[j]).content,
                        ) && (match crate::ast::captions_view(new_captions@)[j].attributes {
                            Some(a) => !spec_needs_nodes(a),
                            None => true,
                        })),
                decreases captions@.len() - i,
            {
                let c = WikitextSimplifiedTableCaption {
                    attributes: match &captions[i].attributes {
                        Some(a) => Some(rewrite_nodes(context, parameters, a, calls)),
                        None => None,
                    },
                    content: rewrite_nodes(context, parameters, &captions[i].content, calls),
                };
                let ghost pre = new_captions@;
                new_captions.push(c);
                proof {
                    assert forall|j: int| 0 <= j < new_captions@.len() implies (!spec_needs_nodes(
                        (#[trigger] crate::ast::captions_view(new_captions@)[j]).content,
                    ) && (match crate::ast::captions_view(new_captions@)[j].attributes {
                        Some(a) => !spec_needs_nodes(a),
                        None => true,
                    })) by {
                        if j < pre.len() {
                            assert(crate::ast::captions_view(new_captions@)[j]
                                == crate::ast::captions_view(pre)[j]);
                        } else {
                            assert(crate::ast::captions_view(new_captions@)[j]
                                == crate::ast::caption_view(c));
                        }
                    }
                }
                i += 1;
            }
            proof {
                assert(!spec_needs_captions(crate::ast::captions_view(new_captions@)));
            }
            let mut new_rows: Vec<WikitextSimplifiedTableRow> = Vec::new();
            let mut k: usize = 0;
            while k < rows.len()
                invariant
                    k <= rows@.len(),
                    forall|j: int|
                        0 <= j < new_rows@.len() ==> !spec_needs_cells(
                            (#[trigger] crate::ast::rows_view(new_rows@)[j]).cells,
                        ),
                decreases rows@.len() - k,
            {
                let mut new_cells: Vec<WikitextSimplifiedTableCell> = Vec::new();
                let mut c: usize = 0;
                while c < rows[k].cells.len()
                    invariant
                        k < rows@.len(),
                        c <= rows@[k as int].cells@.len(),
                        forall|j: int|
                            0 <= j < new_cells@.len() ==> (!spec_needs_nodes(
                                (#[trigger] crate::ast::cells_view(new_cells@)[j]).content,
                            ) && (match crate::ast::cells_view(new_cells@)[j].attributes {
                                Some(a) => !spec_needs_nodes(a),
                                None => true,
                            })),
                    decreases rows@[k as int].cells@.len() - c,
                {
                    let cell = WikitextSimplifiedTableCell {
                        is_header: rows[k].cells[c].is_header,
                        attributes: match &rows[k].cells[c].attributes {
                            Some(a) => Some(rewrite_nodes(context, parameters, a, calls)),
                            None => None,
                        },
                        content: rewrite_nodes(
                            context,
                            parameters,
                            &rows[k].cells[c].content,
                            calls,
                        ),
                    };
                    let ghost pre = new_cells@;
                    new_cells.push(cell);
                    proof {
                        assert forall|j: int| 0 <= j < new_cells@.len() implies (!spec_needs_nodes(
                            (#[trigger] crate::ast::cells_view(new_cells@)[j]).content,
                        ) && (match crate::ast::cells_view(new_cells@)[j].attributes {
                            Some(a) => !spec_needs_nodes(a),
                            None => true,
                        })) by {
                            if j < pre.len() {
                                assert(crate::ast::cells_view(new_cells@)[j]
                                    == crate::ast::cells_view(pre)[j]);
                            } else {
                                assert(crate::ast::cells_view(new_cells@)[j]
                                    == crate::ast::cell_view(cell));
                            }
                        }
                    }
                    c += 1;
                }
                proof {
                    assert(!spec_needs_cells(crate::ast::cells_view(new_cells@)));
                }
                let row = WikitextSimplifiedTableRow {
                    attributes: clone_nodes(&rows[k].attributes),
                    cells: new_cells,
                };
                let ghost pre = new_rows@;
                new_rows.push(row);
                proof {
                    assert forall|j: int| 0 <= j < new_rows@.len() implies !spec_needs_cells(
                        (#[trigger] crate::ast::rows_view(new_rows@)[j]).cells,
                    ) by {
                        if j < pre.len() {
                            assert(crate::ast::rows_view(new_rows@)[j] == crate::ast::rows_view(
                                pre,
                            )[j]);
                        } else {
                            assert(crate::ast::rows_view(new_rows@)[j] == crate::ast::row_view(
                                row,
                            ));
                        }
                    }
                }
                k += 1;
            }
            proof {
                assert(!spec_needs_rows(crate::ast::rows_view(new_rows@)));
            }
            WikitextSimplifiedNode::Table {
                attributes: new_attrs,
                captions: new_captions,
                rows: new_rows,
            }
        },
        WikitextSimplifiedNode::OrderedList { items } => WikitextSimplifiedNode::OrderedList {
            items: rewrite_items(context, parameters, items, calls),
        },
        WikitextSimplifiedNode::UnorderedList { items } => WikitextSimplifiedNode::UnorderedList {
            items: rewrite_items(context, parameters, items, calls),
        },
        WikitextSimplifiedNode::DefinitionList { items } => {
            let mut out: Vec<WikitextSimplifiedDefinitionListItem> = Vec::new();
            let mut i: usize = 0;
            while i < items.len()
                invariant
                    i <= items@.len(),
                    forall|j: int|
                        0 <= j < out@.len() ==> !spec_needs_nodes(
                            (#[trigger] crate::ast::definition_list_items_view(out@)[j]).content,
                        ),
                decreases items@.len() - i,
            {
                let it = WikitextSimplifiedDefinitionListItem {
                    type_: items[i].type_,
                    content: rewrite_nodes(context, parameters, &items[i].content, calls),
                };
                let ghost pre = out@;
                out.push(it);
                proof {
                    assert forall|j: int| 0 <= j < out@.len() implies !spec_needs_nodes(
                        (#[trigger] crate::ast::definition_list_items_view(out@)[j]).content,
                    ) by {
                        if j < pre.len() {
                            assert(crate::ast::definition_list_items_view(out@)[j]
                                == crate::ast::definition_list_items_view(pre)[j]);
                        } else {
                            assert(crate::ast::definition_list_items_view(out@)[j]
                                == crate::ast::definition_list_item_view(it));
                        }
                    }
                }
                i += 1;
            }
            proof {
                assert(!spec_needs_def_items(crate::ast::definition_list_items_view(out@)));
            }
            WikitextSimplifiedNode::DefinitionList { items: out }
        },
        other => other.clone(),
    }
}

/// One bottom-up rewrite of every node in a list.
#[verifier::loop_isolation(false)]
fn rewrite_nodes<C: TemplateContext>(
    context: &C,
    parameters: &[TemplateParameter],
    nodes: &Vec<Spanned<WikitextSimplifiedNode>>,
    calls: &mut Vec<TemplateCall>,
) -> (r: Vec<Spanned<WikitextSimplifiedNode>>)
    ensures
        !spec_needs_nodes(nodes_view(r@)),
    decreases nodes@, 6int,
{
    let mut out: Vec<Spanned<WikitextSimplifiedNode>> = Vec::new();
    let mut i: usize = 0;
    while i < nodes.len()
        invariant
            i <= nodes@.len(),
            forall|j: int|
                0 <= j < out@.len() ==> !spec_needs((#[trigger] nodes_view(out@)[j]).value),
        decreases nodes@.len() - i,
    {
        let v = rewrite_node(context, parameters, &nodes[i].value, calls);
        let ghost pre = out@;
        out.push(Spanned { value: v, span: nodes[i].span });
        proof {
            assert forall|j: int| 0 <= j < out@.len() implies !spec_needs(
                (#[trigger] nodes_view(out@)[j]).value,
            ) by {
                if j < pre.len() {
                    assert(nodes_view(out@)[j] == nodes_view(pre)[j]);
                } else {
                    assert(nodes_view(out@)[j].value == node_view(v));
                }
            }
        }
        i += 1;
    }
    proof {
        assert(!spec_needs_nodes(nodes_view(out@)));
    }
    out
}

/// One bottom-up rewrite of every item of an ordered or unordered list.
#[verifier::loop_isolation(false)]
fn rewrite_items<C: TemplateContext>(
    context: &C,
    parameters: &[TemplateParameter],
    items: &Vec<WikitextSimplifiedListItem>,
    calls: &mut Vec<TemplateCall>,
) -> (r: Vec<WikitextSimplifiedListItem>)
    ensures
        !spec_needs_items(crate::ast::list_items_view(r@)),
    decreases items@, 7int,
{
    let mut out: Vec<WikitextSimplifiedListItem> = Vec::new();
    let mut i: usize = 0;
    while i < items.len()
        invariant
            i <= items@.len(),
            forall|j: int|
                0 <= j < out@.len() ==> !spec_needs_nodes(
                    (#[trigger] crate::ast::list_items_view(out@)[j]).content,
                ),
        decreases items@.len() - i,
    {
        let it = WikitextSimplifiedListItem {
            content: rewrite_nodes(context, parameters, &items[i].content, calls),
        };
        let ghost pre = out@;
        out.push(it);
        proof {
            assert forall|j: int| 0 <= j < out@.len() implies !spec_needs_nodes(
                (#[trigger] crate::ast::list_items_view(out@)[j]).content,
            ) by {
                if j < pre.len() {
                    assert(crate::ast::list_items_view(out@)[j] == crate::ast::list_items_view(
                        pre,
                    )[j]);
                } else {
                    assert(crate::ast::list_items_view(out@)[j] == crate::ast::list_item_view(
                        it,
                    ));
                }
            }
        }
        i += 1;
    }
    proof {
        assert(!spec_needs_items(crate::ast::list_items_view(out@)));
    }
    out
}

/// The cached template stored under a key, if any: the first entry wins, and
/// the evaluator never stores a key twice.
pub open spec fn spec_cache_lookup(
    cache: Seq<(String, WikitextSimplifiedNode)>,
    key: Seq<char>,
) -> Option<NodeView>
    decreases cache,
{
    if cache.len() == 0 {
        None
    } else if cache[0].0@ == key {
        Some(node_view(cache[0].1))
    } else {
        spec_cache_lookup(cache.drop_first(), key)
    }
}

/// Appending a fresh key makes it found.
proof fn lemma_cache_lookup_push(
    cache: Seq<(String, WikitextSimplifiedNode)>,
    key: Seq<char>,
    entry: (String, WikitextSimplifiedNode),
)
    requires
        spec_cache_lookup(cache, key) is None,
        entry.0@ == key,
    ensures
        spec_cache_lookup(cache.push(entry), key) == Some(node_view(entry.1)),
    decreases cache,
{
    if cache.len() == 0 {
        assert(cache.push(entry)[0] == entry);
    } else {
        assert(cache.push(entry)[0] == cache[0]);
        assert(cache.push(entry).drop_first() =~= cache.drop_first().push(entry));
        lemma_cache_lookup_push(cache.drop_first(), key, entry);
    }
}

/// Whether every template cached before stays cached, unchanged: the cache
/// only grows, and an entry lives for the evaluator's lifetime.
pub open spec fn cache_preserved(
    old_cache: Seq<(String, WikitextSimplifiedNode)>,
    new_cache: Seq<(String, WikitextSimplifiedNode)>,
) -> bool {
    forall|k: Seq<char>|
        spec_cache_lookup(old_cache, k) is Some ==> #[trigger] spec_cache_lookup(new_cache, k)
            == spec_cache_lookup(old_cache, k)
}

/// Appending an entry never disturbs a key that was already found.
proof fn lemma_cache_lookup_push_keeps(
    cache: Seq<(String, WikitextSimplifiedNode)>,
    k: Seq<char>,
    entry: (String, WikitextSimplifiedNode),
)
    requires
        spec_cache_lookup(cache, k) is Some,
    ensures
        spec_cache_lookup(cache.push(entry), k) == spec_cache_lookup(cache, k),
    decreases cache,
{
    assert(cache.push(entry)[0] == cache[0]);
    if cache[0].0@ == k {
    } else {
        assert(cache.push(entry).drop_first() =~= cache.drop_first().push(entry));
        lemma_cache_lookup_push_keeps(cache.drop_first(), k, entry);
    }
}

/// Cache preservation composes across consecutive calls.
proof fn lemma_cache_preserved_trans(
    a: Seq<(String, WikitextSimplifiedNode)>,
    b: Seq<(String, WikitextSimplifiedNode)>,
    c: Seq<(String, WikitextSimplifiedNode)>,
)
    requires
        cache_preserved(a, b),
        cache_preserved(b, c),
    ensures
        cache_preserved(a, c),
{
    assert forall|k: Seq<char>|
        spec_cache_lookup(a, k) is Some implies #[trigger] spec_cache_lookup(c, k)
        == spec_cache_lookup(a, k) by {
        assert(spec_cache_lookup(b, k) == spec_cache_lookup(a, k));
    }
}

/// How deep template resolution may recurse before an expansion gives up and
/// renders an error marker instead.
pub const TEMPLATE_RECURSION_LIMIT: u64 = 32;

/// How many rewrite rounds a table-bearing tree may take to reach its fixed
/// point.  Expansion is meant to stop when the serialization stops changing;
/// this bound makes the loop provably finite, and a tree still changing
/// after this many rounds is handed on as it stands.
pub const TABLE_FIXED_POINT_ROUNDS: usize = 64;

/// The template instantiation engine: caches parsed templates and expands
/// template invocations recursively.
pub struct TemplateEvaluator<'a, C: TemplateContext> {
    /// The collaborator that resolves magic variables, loads template text,
    /// and tokenizes wikitext.
    context: &'a C,
    /// Parsed-but-uninstantiated templates by normalized name.
    templates: Vec<(String, WikitextSimplifiedNode)>,
}

impl<'a, C: TemplateContext> TemplateEvaluator<'a, C> {
    /// The cached templates, in insertion order.
    pub closed spec fn cache(&self) -> Seq<(String, WikitextSimplifiedNode)> {
        self.templates@
    }

    /// Creates a template engine with an empty cache over the given context.
    pub fn new(context: &'a C) -> (r: Self)
        ensures
            r.cache().len() == 0,
    {
        TemplateEvaluator { context, templates: Vec::new() }
    }

    /// Returns the parsed template with the given name: from the cache when
    /// it is there (a hit always succeeds and leaves the cache unchanged),
    /// else loaded through the context, parsed, simplified, and cached as a
    /// fragment stored under the normalized key.
    #[verifier::loop_isolation(false)]
    fn get(&mut self, name: &str) -> (r: Result<WikitextSimplifiedNode, TemplateError>)
        ensures
            cache_preserved(old(self).cache(), final(self).cache()),
            spec_cache_lookup(
                old(self).cache(),
                spec_replace_char(lower_of(name@), ' ', '_'),
            ) is Some ==> r is Ok,
            (match &r {
                Ok(n) => spec_cache_lookup(
                    final(self).cache(),
                    spec_replace_char(lower_of(name@), ' ', '_'),
                ) == Some(node_view(*n)) && (spec_cache_lookup(
                    old(self).cache(),
                    spec_replace_char(lower_of(name@), ' ', '_'),
                ) is Some ==> final(self).cache() == old(self).cache()),
                Err(_) => final(self).cache() == old(self).cache(),
            }),
    {
        let key = make_key(name);
        let ghost keyv = key@;
        proof {
            assert(self.templates@.skip(0) =~= self.templates@);
        }
        let mut i: usize = 0;
        while i < self.templates.len()
            invariant
                i <= self.templates@.len(),
                spec_cache_lookup(self.templates@, keyv) == spec_cache_lookup(
                    self.templates@.skip(i as int),
                    keyv,
                ),
                self.templates@ == old(self).templates@,
                keyv == spec_replace_char(lower_of(name@), ' ', '_'),
            decreases self.templates@.len() - i,
        {
            proof {
                assert(self.templates@.skip(i as int)[0] == self.templates@[i as int]);
                assert(self.templates@.skip(i as int).drop_first() =~= self.templates@.skip(
                    i + 1,
                ));
            }
            if string_eq_str(&self.templates[i].0, key.as_str()) {
                return Ok(self.templates[i].1.clone());
            }
            i += 1;
        }
        proof {
            assert(self.templates@.skip(self.templates@.len() as int) =~= Seq::<
                (String, WikitextSimplifiedNode),
            >::empty());
        }
        let content = match self.context.load_template(name) {
            Ok(c) => c,
            Err(e) => {
                return Err(e);
            },
        };
        let tokens = match self.context.parse_wikitext(content.as_str()) {
            Ok(t) => t,
            Err(message) => {
                return Err(TemplateError::ParseFailed { name: name.to_owned(), message });
            },
        };
        if !check_wf_nodes(tokens.as_slice(), content.as_str().unicode_len()) {
            return Err(
                TemplateError::ParseFailed {
                    name: name.to_owned(),
                    message: String::from_str("tokenizer output does not fit its source text"),
                },
            );
        }
        let children = match simplify_wikitext_nodes(content.as_str(), tokens.as_slice()) {
            Ok(c) => c,
            Err(e) => {
                return Err(
                    TemplateError::ParseFailed { name: name.to_owned(), message: e.message() },
                );
            },
        };
        let node = WikitextSimplifiedNode::Fragment { children };
        let copy = node.clone();
        let ghost pre_cache = self.templates@;
        let entry = (key, node);
        proof {
            lemma_cache_lookup_push(pre_cache, keyv, entry);
        }
        self.templates.push(entry);
        proof {
            assert forall|k: Seq<char>|
                spec_cache_lookup(pre_cache, k) is Some implies #[trigger] spec_cache_lookup(
                self.templates@,
                k,
            ) == spec_cache_lookup(pre_cache, k) by {
                lemma_cache_lookup_push_keeps(pre_cache, k, entry);
            }
        }
        Ok(copy)
    }

    /// One expansion round: rewrites the tree bottom-up, resolving parameter
    /// placeholders and turning template invocations into placeholders, then
    /// instantiates each recorded call and substitutes its result back.  The
    /// round leaves no template invocation and no parameter placeholder
    /// anywhere the rewrite walks.
    #[verifier::loop_isolation(false)]
    fn replace_once(
        &mut self,
        template: &mut WikitextSimplifiedNode,
        parameters: &[TemplateParameter],
        fuel: u64,
    )
        requires
            fuel >= 1,
        ensures
            cache_preserved(old(self).cache(), final(self).cache()),
            !spec_needs(node_view(*final(template))),
        decreases fuel, 2int, (WikitextSimplifiedNode::Newline),
    {
        let mut calls: Vec<TemplateCall> = Vec::new();
        let rewritten = rewrite_node(self.context, parameters, template, &mut calls);
        *template = rewritten;
        let mut idx: usize = 0;
        while idx < calls.len()
            invariant
                !spec_needs(node_view(*template)),
                cache_preserved(old(self).cache(), self.cache()),
            decreases calls@.len() - idx,
        {
            let ghost cache_before = self.cache();
            let result = self.instantiate_inner(
                TemplateToInstantiate::Name(calls[idx].name.as_str()),
                calls[idx].parameters.as_slice(),
                fuel - 1,
            );
            let ghost rv = node_view(result);
            let result = flatten_single_fragment(result);
            proof {
                assert(!spec_needs(node_view(result))) by {
                    match rv {
                        NodeView::Fragment { children } => {
                            if children.len() == 1 {
                                assert(!spec_needs_nodes(children));
                                assert(!spec_needs(children[0].value));
                            }
                        },
                        _ => {},
                    }
                }
            }
            let ph = make_placeholder(idx);
            let substituted = substitute_node(template, &ph, &result);
            proof {
                lemma_substitute_no_needs(node_view(*template), ph@, node_view(result));
                lemma_cache_preserved_trans(old(self).cache(), cache_before, self.cache());
            }
            *template = substituted;
            idx += 1;
        }
    }

    /// Reparses the text content of table cells that carry wikitext markup,
    /// instantiating anything the reparse uncovers.  The table keeps its
    /// attributes, captions, row count, row attributes, and each cell's
    /// marker flag and attributes; a cell whose serialized content carries
    /// no markup keeps its content; a settled tree stays settled.  A
    /// fragment keeps its length and spans; every other node comes back
    /// unchanged.
    #[verifier::loop_isolation(false)]
    #[verifier::rlimit(100)]
    fn reparse_table_cells(&mut self, node: WikitextSimplifiedNode, fuel: u64) -> (r:
        WikitextSimplifiedNode)
        requires
            fuel >= 1,
        ensures
            cache_preserved(old(self).cache(), final(self).cache()),
            !spec_needs(node_view(node)) ==> !spec_needs(node_view(r)),
            (match node_view(node) {
                NodeView::Table { attributes, captions, rows } => table_reparse_keeps_shape(
                    attributes,
                    captions,
                    rows,
                    node_view(r),
                ),
                NodeView::Fragment { children } => (match node_view(r) {
                    NodeView::Fragment { children: c1 } => c1.len() == children.len() && (forall|
                        i: int,
                    |
                        0 <= i < children.len() ==> (#[trigger] c1[i]).span == children[i].span),
                    _ => false,
                }),
                _ => node_view(r) == node_view(node),
            }),
        decreases fuel, 1int, node,
    {
        match node {
            WikitextSimplifiedNode::Table { attributes, captions, rows } => {
                let ghost old_rows = crate::ast::rows_view(rows@);
                let mut new_rows: Vec<WikitextSimplifiedTableRow> = Vec::new();
                let mut k: usize = 0;
                while k < rows.len()
                    invariant
                        k <= rows@.len(),
                        new_rows@.len() == k,
                        cache_preserved(old(self).cache(), self.cache()),
                        forall|i: int|
                            0 <= i < k ==> row_reparse_keeps_shape(
                                old_rows[i],
                                #[trigger] crate::ast::rows_view(new_rows@)[i],
                            ),
                    decreases rows@.len() - k,
                {
                    let ghost old_cells = crate::ast::cells_view(rows@[k as int].cells@);
                    proof {
                        assert(old_rows[k as int] == crate::ast::row_view(rows@[k as int]));
                    }
                    let mut new_cells: Vec<WikitextSimplifiedTableCell> = Vec::new();
                    let mut c: usize = 0;
                    while c < rows[k].cells.len()
                        invariant
                            k < rows@.len(),
                            c <= rows@[k as int].cells@.len(),
                            new_cells@.len() == c,
                            cache_preserved(old(self).cache(), self.cache()),
                            old_cells == crate::ast::cells_view(rows@[k as int].cells@),
                            forall|j: int|
                                0 <= j < c ==> cell_reparse_keeps_shape(
                                    old_cells[j],
                                    #[trigger] crate::ast::cells_view(new_cells@)[j],
                                ),
                        decreases rows@[k as int].cells@.len() - c,
                    {
                        proof {
                            assert(old_cells[c as int] == crate::ast::cell_view(
                                rows@[k as int].cells@[c as int],
                            ));
                        }
                        let cell_content = clone_nodes(&rows[k].cells[c].content);
                        let cell_wikitext = crate::render::nodes_to_wikitext(&cell_content);
                        proof {
                            assert(cell_wikitext@ == crate::render::wikitext_of_nodes(
                                old_cells[c as int].content,
                            ));
                        }
                        let has_markup = contains_sub(cell_wikitext.as_str(), "[[") || contains_sub(
                            cell_wikitext.as_str(),
                            "'''",
                        ) || contains_sub(cell_wikitext.as_str(), "''") || contains_sub(
                            cell_wikitext.as_str(),
                            "{{",
                        );
                        proof {
                            assert(has_markup == cell_has_markup(old_cells[c as int]));
                        }
                        let mut content = cell_content;
                        if has_markup {
                            match self.context.parse_wikitext(cell_wikitext.as_str()) {
                                Ok(tokens) => {
                                    if check_wf_nodes(
                                        tokens.as_slice(),
                                        cell_wikitext.as_str().unicode_len(),
                                    ) {
                                        match simplify_wikitext_nodes(
                                            cell_wikitext.as_str(),
                                            tokens.as_slice(),
                                        ) {
                                            Ok(parsed) => {
                                                if parsed.len() > 0 {
                                                    let original_span = Span {
                                                        start: if content.len() > 0 {
                                                            content[0].span.start
                                                        } else {
                                                            0
                                                        },
                                                        end: if content.len() > 0 {
                                                            content[content.len() - 1].span.end
                                                        } else {
                                                            0
                                                        },
                                                    };
                                                    let reparsed = WikitextSimplifiedNode::Fragment {
                                                        children: parsed,
                                                    };
                                                    let ghost cache_cell = self.cache();
                                                    let instantiated = self.instantiate_inner(
                                                        TemplateToInstantiate::Node(reparsed),
                                                        &[],
                                                        fuel - 1,
                                                    );
                                                    proof {
                                                        lemma_cache_preserved_trans(
                                                            old(self).cache(),
                                                            cache_cell,
                                                            self.cache(),
                                                        );
                                                    }
                                                    match instantiated {
                                                        WikitextSimplifiedNode::Fragment {
                                                            children,
                                                        } => {
                                                            proof {
                                                                assert(!spec_needs_nodes(
                                                                    nodes_view(children@),
                                                                ));
                                                            }
                                                            content = children;
                                                        },
                                                        other => {
                                                            let mut one: Vec<
                                                                Spanned<WikitextSimplifiedNode>,
                                                            > = Vec::new();
                                                            one.push(
                                                                Spanned {
                                                                    value: other,
                                                                    span: original_span,
                                                                },
                                                            );
                                                            proof {
                                                                assert(nodes_view(one@)[0]
                                                                    == spanned_view(one@[0]));
                                                                assert(!spec_needs_nodes(
                                                                    nodes_view(one@),
                                                                ));
                                                            }
                                                            content = one;
                                                        },
                                                    }
                                                }
                                            },
                                            Err(_) => {},
                                        }
                                    }
                                },
                                Err(_) => {},
                            }
                        }
                        proof {
                            assert(!has_markup ==> nodes_view(content@) == old_cells[
                                c as int
                            ].content);
                            assert(nodes_view(content@) == old_cells[c as int].content
                                || !spec_needs_nodes(nodes_view(content@)));
                        }
                        let cell = WikitextSimplifiedTableCell {
                            is_header: rows[k].cells[c].is_header,
                            attributes: clone_opt_nodes(&rows[k].cells[c].attributes),
                            content,
                        };
                        let ghost pre = new_cells@;
                        new_cells.push(cell);
                        proof {
                            assert(cell_reparse_keeps_shape(
                                old_cells[c as int],
                                crate::ast::cell_view(cell),
                            ));
                            assert forall|j: int|
                                0 <= j < new_cells@.len() implies cell_reparse_keeps_shape(
                                old_cells[j],
                                #[trigger] crate::ast::cells_view(new_cells@)[j],
                            ) by {
                                if j < pre.len() {
                                    assert(crate::ast::cells_view(new_cells@)[j]
                                        == crate::ast::cells_view(pre)[j]);
                                } else {
                                    assert(crate::ast::cells_view(new_cells@)[j]
                                        == crate::ast::cell_view(cell));
                                }
                            }
                        }
                        c += 1;
                    }
                    let ghost ncv = crate::ast::cells_view(new_cells@);
                    let row = WikitextSimplifiedTableRow {
                        attributes: clone_nodes(&rows[k].attributes),
                        cells: new_cells,
                    };
                    proof {
                        assert(crate::ast::row_view(row).cells == ncv);
                        assert(crate::ast::row_view(row).attributes == old_rows[
                            k as int
                        ].attributes);
                        assert(old_rows[k as int].cells == old_cells);
                        assert forall|j: int|
                            0 <= j < old_rows[k as int].cells.len() implies cell_reparse_keeps_shape(
                            old_rows[k as int].cells[j],
                            #[trigger] crate::ast::row_view(row).cells[j],
                        ) by {
                            assert(cell_reparse_keeps_shape(old_cells[j], ncv[j]));
                        }
                        assert(row_reparse_keeps_shape(
                            old_rows[k as int],
                            crate::ast::row_view(row),
                        ));
                    }
                    let ghost pre = new_rows@;
                    new_rows.push(row);
                    proof {
                        assert forall|i: int|
                            0 <= i < new_rows@.len() implies row_reparse_keeps_shape(
                            old_rows[i],
                            #[trigger] crate::ast::rows_view(new_rows@)[i],
                        ) by {
                            if i < pre.len() {
                                assert(crate::ast::rows_view(new_rows@)[i]
                                    == crate::ast::rows_view(pre)[i]);
                            } else {
                                assert(crate::ast::rows_view(new_rows@)[i]
                                    == crate::ast::row_view(row));
                            }
                        }
                    }
                    k += 1;
                }
                let out = WikitextSimplifiedNode::Table {
                    attributes,
                    captions,
                    rows: new_rows,
                };
                proof {
                    let new_rv = crate::ast::rows_view(new_rows@);
                    if !spec_needs(node_view(node)) {
                        assert forall|i: int| 0 <= i < new_rv.len() implies !spec_needs_cells(
                            (#[trigger] new_rv[i]).cells,
                        ) by {
                            assert(!spec_needs_cells(old_rows[i].cells));
                            assert(row_reparse_keeps_shape(old_rows[i], new_rv[i]));
                            assert forall|j: int|
                                0 <= j < new_rv[i].cells.len() implies !(spec_needs_nodes(
                                (#[trigger] new_rv[i].cells[j]).content,
                            ) || (match new_rv[i].cells[j].attributes {
                                Some(a) => spec_needs_nodes(a),
                                None => false,
                            })) by {
                                assert(!(spec_needs_nodes((old_rows[i].cells[j]).content) || (
                                match old_rows[i].cells[j].attributes {
                                    Some(a) => spec_needs_nodes(a),
                                    None => false,
                                })));
                                assert(cell_reparse_keeps_shape(
                                    old_rows[i].cells[j],
                                    new_rv[i].cells[j],
                                ));
                            }
                        }
                        assert(!spec_needs(node_view(out)));
                    }
                }
                out
            },
            WikitextSimplifiedNode::Fragment { children } => {
                let ghost oc = children@;
                let mut new_children: Vec<Spanned<WikitextSimplifiedNode>> = Vec::new();
                let mut rest = children;
                proof {
                    assert(oc.skip(0) =~= oc);
                }
                while rest.len() > 0
                    invariant
                        rest@.len() <= oc.len(),
                        rest@ =~= oc.skip(oc.len() - rest@.len()),
                        new_children@.len() == oc.len() - rest@.len(),
                        cache_preserved(old(self).cache(), self.cache()),
                        forall|i: int|
                            0 <= i < new_children@.len() ==> ((#[trigger] nodes_view(
                                new_children@,
                            )[i]).span == nodes_view(oc)[i].span && (!spec_needs(
                                nodes_view(oc)[i].value,
                            ) ==> !spec_needs(nodes_view(new_children@)[i].value))),
                    decreases rest@.len(),
                {
                    let ghost gi = oc.len() - rest@.len();
                    let child = rest.remove(0);
                    proof {
                        assert(child == oc[gi as int]);
                        assert(oc.skip(gi as int).drop_first() =~= oc.skip(gi as int + 1));
                        assert(nodes_view(oc)[gi as int] == spanned_view(oc[gi as int]));
                    }
                    let ghost cache_child = self.cache();
                    let new_value = self.reparse_table_cells(child.value, fuel);
                    proof {
                        lemma_cache_preserved_trans(old(self).cache(), cache_child, self.cache());
                    }
                    let ghost pre = new_children@;
                    new_children.push(Spanned { value: new_value, span: child.span });
                    proof {
                        assert(pre.len() == gi);
                        assert forall|i: int|
                            0 <= i < new_children@.len() implies ((#[trigger] nodes_view(
                            new_children@,
                        )[i]).span == nodes_view(oc)[i].span && (!spec_needs(
                            nodes_view(oc)[i].value,
                        ) ==> !spec_needs(nodes_view(new_children@)[i].value))) by {
                            if i < pre.len() {
                                assert(nodes_view(new_children@)[i] == nodes_view(pre)[i]);
                            } else {
                                assert(nodes_view(new_children@)[i] == spanned_view(
                                    new_children@[i],
                                ));
                                assert(nodes_view(oc)[i] == spanned_view(oc[i]));
                            }
                        }
                    }
                }
                let out = WikitextSimplifiedNode::Fragment { children: new_children };
                proof {
                    if !spec_needs(node_view(node)) {
                        assert forall|i: int|
                            0 <= i < nodes_view(new_children@).len() implies !spec_needs(
                            (#[trigger] nodes_view(new_children@)[i]).value,
                        ) by {
                            assert(!spec_needs(nodes_view(oc)[i].value));
                        }
                        assert(!spec_needs(node_view(out)));
                    }
                }
                out
            },
            other => other,
        }
    }

    /// Instantiates a template: parameter placeholders are replaced, nested
    /// templates expand recursively, and the tree converges through wikitext
    /// round trips (or, with tables present, rewrite rounds to a fixed point
    /// followed by a table-cell reparse).  The result carries no template
    /// invocation and no parameter placeholder anywhere the rewrite walks.
    /// A tree that needs no work comes back unchanged; a failing template
    /// renders as an inline error marker.
    #[verifier::loop_isolation(false)]
    fn instantiate_inner(
        &mut self,
        template: TemplateToInstantiate<'_>,
        parameters: &[TemplateParameter],
        fuel: u64,
    ) -> (r: WikitextSimplifiedNode)
        ensures
            cache_preserved(old(self).cache(), final(self).cache()),
            !spec_needs(node_view(r)),
            (match template {
                TemplateToInstantiate::Node(t) => !spec_needs(node_view(t)) ==> node_view(r)
                    == node_view(t),
                _ => true,
            }),
        decreases fuel, 3int, (WikitextSimplifiedNode::Newline),
    {
        let mut tpl: WikitextSimplifiedNode = match template {
            TemplateToInstantiate::Name(name) => {
                match self.context.resolve_magic_variable(name) {
                    Some(value) => {
                        return WikitextSimplifiedNode::Text { text: value };
                    },
                    None => {},
                }
                match self.get(name) {
                    Ok(t) => t,
                    Err(e) => {
                        return template_error_text(&e);
                    },
                }
            },
            TemplateToInstantiate::Node(node) => node,
        };
        if !needs_instantiation(&tpl) {
            return tpl;
        }
        if fuel == 0 {
            return WikitextSimplifiedNode::Text {
                text: String::from_str("{{Template error: recursion limit reached}}"),
            };
        }
        let ghost cache_loaded = self.cache();
        self.replace_once(&mut tpl, parameters, fuel);
        proof {
            lemma_cache_preserved_trans(old(self).cache(), cache_loaded, self.cache());
        }
        if contains_table(&tpl) {
            let mut rounds: usize = TABLE_FIXED_POINT_ROUNDS;
            while rounds > 0
                invariant
                    !spec_needs(node_view(tpl)),
                    cache_preserved(old(self).cache(), self.cache()),
                decreases rounds,
            {
                let ghost cache_round = self.cache();
                let before = tpl.to_wikitext();
                self.replace_once(&mut tpl, parameters, fuel);
                proof {
                    lemma_cache_preserved_trans(old(self).cache(), cache_round, self.cache());
                }
                let after = tpl.to_wikitext();
                if string_eq_str(&before, after.as_str()) {
                    rounds = 0;
                } else {
                    rounds -= 1;
                }
            }
            let ghost cache_settled = self.cache();
            let out = self.reparse_table_cells(tpl, fuel);
            proof {
                lemma_cache_preserved_trans(old(self).cache(), cache_settled, self.cache());
            }
            out
        } else {
            let wt = tpl.to_wikitext();
            match self.context.parse_wikitext(wt.as_str()) {
                Ok(tokens) => {
                    if check_wf_nodes(tokens.as_slice(), wt.as_str().unicode_len()) {
                        match simplify_wikitext_nodes(wt.as_str(), tokens.as_slice()) {
                            Ok(children) => {
                                let ghost cache_parsed = self.cache();
                                let out = self.instantiate_inner(
                                    TemplateToInstantiate::Node(
                                        WikitextSimplifiedNode::Fragment { children },
                                    ),
                                    parameters,
                                    fuel - 1,
                                );
                                proof {
                                    lemma_cache_preserved_trans(
                                        old(self).cache(),
                                        cache_parsed,
                                        self.cache(),
                                    );
                                }
                                return out;
                            },
                            Err(_) => {},
                        }
                    }
                },
                Err(_) => {},
            }
            tpl
        }
    }

    /// Instantiates a template by replacing all parameter placeholders with
    /// their values, expanding nested templates, and round-tripping through
    /// wikitext until no further work remains: the result carries no
    /// template invocation and no parameter placeholder anywhere the
    /// rewrite walks.  A node that needs no work comes back unchanged.
    pub fn instantiate(
        &mut self,
        template: TemplateToInstantiate<'_>,
        parameters: &[TemplateParameter],
    ) -> (r: WikitextSimplifiedNode)
        ensures
            cache_preserved(old(self).cache(), final(self).cache()),
            !spec_needs(node_view(r)),
            (match template {
                TemplateToInstantiate::Node(t) => !spec_needs(node_view(t)) ==> node_view(r)
                    == node_view(t),
                _ => true,
            }),
    {
        self.instantiate_inner(template, parameters, TEMPLATE_RECURSION_LIMIT)
    }
}

/// A single-child fragment flattens to that child; everything else stays.
pub fn flatten_single_fragment(node: WikitextSimplifiedNode) -> (r: WikitextSimplifiedNode)
    ensures
        node_view(r) == (match node_view(node) {
            NodeView::Fragment { children } => if children.len() == 1 {
                children[0].value
            } else {
                node_view(node)
            },
            _ => node_view(node),
        }),
{
    match node {
        WikitextSimplifiedNode::Fragment { mut children } => {
            if children.len() == 1 {
                let ghost pre = children@;
                let only = children.pop().unwrap();
                proof {
                    assert(nodes_view(pre)[0] == spanned_view(pre[0]));
                }
                only.value
            } else {
                WikitextSimplifiedNode::Fragment { children }
            }
        },
        other => other,
    }
}

/// Substituting a placeholder with a settled tree keeps a settled tree
/// settled: no template invocation or parameter placeholder appears.
pub proof fn lemma_substitute_no_needs(v: NodeView, ph: Seq<char>, rep: NodeView)
    requires
        !spec_needs(v),
        !spec_needs(rep),
    ensures
        !spec_needs(spec_substitute(v, ph, rep)),
    decreases v, 5int,
{
    match v {
        NodeView::Fragment { children } => lemma_substitute_nodes_no_needs(children, ph, rep),
        NodeView::Heading { children, .. } => lemma_substitute_nodes_no_needs(children, ph, rep),
        NodeView::Bold { children } => lemma_substitute_nodes_no_needs(children, ph, rep),
        NodeView::Italic { children } => lemma_substitute_nodes_no_needs(children, ph, rep),
        NodeView::Blockquote { children } => lemma_substitute_nodes_no_needs(children, ph, rep),
        NodeView::Superscript { children } => lemma_substitute_nodes_no_needs(children, ph, rep),
        NodeView::Subscript { children } => lemma_substitute_nodes_no_needs(children, ph, rep),
        NodeView::Small { children } => lemma_substitute_nodes_no_needs(children, ph, rep),
        NodeView::Preformatted { children } => lemma_substitute_nodes_no_needs(children, ph, rep),
        NodeView::Tag { children, .. } => lemma_substitute_nodes_no_needs(children, ph, rep),
        NodeView::Table { attributes, captions, rows } => {
            lemma_substitute_nodes_no_needs(attributes, ph, rep);
            lemma_substitute_captions_no_needs(captions, ph, rep);
            lemma_substitute_rows_no_needs(rows, ph, rep);
        },
        NodeView::OrderedList { items } => lemma_substitute_items_no_needs(items, ph, rep),
        NodeView::UnorderedList { items } => lemma_substitute_items_no_needs(items, ph, rep),
        NodeView::DefinitionList { items } => lemma_substitute_def_items_no_needs(items, ph, rep),
        _ => {},
    }
}

/// Substitution over a settled node list yields a settled node list.
proof fn lemma_substitute_nodes_no_needs(s: Seq<SpannedView>, ph: Seq<char>, rep: NodeView)
    requires
        !spec_needs_nodes(s),
        !spec_needs(rep),
    ensures
        !spec_needs_nodes(spec_substitute_nodes(s, ph, rep)),
    decreases s, 6int,
{
    let out = spec_substitute_nodes(s, ph, rep);
    assert forall|i: int| 0 <= i < out.len() implies !spec_needs((#[trigger] out[i]).value) by {
        assert(out[i].value == spec_substitute(s[i].value, ph, rep));
        assert(!spec_needs(s[i].value));
        lemma_substitute_no_needs(s[i].value, ph, rep);
    }
}

/// Substitution over settled captions yields settled captions.
proof fn lemma_substitute_captions_no_needs(cs: Seq<CaptionView>, ph: Seq<char>, rep: NodeView)
    requires
        !spec_needs_captions(cs),
        !spec_needs(rep),
    ensures
        !spec_needs_captions(spec_substitute_captions(cs, ph, rep)),
    decreases cs, 7int,
{
    let out = spec_substitute_captions(cs, ph, rep);
    assert forall|i: int|
        0 <= i < out.len() implies !(spec_needs_nodes((#[trigger] out[i]).content) || (match out[i].attributes {
        Some(a) => spec_needs_nodes(a),
        None => false,
    })) by {
        assert(!(spec_needs_nodes((cs[i]).content) || (match cs[i].attributes {
            Some(a) => spec_needs_nodes(a),
            None => false,
        })));
        lemma_substitute_nodes_no_needs(cs[i].content, ph, rep);
        match cs[i].attributes {
            Some(a) => lemma_substitute_nodes_no_needs(a, ph, rep),
            None => {},
        }
    }
}

/// Substitution over settled cells yields settled cells.
proof fn lemma_substitute_cells_no_needs(cs: Seq<CellView>, ph: Seq<char>, rep: NodeView)
    requires
        !spec_needs_cells(cs),
        !spec_needs(rep),
    ensures
        !spec_needs_cells(spec_substitute_cells(cs, ph, rep)),
    decreases cs, 8int,
{
    let out = spec_substitute_cells(cs, ph, rep);
    assert forall|i: int|
        0 <= i < out.len() implies !(spec_needs_nodes((#[trigger] out[i]).content) || (match out[i].attributes {
        Some(a) => spec_needs_nodes(a),
        None => false,
    })) by {
        assert(!(spec_needs_nodes((cs[i]).content) || (match cs[i].attributes {
            Some(a) => spec_needs_nodes(a),
            None => false,
        })));
        lemma_substitute_nodes_no_needs(cs[i].content, ph, rep);
        match cs[i].attributes {
            Some(a) => lemma_substitute_nodes_no_needs(a, ph, rep),
            None => {},
        }
    }
}

/// Substitution over settled rows yields settled rows; row attributes take
/// no part in the walk.
proof fn lemma_substitute_rows_no_needs(rs: Seq<RowView>, ph: Seq<char>, rep: NodeView)
    requires
        !spec_needs_rows(rs),
        !spec_needs(rep),
    ensures
        !spec_needs_rows(spec_substitute_rows(rs, ph, rep)),
    decreases rs, 9int,
{
    let out = spec_substitute_rows(rs, ph, rep);
    assert forall|i: int| 0 <= i < out.len() implies !spec_needs_cells(
        (#[trigger] out[i]).cells,
    ) by {
        assert(!spec_needs_cells(rs[i].cells));
        lemma_substitute_cells_no_needs(rs[i].cells, ph, rep);
    }
}

/// Substitution over settled plain-list items yields settled items.
proof fn lemma_substitute_items_no_needs(
    items: Seq<crate::ast::ListItemView>,
    ph: Seq<char>,
    rep: NodeView,
)
    requires
        !spec_needs_items(items),
        !spec_needs(rep),
    ensures
        !spec_needs_items(spec_substitute_items(items, ph, rep)),
    decreases items, 8int,
{
    let out = spec_substitute_items(items, ph, rep);
    assert forall|i: int| 0 <= i < out.len() implies !spec_needs_nodes(
        (#[trigger] out[i]).content,
    ) by {
        assert(!spec_needs_nodes(items[i].content));
        lemma_substitute_nodes_no_needs(items[i].content, ph, rep);
    }
}

/// Substitution over settled definition-list items yields settled items.
proof fn lemma_substitute_def_items_no_needs(
    items: Seq<crate::ast::DefinitionListItemView>,
    ph: Seq<char>,
    rep: NodeView,
)
    requires
        !spec_needs_def_items(items),
        !spec_needs(rep),
    ensures
        !spec_needs_def_items(spec_substitute_def_items(items, ph, rep)),
    decreases items, 8int,
{
    let out = spec_substitute_def_items(items, ph, rep);
    assert forall|i: int| 0 <= i < out.len() implies !spec_needs_nodes(
        (#[trigger] out[i]).content,
    ) by {
        assert(!spec_needs_nodes(items[i].content));
        lemma_substitute_nodes_no_needs(items[i].content, ph, rep);
    }
}

} // verus!
