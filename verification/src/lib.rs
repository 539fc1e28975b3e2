//! Simplification of wiki markup into a small, closed set of node kinds.
//!
//! The grammar-level tree produced by a wikitext tokenizer distinguishes many
//! markup constructs and leaves ambiguities (toggle-style bold/italic,
//! implicitly closed tags) unresolved.  This crate rewrites such a tree into a
//! uniform, span-tagged simplified AST, serializes that AST back to wikitext,
//! and expands template invocations to a fixed point.
//!
//! The tokenizer itself is an external collaborator: callers hand the library
//! a [`grammar::GrammarNode`] tree (the plain-value image of the tokenizer's
//! output) together with the original source text.

pub mod ast;
mod clone_impls;
pub mod eq;
pub mod grammar;
pub mod inner_text;
pub mod render;
pub mod simplify;
pub mod template;
pub mod text;

pub use ast::{
    DefinitionListItemType, Span, Spanned, TemplateParameter, WikitextSimplifiedDefinitionListItem,
    WikitextSimplifiedListItem, WikitextSimplifiedNode, WikitextSimplifiedTableCaption,
    WikitextSimplifiedTableCell, WikitextSimplifiedTableRow,
};
pub use grammar::{
    check_wf_nodes, nodes_wikitext, GrammarDefinitionListItem, GrammarListItem, GrammarNode,
    GrammarTableCaption, GrammarTableCell, GrammarTableCellType, GrammarTableRow,
    GrammarTemplateParameter, NodeMetadata, NodeMetadataType,
};
pub use inner_text::{
    node_inner_text, nodes_inner_text, nodes_inner_text_with_config, InnerTextConfig,
};
pub use simplify::{
    extract_tag_attributes, simplify_wikitext_node, simplify_wikitext_nodes, NodeStructureError,
    SimplificationError, SimplificationErrorContext,
};
pub use template::{TemplateContext, TemplateError, TemplateEvaluator, TemplateToInstantiate};
