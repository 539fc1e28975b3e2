//! The Simplifier: rewrites a grammar-level tree into the simplified AST.
//!
//! A stack machine resolves markup ambiguities: toggle-style bold and italic
//! tokens open or close a span depending on the frame on top of the stack,
//! recognized inline container tags push and pop frames with name checking,
//! and frames still open at the end of input are closed implicitly.  Every
//! produced node carries its source span.
//!
//! The whole rewrite is pinned down by [`spec_simplify`], a stack machine
//! over node models; the executable functions are proved to compute exactly
//! that.

use vstd::prelude::*;

use crate::ast::{
    node_view, nodes_view, spanned_view, CaptionView, CellView, DefinitionListItemView,
    ListItemView, NodeView, ParameterView, RowView, Span, Spanned, SpannedView, TemplateParameter,
    WikitextSimplifiedDefinitionListItem, WikitextSimplifiedListItem, WikitextSimplifiedNode,
    WikitextSimplifiedTableCaption, WikitextSimplifiedTableCell, WikitextSimplifiedTableRow,
};
use crate::grammar::{
    spec_metadata, wf_node, wf_nodes, GrammarDefinitionListItem, GrammarListItem, GrammarNode,
    GrammarTableCaption, GrammarTableCell, GrammarTableCellType, GrammarTableRow,
    GrammarTemplateParameter, NodeMetadata, NodeMetadataType,
};
use crate::inner_text::{nodes_inner_text, spec_nodes_inner_text};
use crate::text::{
    char_is_whitespace, push_char, spec_decimal, spec_is_whitespace, spec_trim, string_eq_str,
    trim_str, usize_to_decimal,
};

verus! {

/// Context of a simplification error: the offending source substring and its
/// span.
#[derive(Debug)]
pub struct SimplificationErrorContext {
    /// The problematic content from the source text.
    pub content: String,
    /// The start position of the problematic content.
    pub start: usize,
    /// The end position of the problematic content.
    pub end: usize,
}

/// The specific kinds of node-structure errors.
#[derive(Debug)]
pub enum NodeStructureError {
    /// A pop from, or an append to, an empty stack.
    StackUnderflow,
    /// A push onto a full stack; kept for a stack with a size limit.
    StackOverflow,
    /// An append to a frame whose node kind has no child list.
    NoChildren {
        /// The kind of the childless node.
        parent_node_type: String,
    },
    /// A combined bold-italic toggle closed an italic span with no bold span
    /// beneath it.
    MissingBoldLayer,
    /// A formatting span left unclosed; kept for stricter closing rules.
    UnclosedFormatting,
    /// A closing tag that does not match the tag it closes.
    TagClosureMismatch {
        /// The tag name the closing tag carries.
        expected: String,
        /// The name of what was actually open.
        actual: String,
    },
}

/// Errors of the Simplifier.
#[derive(Debug)]
pub enum SimplificationError {
    /// A grammar node kind with no simplified counterpart.
    UnknownNode {
        /// The kind of the unknown node.
        node_type: NodeMetadataType,
        /// Where the error occurred.
        context: SimplificationErrorContext,
    },
    /// The input's structure is inconsistent.
    InvalidNodeStructure {
        /// The specific structural error.
        kind: NodeStructureError,
        /// Where the error occurred.
        context: SimplificationErrorContext,
    },
}

/// The model of a [`SimplificationErrorContext`].
pub struct ContextView {
    /// The characters of the offending substring.
    pub content: Seq<char>,
    /// The start position of the offending substring.
    pub start: usize,
    /// The end position of the offending substring.
    pub end: usize,
}

/// The model of a [`NodeStructureError`].
#[verifier::ext_equal]
pub enum StructureErrorView {
    /// Model of `StackUnderflow`.
    StackUnderflow,
    /// Model of `StackOverflow`.
    StackOverflow,
    /// Model of `NoChildren`.
    NoChildren { parent_node_type: Seq<char> },
    /// Model of `MissingBoldLayer`.
    MissingBoldLayer,
    /// Model of `UnclosedFormatting`.
    UnclosedFormatting,
    /// Model of `TagClosureMismatch`.
    TagClosureMismatch { expected: Seq<char>, actual: Seq<char> },
}

/// The model of a [`SimplificationError`].
#[verifier::ext_equal]
pub enum ErrorView {
    /// Model of `UnknownNode`.
    UnknownNode { node_type: NodeMetadataType, context: ContextView },
    /// Model of `InvalidNodeStructure`.
    InvalidNodeStructure { kind: StructureErrorView, context: ContextView },
}

/// The model of an error context.
pub open spec fn context_view(c: SimplificationErrorContext) -> ContextView {
    ContextView { content: c.content@, start: c.start, end: c.end }
}

/// The model of a structural error.
pub open spec fn structure_error_view(k: NodeStructureError) -> StructureErrorView {
    match k {
        NodeStructureError::StackUnderflow => StructureErrorView::StackUnderflow,
        NodeStructureError::StackOverflow => StructureErrorView::StackOverflow,
        NodeStructureError::NoChildren { parent_node_type } => StructureErrorView::NoChildren {
            parent_node_type: parent_node_type@,
        },
        NodeStructureError::MissingBoldLayer => StructureErrorView::MissingBoldLayer,
        NodeStructureError::UnclosedFormatting => StructureErrorView::UnclosedFormatting,
        NodeStructureError::TagClosureMismatch { expected, actual } => StructureErrorView::TagClosureMismatch {
            expected: expected@,
            actual: actual@,
        },
    }
}

/// The model of a simplification error.
pub open spec fn error_view(e: SimplificationError) -> ErrorView {
    match e {
        SimplificationError::UnknownNode { node_type, context } => ErrorView::UnknownNode {
            node_type,
            context: context_view(context),
        },
        SimplificationError::InvalidNodeStructure { kind, context } => ErrorView::InvalidNodeStructure {
            kind: structure_error_view(kind),
            context: context_view(context),
        },
    }
}

/// The error context a node contributes: its source slice and span.
pub open spec fn node_context(src: Seq<char>, g: GrammarNode) -> ContextView {
    let m = spec_metadata(&g);
    ContextView {
        content: src.subrange(m.start as int, m.end as int),
        start: m.start,
        end: m.end,
    }
}

/// The kind of an in-progress stack frame.  Only a `Tag` frame carries a
/// name and attribute text.
#[verifier::ext_equal]
pub enum FrameKindView {
    /// The root frame.
    Fragment,
    /// An open bold span.
    Bold,
    /// An open italic span.
    Italic,
    /// An open blockquote.
    Blockquote,
    /// An open superscript span.
    Superscript,
    /// An open subscript span.
    Subscript,
    /// An open small-text span.
    Small,
    /// An open preformatted block.
    Preformatted,
    /// An open generic tag.
    Tag { name: Seq<char>, attributes: Option<Seq<char>> },
}

/// The model of an in-progress stack frame: its kind, the children gathered
/// so far, and the offset where it opened.
#[verifier::ext_equal]
pub struct FrameView {
    /// The kind of the frame.
    pub kind: FrameKindView,
    /// The children gathered so far.
    pub children: Seq<SpannedView>,
    /// The offset at which the frame opened.
    pub start: usize,
}

/// The node a finished frame becomes.
pub open spec fn frame_node(f: FrameView) -> NodeView {
    match f.kind {
        FrameKindView::Fragment => NodeView::Fragment { children: f.children },
        FrameKindView::Bold => NodeView::Bold { children: f.children },
        FrameKindView::Italic => NodeView::Italic { children: f.children },
        FrameKindView::Blockquote => NodeView::Blockquote { children: f.children },
        FrameKindView::Superscript => NodeView::Superscript { children: f.children },
        FrameKindView::Subscript => NodeView::Subscript { children: f.children },
        FrameKindView::Small => NodeView::Small { children: f.children },
        FrameKindView::Preformatted => NodeView::Preformatted { children: f.children },
        FrameKindView::Tag { name, attributes } => NodeView::Tag {
            name,
            attributes,
            children: f.children,
        },
    }
}

/// The kebab-case kind name of a frame, as tag-closure errors report it.
pub open spec fn frame_type_name(f: FrameView) -> Seq<char> {
    match f.kind {
        FrameKindView::Fragment => "fragment"@,
        FrameKindView::Bold => "bold"@,
        FrameKindView::Italic => "italic"@,
        FrameKindView::Blockquote => "blockquote"@,
        FrameKindView::Superscript => "superscript"@,
        FrameKindView::Subscript => "subscript"@,
        FrameKindView::Small => "small"@,
        FrameKindView::Preformatted => "preformatted"@,
        FrameKindView::Tag { .. } => "tag"@,
    }
}

/// The finished node a popped frame contributes, spanning from where it
/// opened to the given end offset.
pub open spec fn popped_frame(f: FrameView, end: usize) -> SpannedView {
    SpannedView { value: frame_node(f), span: Span { start: f.start, end } }
}

/// The stack with a node appended to the top frame's children.
pub open spec fn append_child(st: Seq<FrameView>, n: SpannedView) -> Seq<FrameView> {
    st.update(
        st.len() - 1,
        FrameView {
            kind: st.last().kind,
            children: st.last().children.push(n),
            start: st.last().start,
        },
    )
}

/// Whether a recognized inline container end tag of the given name closes
/// the given frame kind: `blockquote`, `sup`, `sub`, `small` and `pre` each
/// close exactly the frame their start tag opened.
pub open spec fn recognized_tag_matches(name: Seq<char>, kind: FrameKindView) -> bool {
    ||| (name == "blockquote"@ && kind is Blockquote)
    ||| (name == "sup"@ && kind is Superscript)
    ||| (name == "sub"@ && kind is Subscript)
    ||| (name == "small"@ && kind is Small)
    ||| (name == "pre"@ && kind is Preformatted)
}

/// Whether a tag name is one of the self-closing pseudo-tags that never
/// takes part in stack matching.
pub open spec fn is_fake_tag(name: Seq<char>) -> bool {
    name == "br/"@ || name == "hr/"@ || name == "br"@ || name == "hr"@
}

/// The first position of a whitespace character in `s`, if any.
pub open spec fn spec_find_ws(s: Seq<char>) -> Option<int>
    decreases s,
{
    if s.len() == 0 {
        None
    } else if spec_is_whitespace(s[0]) {
        Some(0int)
    } else {
        match spec_find_ws(s.drop_first()) {
            Some(j) => Some(j + 1),
            None => None,
        }
    }
}

/// The first position of `c` in `s`, if any.
pub open spec fn spec_find(s: Seq<char>, c: char) -> Option<int>
    decreases s,
{
    if s.len() == 0 {
        None
    } else if s[0] == c {
        Some(0int)
    } else {
        match spec_find(s.drop_first(), c) {
            Some(j) => Some(j + 1),
            None => None,
        }
    }
}

/// The attribute text of an opening tag: everything after the first
/// whitespace, trimmed, with a trailing `>` stripped and an unbalanced
/// leading quote closed.
pub open spec fn spec_extract_tag_attributes(s: Seq<char>) -> Option<Seq<char>> {
    match spec_find_ws(s) {
        None => None,
        Some(i) => {
            let a = spec_trim(s.skip(i));
            let b = if a.len() > 0 && a.last() == '>' {
                spec_trim(a.drop_last())
            } else {
                a
            };
            if b.len() > 0 && b[0] == '"' && b.last() != '"' {
                Some(b + "\""@)
            } else {
                Some(b)
            }
        },
    }
}

/// The attribute text a tag node contributes: extracted from the source
/// between the tag's start and its first `>` (or its end).
pub open spec fn spec_tag_attributes(src: Seq<char>, start: usize, end: usize) -> Option<
    Seq<char>,
> {
    let content = src.subrange(start as int, end as int);
    let close = match spec_find(content, '>') {
        Some(i) => i,
        None => content.len() as int,
    };
    spec_extract_tag_attributes(content.take(close))
}

/// The parameter models of a template invocation: a named parameter keeps
/// the inner text of its name nodes, an unnamed one is numbered from
/// `ordinal` on; each value is the raw source run from its first to its last
/// value node.
pub open spec fn spec_convert_parameters(
    src: Seq<char>,
    ps: Seq<GrammarTemplateParameter>,
    ordinal: int,
) -> Seq<ParameterView>
    decreases ps, 0int,
{
    if ps.len() == 0 {
        Seq::empty()
    } else {
        let p = ps[0];
        let name = match p.name {
            Some(n) => spec_nodes_inner_text(n@, false),
            None => spec_decimal(ordinal),
        };
        let vstart = if p.value@.len() > 0 {
            spec_metadata(&p.value@[0]).start as int
        } else {
            0int
        };
        let vend = if p.value@.len() > 0 {
            spec_metadata(&p.value@.last()).end as int
        } else {
            0int
        };
        let value = src.subrange(vstart, vend);
        seq![ParameterView { name, value }] + spec_convert_parameters(
            src,
            ps.drop_first(),
            if p.name is Some {
                ordinal
            } else {
                ordinal + 1
            },
        )
    }
}

/// The machine state of the stack walk: the frame stack and the pending
/// text-start adjustment left behind by a link.
#[verifier::ext_equal]
pub struct MachineView {
    /// The frame stack, bottom first.
    pub stack: Seq<FrameView>,
    /// The offset the next text node is clipped to, if the node just
    /// appended was a link.
    pub text_start: Option<usize>,
}

/// The machine state the walk starts from: one root fragment frame.
pub open spec fn initial_machine() -> MachineView {
    MachineView {
        stack: seq![FrameView { kind: FrameKindView::Fragment, children: Seq::empty(), start: 0 }],
        text_start: None,
    }
}

/// A stack-underflow error in the context of the node being processed.
pub open spec fn underflow_error(src: Seq<char>, g: GrammarNode) -> ErrorView {
    ErrorView::InvalidNodeStructure {
        kind: StructureErrorView::StackUnderflow,
        context: node_context(src, g),
    }
}

/// Pops the top frame at `end` and folds it into the frame beneath it.
pub open spec fn pop_and_fold(
    src: Seq<char>,
    m: MachineView,
    g: GrammarNode,
    end: usize,
) -> Result<MachineView, ErrorView> {
    let popped = popped_frame(m.stack.last(), end);
    let rest = m.stack.drop_last();
    if rest.len() == 0 {
        Err(underflow_error(src, g))
    } else {
        Ok(MachineView { stack: append_child(rest, popped), text_start: m.text_start })
    }
}

/// Pushes a fresh frame of the given kind opening at `start`.
pub open spec fn push_frame(m: MachineView, kind: FrameKindView, start: usize) -> MachineView {
    MachineView {
        stack: m.stack.push(FrameView { kind, children: Seq::empty(), start }),
        text_start: m.text_start,
    }
}

/// One step of the stack walk: how one grammar node transforms the machine
/// state.
pub open spec fn spec_step(src: Seq<char>, m: MachineView, g: GrammarNode) -> Result<
    MachineView,
    ErrorView,
>
    decreases g, 2int,
{
    if m.stack.len() == 0 {
        Err(underflow_error(src, g))
    } else {
        match g {
            GrammarNode::Bold { start, end } => {
                if m.stack.last().kind == FrameKindView::Bold {
                    pop_and_fold(src, m, g, end)
                } else {
                    Ok(push_frame(m, FrameKindView::Bold, start))
                }
            },
            GrammarNode::Italic { start, end } => {
                if m.stack.last().kind == FrameKindView::Italic {
                    pop_and_fold(src, m, g, end)
                } else {
                    Ok(push_frame(m, FrameKindView::Italic, start))
                }
            },
            GrammarNode::BoldItalic { start, end } => {
                if m.stack.last().kind == FrameKindView::Italic {
                    let italic = popped_frame(m.stack.last(), end);
                    let rest = m.stack.drop_last();
                    if rest.len() > 0 && rest.last().kind == FrameKindView::Bold {
                        let bold = popped_frame(
                            FrameView {
                                kind: FrameKindView::Bold,
                                children: rest.last().children.push(italic),
                                start: rest.last().start,
                            },
                            end,
                        );
                        let rest2 = rest.drop_last();
                        if rest2.len() == 0 {
                            Err(underflow_error(src, g))
                        } else {
                            Ok(
                                MachineView {
                                    stack: append_child(rest2, bold),
                                    text_start: m.text_start,
                                },
                            )
                        }
                    } else if rest.len() == 0 {
                        Err(underflow_error(src, g))
                    } else {
                        Err(
                            ErrorView::InvalidNodeStructure {
                                kind: StructureErrorView::MissingBoldLayer,
                                context: ContextView {
                                    content: src.subrange(start as int, end as int),
                                    start,
                                    end,
                                },
                            },
                        )
                    }
                } else {
                    Ok(
                        push_frame(
                            push_frame(m, FrameKindView::Bold, start),
                            FrameKindView::Italic,
                            start,
                        ),
                    )
                }
            },
            GrammarNode::StartTag { name, start, end } => {
                if name@ == "blockquote"@ {
                    Ok(push_frame(m, FrameKindView::Blockquote, start))
                } else if name@ == "sup"@ {
                    Ok(push_frame(m, FrameKindView::Superscript, start))
                } else if name@ == "sub"@ {
                    Ok(push_frame(m, FrameKindView::Subscript, start))
                } else if name@ == "small"@ {
                    Ok(push_frame(m, FrameKindView::Small, start))
                } else if name@ == "pre"@ {
                    Ok(push_frame(m, FrameKindView::Preformatted, start))
                } else if !is_fake_tag(name@) {
                    Ok(
                        push_frame(
                            m,
                            FrameKindView::Tag {
                                name: name@,
                                attributes: spec_tag_attributes(src, start, end),
                            },
                            start,
                        ),
                    )
                } else {
                    spec_step_convert(src, m, g)
                }
            },
            GrammarNode::EndTag { name, start, end } => {
                if name@ == "blockquote"@ || name@ == "sup"@ || name@ == "sub"@ || name@
                    == "small"@ || name@ == "pre"@ {
                    if recognized_tag_matches(name@, m.stack.last().kind) {
                        pop_and_fold(src, m, g, end)
                    } else {
                        Err(
                            ErrorView::InvalidNodeStructure {
                                kind: StructureErrorView::TagClosureMismatch {
                                    expected: name@,
                                    actual: frame_type_name(m.stack.last()),
                                },
                                context: ContextView {
                                    content: src.subrange(start as int, end as int),
                                    start,
                                    end,
                                },
                            },
                        )
                    }
                } else if !is_fake_tag(name@) {
                    let f = m.stack.last();
                    match f.kind {
                        FrameKindView::Tag { name: tag_name, .. } => {
                            if tag_name == name@ {
                                pop_and_fold(src, m, g, end)
                            } else {
                                Err(
                                    ErrorView::InvalidNodeStructure {
                                        kind: StructureErrorView::TagClosureMismatch {
                                            expected: name@,
                                            actual: tag_name,
                                        },
                                        context: ContextView {
                                            content: src.subrange(start as int, end as int),
                                            start,
                                            end,
                                        },
                                    },
                                )
                            }
                        },
                        _ => Err(
                            ErrorView::InvalidNodeStructure {
                                kind: StructureErrorView::TagClosureMismatch {
                                    expected: name@,
                                    actual: frame_type_name(f),
                                },
                                context: ContextView {
                                    content: src.subrange(start as int, end as int),
                                    start,
                                    end,
                                },
                            },
                        ),
                    }
                } else {
                    spec_step_convert(src, m, g)
                }
            },
            _ => spec_step_convert(src, m, g),
        }
    }
}

/// The conversion path of one step: the node converts on its own, and the
/// result, if any, joins the top frame's children; a link leaves its end
/// offset behind as the next text node's clip point.
pub open spec fn spec_step_convert(src: Seq<char>, m: MachineView, g: GrammarNode) -> Result<
    MachineView,
    ErrorView,
>
    decreases g, 1int,
{
    match spec_convert(src, g, m.text_start) {
        Err(e) => Err(e),
        Ok(None) => Ok(m),
        Ok(Some(n)) => {
            let ts = if n.value is Link {
                Some(n.span.end)
            } else {
                None
            };
            if m.stack.len() == 0 {
                Err(underflow_error(src, g))
            } else {
                Ok(MachineView { stack: append_child(m.stack, n), text_start: ts })
            }
        },
    }
}

/// The stack walk over a node list, one step per node.
pub open spec fn spec_run(src: Seq<char>, m: MachineView, gs: Seq<GrammarNode>) -> Result<
    MachineView,
    ErrorView,
>
    decreases gs, 2int,
{
    if gs.len() == 0 {
        Ok(m)
    } else {
        match spec_step(src, m, gs[0]) {
            Ok(m2) => spec_run(src, m2, gs.drop_first()),
            Err(e) => Err(e),
        }
    }
}

/// The implicit close of all still-open frames at end of input, in LIFO
/// order, ending at `end`; the root fragment's children are the result.
pub open spec fn spec_unwind(st: Seq<FrameView>, end: usize) -> Seq<SpannedView>
    decreases st.len(),
{
    if st.len() == 0 {
        Seq::empty()
    } else if st.len() == 1 {
        st[0].children
    } else {
        spec_unwind(append_child(st.drop_last(), popped_frame(st.last(), end)), end)
    }
}

/// Whether a node list is exactly one unmatched start or end tag, which the
/// simplifier returns verbatim as text.
pub open spec fn is_single_unmatched_tag(gs: Seq<GrammarNode>) -> bool {
    gs.len() == 1 && (gs[0] is StartTag || gs[0] is EndTag)
}

/// The simplified AST of a grammar node list: the degenerate single-tag
/// input becomes one verbatim text node; otherwise the stack walk runs and
/// still-open frames close implicitly at end of text.
pub open spec fn spec_simplify(src: Seq<char>, gs: Seq<GrammarNode>) -> Result<
    Seq<SpannedView>,
    ErrorView,
>
    decreases gs, 3int,
{
    if is_single_unmatched_tag(gs) {
        let m = spec_metadata(&gs[0]);
        Ok(
            seq![
                SpannedView {
                    value: NodeView::Text {
                        text: src.subrange(m.start as int, m.end as int),
                    },
                    span: Span { start: m.start, end: m.end },
                },
            ],
        )
    } else {
        match spec_run(src, initial_machine(), gs) {
            Ok(m) => Ok(spec_unwind(m.stack, src.len() as usize)),
            Err(e) => Err(e),
        }
    }
}

/// The simplified items of an ordered or unordered list.
pub open spec fn spec_convert_list_items(src: Seq<char>, items: Seq<GrammarListItem>) -> Result<
    Seq<ListItemView>,
    ErrorView,
>
    decreases items, 0int,
{
    if items.len() == 0 {
        Ok(Seq::empty())
    } else {
        match spec_simplify(src, items[0].nodes@) {
            Err(e) => Err(e),
            Ok(content) => match spec_convert_list_items(src, items.drop_first()) {
                Err(e) => Err(e),
                Ok(rest) => Ok(seq![ListItemView { content }] + rest),
            },
        }
    }
}

/// The simplified items of a definition list.
pub open spec fn spec_convert_definition_list_items(
    src: Seq<char>,
    items: Seq<GrammarDefinitionListItem>,
) -> Result<Seq<DefinitionListItemView>, ErrorView>
    decreases items, 0int,
{
    if items.len() == 0 {
        Ok(Seq::empty())
    } else {
        match spec_simplify(src, items[0].nodes@) {
            Err(e) => Err(e),
            Ok(content) => match spec_convert_definition_list_items(src, items.drop_first()) {
                Err(e) => Err(e),
                Ok(rest) => Ok(
                    seq![DefinitionListItemView { type_: items[0].type_, content }] + rest,
                ),
            },
        }
    }
}

/// The simplified captions of a table: attributes and content each simplify
/// independently.
pub open spec fn spec_convert_captions(src: Seq<char>, cs: Seq<GrammarTableCaption>) -> Result<
    Seq<CaptionView>,
    ErrorView,
>
    decreases cs, 0int,
{
    if cs.len() == 0 {
        Ok(Seq::empty())
    } else {
        match spec_simplify(src, cs[0].content@) {
            Err(e) => Err(e),
            Ok(content) => {
                let attrs = match cs[0].attributes {
                    Some(a) => match spec_simplify(src, a@) {
                        Err(e) => Err(e),
                        Ok(x) => Ok(Some(x)),
                    },
                    None => Ok(None),
                };
                match attrs {
                    Err(e) => Err(e),
                    Ok(attributes) => match spec_convert_captions(src, cs.drop_first()) {
                        Err(e) => Err(e),
                        Ok(rest) => Ok(seq![CaptionView { attributes, content }] + rest),
                    },
                }
            },
        }
    }
}

/// The simplified cells of a table row.
pub open spec fn spec_convert_cells(src: Seq<char>, cs: Seq<GrammarTableCell>) -> Result<
    Seq<CellView>,
    ErrorView,
>
    decreases cs, 0int,
{
    if cs.len() == 0 {
        Ok(Seq::empty())
    } else {
        match spec_simplify(src, cs[0].content@) {
            Err(e) => Err(e),
            Ok(content) => {
                let attrs = match cs[0].attributes {
                    Some(a) => match spec_simplify(src, a@) {
                        Err(e) => Err(e),
                        Ok(x) => Ok(Some(x)),
                    },
                    None => Ok(None),
                };
                match attrs {
                    Err(e) => Err(e),
                    Ok(attributes) => match spec_convert_cells(src, cs.drop_first()) {
                        Err(e) => Err(e),
                        Ok(rest) => Ok(
                            seq![
                                CellView {
                                    is_header: cs[0].type_ == GrammarTableCellType::Heading,
                                    attributes,
                                    content,
                                },
                            ] + rest,
                        ),
                    },
                }
            },
        }
    }
}

/// The simplified rows of a table: each row's cells, then its attributes.
pub open spec fn spec_convert_rows(src: Seq<char>, rs: Seq<GrammarTableRow>) -> Result<
    Seq<RowView>,
    ErrorView,
>
    decreases rs, 0int,
{
    if rs.len() == 0 {
        Ok(Seq::empty())
    } else {
        match spec_convert_cells(src, rs[0].cells@) {
            Err(e) => Err(e),
            Ok(cells) => match spec_simplify(src, rs[0].attributes@) {
                Err(e) => Err(e),
                Ok(attributes) => match spec_convert_rows(src, rs.drop_first()) {
                    Err(e) => Err(e),
                    Ok(rest) => Ok(seq![RowView { attributes, cells }] + rest),
                },
            },
        }
    }
}

/// The simplified counterpart of one grammar node: `Ok(None)` for the node
/// kinds that are silently dropped, the converted node for the rest, and an
/// error for a kind with no counterpart.  `text_start` is the clip point a
/// preceding link left for a text node.
pub open spec fn spec_convert(src: Seq<char>, g: GrammarNode, text_start: Option<usize>) -> Result<
    Option<SpannedView>,
    ErrorView,
>
    decreases g, 0int,
{
    match g {
        GrammarNode::Template { name, parameters, start, end } => Ok(
            Some(
                SpannedView {
                    value: NodeView::Template {
                        name: spec_nodes_inner_text(name@, false),
                        parameters: spec_convert_parameters(src, parameters@, 1),
                    },
                    span: Span { start, end },
                },
            ),
        ),
        GrammarNode::MagicWord { .. } => Ok(None),
        GrammarNode::Heading { level, nodes, start, end } => match spec_simplify(src, nodes@) {
            Err(e) => Err(e),
            Ok(children) => Ok(
                Some(
                    SpannedView {
                        value: NodeView::Heading { level, children },
                        span: Span { start, end },
                    },
                ),
            ),
        },
        GrammarNode::Bold { .. } => Ok(None),
        GrammarNode::BoldItalic { .. } => Ok(None),
        GrammarNode::Italic { .. } => Ok(None),
        GrammarNode::Link { target, text, start, end } => Ok(
            Some(
                SpannedView {
                    value: NodeView::Link {
                        text: crate::grammar::spec_nodes_wikitext(src, text@),
                        title: target@,
                    },
                    span: Span { start, end },
                },
            ),
        ),
        GrammarNode::ExternalLink { nodes, start, end } => {
            let inner = crate::grammar::spec_nodes_wikitext(src, nodes@);
            let value = match spec_find(inner, ' ') {
                Some(i) => NodeView::ExtLink {
                    link: inner.take(i),
                    text: Some(inner.skip(i + 1)),
                },
                None => NodeView::ExtLink { link: inner, text: None },
            };
            Ok(Some(SpannedView { value, span: Span { start, end } }))
        },
        GrammarNode::Text { value, start, end } => {
            let ts = match text_start {
                Some(t) => t,
                None => start,
            };
            let off = if ts <= start {
                0int
            } else if ts - start <= value@.len() {
                ts - start
            } else {
                value@.len() as int
            };
            let text = value@.skip(off);
            if text.len() == 0 {
                Ok(None)
            } else {
                Ok(
                    Some(
                        SpannedView {
                            value: NodeView::Text { text },
                            span: Span { start: ts, end },
                        },
                    ),
                )
            }
        },
        GrammarNode::CharacterEntity { character, start, end } => Ok(
            Some(
                SpannedView {
                    value: NodeView::Text { text: seq![character] },
                    span: Span { start, end },
                },
            ),
        ),
        GrammarNode::ParagraphBreak { start, end } => Ok(
            Some(SpannedView { value: NodeView::ParagraphBreak, span: Span { start, end } }),
        ),
        GrammarNode::Category { .. } => Ok(None),
        GrammarNode::Comment { .. } => Ok(None),
        GrammarNode::Image { .. } => Ok(None),
        GrammarNode::Table { attributes, captions, rows, start, end } => match spec_convert_captions(
            src,
            captions@,
        ) {
            Err(e) => Err(e),
            Ok(cvs) => match spec_convert_rows(src, rows@) {
                Err(e) => Err(e),
                Ok(rvs) => match spec_simplify(src, attributes@) {
                    Err(e) => Err(e),
                    Ok(avs) => Ok(
                        Some(
                            SpannedView {
                                value: NodeView::Table {
                                    attributes: avs,
                                    captions: cvs,
                                    rows: rvs,
                                },
                                span: Span { start, end },
                            },
                        ),
                    ),
                },
            },
        },
        GrammarNode::OrderedList { items, start, end } => match spec_convert_list_items(
            src,
            items@,
        ) {
            Err(e) => Err(e),
            Ok(ivs) => Ok(
                Some(
                    SpannedView {
                        value: NodeView::OrderedList { items: ivs },
                        span: Span { start, end },
                    },
                ),
            ),
        },
        GrammarNode::UnorderedList { items, start, end } => match spec_convert_list_items(
            src,
            items@,
        ) {
            Err(e) => Err(e),
            Ok(ivs) => Ok(
                Some(
                    SpannedView {
                        value: NodeView::UnorderedList { items: ivs },
                        span: Span { start, end },
                    },
                ),
            ),
        },
        GrammarNode::DefinitionList { items, start, end } => match spec_convert_definition_list_items(
            src,
            items@,
        ) {
            Err(e) => Err(e),
            Ok(ivs) => Ok(
                Some(
                    SpannedView {
                        value: NodeView::DefinitionList { items: ivs },
                        span: Span { start, end },
                    },
                ),
            ),
        },
        GrammarNode::Tag { name, nodes, start, end } => {
            if name@ == "ref"@ || name@ == "references"@ || name@ == "gallery"@ || name@
                == "nowiki"@ {
                Ok(None)
            } else {
                match spec_simplify(src, nodes@) {
                    Err(e) => Err(e),
                    Ok(children) => Ok(
                        Some(
                            SpannedView {
                                value: NodeView::Tag {
                                    name: name@,
                                    attributes: spec_tag_attributes(src, start, end),
                                    children,
                                },
                                span: Span { start, end },
                            },
                        ),
                    ),
                }
            }
        },
        GrammarNode::Preformatted { nodes, start, end } => match spec_simplify(src, nodes@) {
            Err(e) => Err(e),
            Ok(children) => Ok(
                Some(
                    SpannedView {
                        value: NodeView::Preformatted { children },
                        span: Span { start, end },
                    },
                ),
            ),
        },
        GrammarNode::Parameter { name, default, start, end } => {
            let dv = match default {
                Some(d) => match spec_simplify(src, d@) {
                    Err(e) => Err(e),
                    Ok(x) => Ok(Some(x)),
                },
                None => Ok(None),
            };
            match dv {
                Err(e) => Err(e),
                Ok(default_nodes) => Ok(
                    Some(
                        SpannedView {
                            value: NodeView::TemplateParameterUse {
                                name: spec_nodes_inner_text(name@, false),
                                default: default_nodes,
                            },
                            span: Span { start, end },
                        },
                    ),
                ),
            }
        },
        GrammarNode::Redirect { target, start, end } => Ok(
            Some(
                SpannedView {
                    value: NodeView::Redirect { target: target@ },
                    span: Span { start, end },
                },
            ),
        ),
        GrammarNode::HorizontalDivider { start, end } => Ok(
            Some(SpannedView { value: NodeView::HorizontalDivider, span: Span { start, end } }),
        ),
        GrammarNode::StartTag { name, start, end } => {
            if name@ == "hr"@ || name@ == "hr/"@ {
                Ok(
                    Some(
                        SpannedView {
                            value: NodeView::HorizontalDivider,
                            span: Span { start, end },
                        },
                    ),
                )
            } else if name@ == "br"@ || name@ == "br/"@ {
                Ok(
                    Some(
                        SpannedView { value: NodeView::ParagraphBreak, span: Span { start, end } },
                    ),
                )
            } else {
                Err(
                    ErrorView::UnknownNode {
                        node_type: NodeMetadataType::StartTag,
                        context: node_context(src, g),
                    },
                )
            }
        },
        GrammarNode::EndTag { .. } => Err(
            ErrorView::UnknownNode {
                node_type: NodeMetadataType::EndTag,
                context: node_context(src, g),
            },
        ),
    }
}

/// The position where a scan for `c` stopped determines what the first
/// occurrence is.
proof fn lemma_spec_find_at(s: Seq<char>, c: char, i: int)
    requires
        0 <= i <= s.len(),
        forall|j: int| 0 <= j < i ==> s[j] != c,
        i < s.len() ==> s[i] == c,
    ensures
        spec_find(s, c) == if i < s.len() {
            Some(i)
        } else {
            None::<int>
        },
    decreases s,
{
    if s.len() == 0 {
    } else if s[0] == c {
        assert(i == 0);
    } else {
        assert(i != 0);
        lemma_spec_find_at(s.drop_first(), c, i - 1);
    }
}

/// The position where a whitespace scan stopped determines what the first
/// whitespace is.
proof fn lemma_spec_find_ws_at(s: Seq<char>, i: int)
    requires
        0 <= i <= s.len(),
        forall|j: int| 0 <= j < i ==> !spec_is_whitespace(#[trigger] s[j]),
        i < s.len() ==> spec_is_whitespace(s[i]),
    ensures
        spec_find_ws(s) == if i < s.len() {
            Some(i)
        } else {
            None::<int>
        },
    decreases s,
{
    if s.len() == 0 {
    } else if spec_is_whitespace(s[0]) {
        assert(i == 0);
    } else {
        assert(i != 0);
        lemma_spec_find_ws_at(s.drop_first(), i - 1);
    }
}

impl SimplificationErrorContext {
    /// The error context at a node: its source slice and span.
    pub fn from_node_metadata(wikitext: &str, metadata: &NodeMetadata) -> (r: Self)
        requires
            metadata.start <= metadata.end <= wikitext@.len(),
        ensures
            context_view(r) == (ContextView {
                content: wikitext@.subrange(metadata.start as int, metadata.end as int),
                start: metadata.start,
                end: metadata.end,
            }),
    {
        SimplificationErrorContext {
            content: wikitext.substring_char(metadata.start, metadata.end).to_owned(),
            start: metadata.start,
            end: metadata.end,
        }
    }
}

/// Extracts the attribute text of an opening tag: everything after the first
/// whitespace, trimmed, with a trailing `>` stripped and an unbalanced
/// leading quote closed.
#[verifier::loop_isolation(false)]
pub fn extract_tag_attributes(opening_tag: &str) -> (r: Option<String>)
    ensures
        match &r {
            Some(a) => spec_extract_tag_attributes(opening_tag@) == Some(a@),
            None => spec_extract_tag_attributes(opening_tag@) is None,
        },
{
    let len = opening_tag.unicode_len();
    let mut i: usize = 0;
    while i < len && !char_is_whitespace(opening_tag.get_char(i))
        invariant
            i <= len,
            forall|j: int| 0 <= j < i ==> !spec_is_whitespace(#[trigger] opening_tag@[j]),
        decreases len - i,
    {
        i += 1;
    }
    proof {
        lemma_spec_find_ws_at(opening_tag@, i as int);
    }
    if i == len {
        return None;
    }
    let tail = opening_tag.substring_char(i, len);
    let a = trim_str(tail);
    proof {
        assert(tail@ =~= opening_tag@.skip(i as int));
    }
    let alen = a.as_str().unicode_len();
    let b: String = if alen > 0 && a.as_str().get_char(alen - 1) == '>' {
        let body = a.as_str().substring_char(0, alen - 1);
        let t = trim_str(body);
        proof {
            assert(body@ =~= a@.drop_last());
        }
        t
    } else {
        a
    };
    let blen = b.as_str().unicode_len();
    if blen > 0 && b.as_str().get_char(0) == '"' && b.as_str().get_char(blen - 1) != '"' {
        let mut out = b;
        push_char(&mut out, '"');
        proof {
            reveal_strlit("\"");
            assert(out@ =~= b@ + "\""@);
        }
        Some(out)
    } else {
        Some(b)
    }
}

/// The attribute text of a tag node, read from the source between the tag's
/// start and its first `>`.
#[verifier::loop_isolation(false)]
fn tag_attributes_from_source(src: &str, start: usize, end: usize) -> (r: Option<String>)
    requires
        start <= end <= src@.len(),
    ensures
        match &r {
            Some(a) => spec_tag_attributes(src@, start, end) == Some(a@),
            None => spec_tag_attributes(src@, start, end) is None,
        },
{
    let content = src.substring_char(start, end);
    let clen = content.unicode_len();
    let mut i: usize = 0;
    while i < clen && content.get_char(i) != '>'
        invariant
            i <= clen,
            clen == content@.len(),
            forall|j: int| 0 <= j < i ==> content@[j] != '>',
        decreases clen - i,
    {
        i += 1;
    }
    proof {
        lemma_spec_find_at(content@, '>', i as int);
        if i == clen {
            assert(content@.take(i as int) =~= content@);
        }
    }
    let opening = content.substring_char(0, i);
    proof {
        assert(opening@ =~= content@.take(i as int));
    }
    extract_tag_attributes(opening)
}

/// Builds the parameter list of a template invocation: named parameters keep
/// the inner text of their name nodes, unnamed ones are numbered from 1.
#[verifier::loop_isolation(false)]
fn convert_parameters(wikitext: &str, ps: &Vec<GrammarTemplateParameter>) -> (r: Vec<
    TemplateParameter,
>)
    requires
        crate::grammar::wf_parameters(ps@, wikitext@.len() as int),
        ps@.len() < usize::MAX,
    ensures
        crate::ast::parameters_view(r@) == spec_convert_parameters(wikitext@, ps@, 1),
{
    let ghost src = wikitext@;
    proof {
        assert(ps@.skip(0) =~= ps@);
    }
    let mut out: Vec<TemplateParameter> = Vec::new();
    let mut i: usize = 0;
    let mut ordinal: usize = 1;
    while i < ps.len()
        invariant
            i <= ps@.len(),
            out@.len() == i,
            1 <= ordinal <= i + 1,
            spec_convert_parameters(src, ps@, 1) == crate::ast::parameters_view(out@)
                + spec_convert_parameters(src, ps@.skip(i as int), ordinal as int),
        decreases ps@.len() - i,
    {
        proof {
            assert(ps@.skip(i as int)[0] == ps@[i as int]);
            assert(ps@.skip(i as int).drop_first() =~= ps@.skip(i + 1));
            assert(crate::grammar::wf_parameter(ps@[i as int], src.len() as int));
        }
        let ghost old_ord = ordinal as int;
        let p = &ps[i];
        let name: String = match &p.name {
            Some(n) => nodes_inner_text(n.as_slice()),
            None => {
                let s = usize_to_decimal(ordinal);
                ordinal += 1;
                s
            },
        };
        let (vstart, vend): (usize, usize) = if p.value.len() > 0 {
            let m0 = NodeMetadata::for_node(&p.value[0]);
            let m1 = NodeMetadata::for_node(&p.value[p.value.len() - 1]);
            proof {
                assert(wf_node(p.value@[0], src.len() as int));
                assert(wf_node(p.value@.last(), src.len() as int));
            }
            (m0.start, m1.end)
        } else {
            (0, 0)
        };
        let value = wikitext.substring_char(vstart, vend).to_owned();
        let tp = TemplateParameter { name, value };
        proof {
            let pv = crate::ast::parameter_view(tp);
            assert(crate::ast::parameters_view(out@.push(tp)) =~= crate::ast::parameters_view(
                out@,
            ) + seq![pv]);
            assert(spec_convert_parameters(src, ps@.skip(i as int), old_ord) == seq![pv]
                + spec_convert_parameters(src, ps@.skip(i + 1), ordinal as int));
            assert(crate::ast::parameters_view(out@) + (seq![pv] + spec_convert_parameters(
                src,
                ps@.skip(i + 1),
                ordinal as int,
            )) =~= (crate::ast::parameters_view(out@) + seq![pv]) + spec_convert_parameters(
                src,
                ps@.skip(i + 1),
                ordinal as int,
            ));
        }
        out.push(tp);
        i += 1;
    }
    proof {
        assert(ps@.skip(ps@.len() as int) =~= Seq::<GrammarTemplateParameter>::empty());
        assert(crate::ast::parameters_view(out@) + Seq::<ParameterView>::empty()
            =~= crate::ast::parameters_view(out@));
    }
    out
}

/// The kind of an in-progress stack frame.
enum FrameKind {
    /// The root frame.
    Fragment,
    /// An open bold span.
    Bold,
    /// An open italic span.
    Italic,
    /// An open blockquote.
    Blockquote,
    /// An open superscript span.
    Superscript,
    /// An open subscript span.
    Subscript,
    /// An open small-text span.
    Small,
    /// An open preformatted block.
    Preformatted,
    /// An open generic tag, with its name and attribute text.
    Tag { name: String, attributes: Option<String> },
}

/// An in-progress stack frame.
struct Frame {
    /// The kind of the frame.
    kind: FrameKind,
    /// The children gathered so far.
    children: Vec<Spanned<WikitextSimplifiedNode>>,
    /// The offset at which the frame opened.
    start: usize,
}

/// The model of a frame kind.
spec fn kind_view(k: FrameKind) -> FrameKindView {
    match k {
        FrameKind::Fragment => FrameKindView::Fragment,
        FrameKind::Bold => FrameKindView::Bold,
        FrameKind::Italic => FrameKindView::Italic,
        FrameKind::Blockquote => FrameKindView::Blockquote,
        FrameKind::Superscript => FrameKindView::Superscript,
        FrameKind::Subscript => FrameKindView::Subscript,
        FrameKind::Small => FrameKindView::Small,
        FrameKind::Preformatted => FrameKindView::Preformatted,
        FrameKind::Tag { name, attributes } => FrameKindView::Tag {
            name: name@,
            attributes: match attributes {
                Some(a) => Some(a@),
                None => None,
            },
        },
    }
}

/// The model of a frame.
spec fn frame_view(f: Frame) -> FrameView {
    FrameView { kind: kind_view(f.kind), children: nodes_view(f.children@), start: f.start }
}

/// The model of a frame stack.
spec fn frames_view(st: Seq<Frame>) -> Seq<FrameView> {
    Seq::new(st.len(), |i: int| if 0 <= i < st.len() { frame_view(st[i]) } else { arbitrary() })
}

/// Builds the finished node of a popped frame, spanning from where it opened
/// to `end`.
fn finish_frame(f: Frame, end: usize) -> (r: Spanned<WikitextSimplifiedNode>)
    ensures
        spanned_view(r) == popped_frame(frame_view(f), end),
{
    let start = f.start;
    let value = match f.kind {
        FrameKind::Fragment => WikitextSimplifiedNode::Fragment { children: f.children },
        FrameKind::Bold => WikitextSimplifiedNode::Bold { children: f.children },
        FrameKind::Italic => WikitextSimplifiedNode::Italic { children: f.children },
        FrameKind::Blockquote => WikitextSimplifiedNode::Blockquote { children: f.children },
        FrameKind::Superscript => WikitextSimplifiedNode::Superscript { children: f.children },
        FrameKind::Subscript => WikitextSimplifiedNode::Subscript { children: f.children },
        FrameKind::Small => WikitextSimplifiedNode::Small { children: f.children },
        FrameKind::Preformatted => WikitextSimplifiedNode::Preformatted { children: f.children },
        FrameKind::Tag { name, attributes } => WikitextSimplifiedNode::Tag {
            name,
            attributes,
            children: f.children,
        },
    };
    Spanned { value, span: Span { start, end } }
}

/// Appends a node to the children of the stack's top frame; fails exactly on
/// an empty stack.
fn push_child(stack: &mut Vec<Frame>, node: Spanned<WikitextSimplifiedNode>) -> (ok: bool)
    ensures
        ok == (old(stack)@.len() > 0),
        ok ==> frames_view(final(stack)@) == append_child(
            frames_view(old(stack)@),
            spanned_view(node),
        ),
        !ok ==> final(stack)@ == old(stack)@,
{
    if stack.len() == 0 {
        return false;
    }
    let mut top = stack.pop().unwrap();
    top.children.push(node);
    stack.push(top);
    proof {
        assert(frames_view(stack@) =~~= append_child(frames_view(old(stack)@), spanned_view(node)));
    }
    true
}

/// Builds a structural error at the given node.
fn structure_error_for(wikitext: &str, node: &GrammarNode, kind: NodeStructureError) -> (e:
    SimplificationError)
    requires
        spec_metadata(node).start <= spec_metadata(node).end <= wikitext@.len(),
    ensures
        error_view(e) == (ErrorView::InvalidNodeStructure {
            kind: structure_error_view(kind),
            context: node_context(wikitext@, *node),
        }),
{
    let m = NodeMetadata::for_node(node);
    SimplificationError::InvalidNodeStructure {
        kind,
        context: SimplificationErrorContext::from_node_metadata(wikitext, &m),
    }
}

/// The kebab-case kind name a frame reports in a tag-closure error.
fn frame_type_name_exec(kind: &FrameKind) -> (r: &'static str)
    ensures
        r@ == frame_type_name(
            (FrameView { kind: kind_view(*kind), children: Seq::empty(), start: 0 }),
        ),
{
    match kind {
        FrameKind::Fragment => "fragment",
        FrameKind::Bold => "bold",
        FrameKind::Italic => "italic",
        FrameKind::Blockquote => "blockquote",
        FrameKind::Superscript => "superscript",
        FrameKind::Subscript => "subscript",
        FrameKind::Small => "small",
        FrameKind::Preformatted => "preformatted",
        FrameKind::Tag { .. } => "tag",
    }
}


/// Extending the walked prefix by one node applies one step to its machine.
proof fn lemma_step_unfold(
    src: Seq<char>,
    m0: MachineView,
    nodes: Seq<GrammarNode>,
    i: int,
    mi: MachineView,
)
    requires
        0 <= i < nodes.len(),
        spec_run(src, m0, nodes.take(i)) == Ok::<MachineView, ErrorView>(mi),
    ensures
        spec_run(src, m0, nodes.take(i + 1)) == (match spec_step(src, mi, nodes[i]) {
            Ok(m2) => Ok::<MachineView, ErrorView>(m2),
            Err(e) => Err(e),
        }),
{
    lemma_run_append(src, m0, nodes.take(i), seq![nodes[i]]);
    assert(nodes.take(i) + seq![nodes[i]] =~= nodes.take(i + 1));
    assert(seq![nodes[i]].drop_first() =~= Seq::<GrammarNode>::empty());
    assert(seq![nodes[i]][0] == nodes[i]);
    assert(forall|m2: MachineView|
        spec_run(src, m2, Seq::<GrammarNode>::empty()) == Ok::<MachineView, ErrorView>(m2));
    assert(spec_run(src, mi, seq![nodes[i]]) == (match spec_step(src, mi, nodes[i]) {
        Ok(m2) => spec_run(src, m2, seq![nodes[i]].drop_first()),
        Err(e) => Err(e),
    }));
}

/// A successful step leaves at least one frame on the stack.
proof fn lemma_step_keeps_stack(src: Seq<char>, m: MachineView, g: GrammarNode)
    requires
        m.stack.len() >= 1,
    ensures
        (match spec_step(src, m, g) {
            Ok(m2) => m2.stack.len() >= 1,
            Err(_) => true,
        }),
{
}

/// One step of the stack walk: processes one grammar node against the
/// machine state, exactly as [`spec_step`] describes it.
#[verifier::loop_isolation(false)]
#[verifier::rlimit(100)]
fn machine_step(
    wikitext: &str,
    stack: &mut Vec<Frame>,
    over: &mut Option<usize>,
    node: &GrammarNode,
) -> (r: Result<(), SimplificationError>)
    requires
        wf_node(*node, wikitext@.len() as int),
        old(stack)@.len() >= 1,
    ensures
        (match &r {
            Ok(_) => spec_step(
                wikitext@,
                (MachineView {
                    stack: frames_view(old(stack)@),
                    text_start: *old(over),
                }),
                *node,
            ) == Ok::<MachineView, ErrorView>(
                (MachineView { stack: frames_view(final(stack)@), text_start: *final(over) }),
            ),
            Err(e) => spec_step(
                wikitext@,
                (MachineView {
                    stack: frames_view(old(stack)@),
                    text_start: *old(over),
                }),
                *node,
            ) == Err::<MachineView, ErrorView>(error_view(*e)),
        }),
    decreases *node, 2int,
{
    let ghost src = wikitext@;
    let ghost mi = MachineView { stack: frames_view(stack@), text_start: *over };
    let ghost g = *node;
    proof {
    assert(mi.stack.len() == stack@.len());
    assert(frames_view(stack@).last() == frame_view(stack@.last()));
    }
    let mut do_convert = false;
    match node {
        GrammarNode::Bold { start, end } => {
            let top_is = matches!(&stack[stack.len() - 1].kind, FrameKind::Bold);
            proof {
                assert(top_is == (mi.stack.last().kind == FrameKindView::Bold));
            }
            if top_is {
                let ghost pre = frames_view(stack@);
                let f = stack.pop().unwrap();
                proof {
                    assert(frames_view(stack@) =~= pre.drop_last());
                    assert(frame_view(f) == pre.last());
                }
                let fin = finish_frame(f, *end);
                if !push_child(stack, fin) {
                    let e = structure_error_for(
                        wikitext,
                        node,
                        NodeStructureError::StackUnderflow,
                    );
                    proof {
                        assert(spec_step(src, mi, g) == Err::<MachineView, ErrorView>(
                            error_view(e),
                        ));
                    }
                    return Err(e);
                }
                proof {
                    assert(spec_step(src, mi, g) == Ok::<MachineView, ErrorView>(
                        (MachineView { stack: frames_view(stack@), text_start: *over }),
                    ));
                }
            } else {
                open_frame(stack, FrameKind::Bold, *start);
                proof {
                    assert(spec_step(src, mi, g) == Ok::<MachineView, ErrorView>(
                        (MachineView { stack: frames_view(stack@), text_start: *over }),
                    ));
                }
            }
        },
        GrammarNode::Italic { start, end } => {
            let top_is = matches!(&stack[stack.len() - 1].kind, FrameKind::Italic);
            proof {
                assert(top_is == (mi.stack.last().kind == FrameKindView::Italic));
            }
            if top_is {
                let ghost pre = frames_view(stack@);
                let f = stack.pop().unwrap();
                proof {
                    assert(frames_view(stack@) =~= pre.drop_last());
                    assert(frame_view(f) == pre.last());
                }
                let fin = finish_frame(f, *end);
                if !push_child(stack, fin) {
                    let e = structure_error_for(
                        wikitext,
                        node,
                        NodeStructureError::StackUnderflow,
                    );
                    proof {
                        assert(spec_step(src, mi, g) == Err::<MachineView, ErrorView>(
                            error_view(e),
                        ));
                    }
                    return Err(e);
                }
                proof {
                    assert(spec_step(src, mi, g) == Ok::<MachineView, ErrorView>(
                        (MachineView { stack: frames_view(stack@), text_start: *over }),
                    ));
                }
            } else {
                open_frame(stack, FrameKind::Italic, *start);
                proof {
                    assert(spec_step(src, mi, g) == Ok::<MachineView, ErrorView>(
                        (MachineView { stack: frames_view(stack@), text_start: *over }),
                    ));
                }
            }
        },
        GrammarNode::BoldItalic { start, end } => {
            let top_is = matches!(&stack[stack.len() - 1].kind, FrameKind::Italic);
            proof {
                assert(top_is == (mi.stack.last().kind == FrameKindView::Italic));
            }
            if top_is {
                let ghost pre = frames_view(stack@);
                let fi = stack.pop().unwrap();
                proof {
                    assert(frames_view(stack@) =~= pre.drop_last());
                    assert(frame_view(fi) == pre.last());
                }
                let italic = finish_frame(fi, *end);
                let below_is = stack.len() > 0 && matches!(
                    &stack[stack.len() - 1].kind,
                    FrameKind::Bold,
                );
                proof {
                    if stack@.len() > 0 {
                        assert(frames_view(stack@).last() == frame_view(stack@.last()));
                    }
                    assert(below_is == (pre.drop_last().len() > 0 && pre.drop_last().last().kind
                        == FrameKindView::Bold));
                }
                if below_is {
                    let ghost pre2 = frames_view(stack@);
                    let mut fb = stack.pop().unwrap();
                    proof {
                        assert(frames_view(stack@) =~= pre2.drop_last());
                        assert(frame_view(fb) == pre2.last());
                    }
                    fb.children.push(italic);
                    proof {
                        assert(nodes_view(fb.children@) =~= pre2.last().children.push(
                            popped_frame(pre.last(), *end),
                        ));
                    }
                    let bold = finish_frame(fb, *end);
                    if !push_child(stack, bold) {
                        let e = structure_error_for(
                            wikitext,
                            node,
                            NodeStructureError::StackUnderflow,
                        );
                        proof {
                            assert(spec_step(src, mi, g) == Err::<MachineView, ErrorView>(
                                error_view(e),
                            ));
                        }
                        return Err(e);
                    }
                    proof {
                        assert(spec_step(src, mi, g) == Ok::<MachineView, ErrorView>(
                            (MachineView { stack: frames_view(stack@), text_start: *over }),
                        ));
                    }
                } else if stack.len() == 0 {
                    let e = structure_error_for(
                        wikitext,
                        node,
                        NodeStructureError::StackUnderflow,
                    );
                    proof {
                        assert(spec_step(src, mi, g) == Err::<MachineView, ErrorView>(
                            error_view(e),
                        ));
                    }
                    return Err(e);
                } else {
                    let content = wikitext.substring_char(*start, *end).to_owned();
                    let e = SimplificationError::InvalidNodeStructure {
                        kind: NodeStructureError::MissingBoldLayer,
                        context: SimplificationErrorContext {
                            content,
                            start: *start,
                            end: *end,
                        },
                    };
                    proof {
                        assert(spec_step(src, mi, g) == Err::<MachineView, ErrorView>(
                            error_view(e),
                        ));
                    }
                    return Err(e);
                }
            } else {
                open_frame(stack, FrameKind::Bold, *start);
                open_frame(stack, FrameKind::Italic, *start);
                proof {
                    assert(frames_view(stack@) =~= push_frame(
                        push_frame(mi, FrameKindView::Bold, *start),
                        FrameKindView::Italic,
                        *start,
                    ).stack);
                    assert(spec_step(src, mi, g) == Ok::<MachineView, ErrorView>(
                        (MachineView { stack: frames_view(stack@), text_start: *over }),
                    ));
                }
            }
        },
        GrammarNode::StartTag { name, start, end } => {
            if string_eq_str(name, "blockquote") {
                open_frame(stack, FrameKind::Blockquote, *start);
            } else if string_eq_str(name, "sup") {
                open_frame(stack, FrameKind::Superscript, *start);
            } else if string_eq_str(name, "sub") {
                open_frame(stack, FrameKind::Subscript, *start);
            } else if string_eq_str(name, "small") {
                open_frame(stack, FrameKind::Small, *start);
            } else if string_eq_str(name, "pre") {
                open_frame(stack, FrameKind::Preformatted, *start);
            } else if !(string_eq_str(name, "br/") || string_eq_str(name, "hr/")
                || string_eq_str(name, "br") || string_eq_str(name, "hr")) {
                let attributes = tag_attributes_from_source(wikitext, *start, *end);
                open_frame(
                    stack,
                    FrameKind::Tag { name: name.clone(), attributes },
                    *start,
                );
            } else {
                do_convert = true;
            }
            proof {
                if !do_convert {
                    assert(spec_step(src, mi, g) == Ok::<MachineView, ErrorView>(
                        (MachineView { stack: frames_view(stack@), text_start: *over }),
                    ));
                } else {
                    assert(spec_step(src, mi, g) == spec_step_convert(src, mi, g));
                }
            }
        },
        GrammarNode::EndTag { name, start, end } => {
            let recognized = string_eq_str(name, "blockquote") || string_eq_str(name, "sup")
                || string_eq_str(name, "sub") || string_eq_str(name, "small")
                || string_eq_str(name, "pre");
            if recognized {
                let kind_matches = match &stack[stack.len() - 1].kind {
                    FrameKind::Blockquote => string_eq_str(name, "blockquote"),
                    FrameKind::Superscript => string_eq_str(name, "sup"),
                    FrameKind::Subscript => string_eq_str(name, "sub"),
                    FrameKind::Small => string_eq_str(name, "small"),
                    FrameKind::Preformatted => string_eq_str(name, "pre"),
                    _ => false,
                };
                proof {
                    assert(kind_matches == recognized_tag_matches(name@, mi.stack.last().kind));
                }
                if !kind_matches {
                    let actual = frame_type_name_exec(&stack[stack.len() - 1].kind).to_owned();
                    let content = wikitext.substring_char(*start, *end).to_owned();
                    let e = SimplificationError::InvalidNodeStructure {
                        kind: NodeStructureError::TagClosureMismatch {
                            expected: name.clone(),
                            actual,
                        },
                        context: SimplificationErrorContext {
                            content,
                            start: *start,
                            end: *end,
                        },
                    };
                    proof {
                        assert(spec_step(src, mi, g) == Err::<MachineView, ErrorView>(
                            error_view(e),
                        ));
                    }
                    return Err(e);
                }
                let ghost pre = frames_view(stack@);
                let f = stack.pop().unwrap();
                proof {
                    assert(frames_view(stack@) =~= pre.drop_last());
                    assert(frame_view(f) == pre.last());
                }
                let fin = finish_frame(f, *end);
                if !push_child(stack, fin) {
                    let e = structure_error_for(
                        wikitext,
                        node,
                        NodeStructureError::StackUnderflow,
                    );
                    proof {
                        assert(spec_step(src, mi, g) == Err::<MachineView, ErrorView>(
                            error_view(e),
                        ));
                    }
                    return Err(e);
                }
                proof {
                    assert(spec_step(src, mi, g) == Ok::<MachineView, ErrorView>(
                        (MachineView { stack: frames_view(stack@), text_start: *over }),
                    ));
                }
            } else if !(string_eq_str(name, "br/") || string_eq_str(name, "hr/")
                || string_eq_str(name, "br") || string_eq_str(name, "hr")) {
                let tag_matches: Result<(), String> = match &stack[stack.len() - 1].kind {
                    FrameKind::Tag { name: tn, .. } => {
                        if string_eq_str(tn, name.as_str()) {
                            Ok(())
                        } else {
                            Err(tn.clone())
                        }
                    },
                    other_kind => Err(frame_type_name_exec(other_kind).to_owned()),
                };
                match tag_matches {
                    Ok(_) => {
                        let ghost pre = frames_view(stack@);
                        let f = stack.pop().unwrap();
                        proof {
                            assert(frames_view(stack@) =~= pre.drop_last());
                            assert(frame_view(f) == pre.last());
                        }
                        let fin = finish_frame(f, *end);
                        if !push_child(stack, fin) {
                            let e = structure_error_for(
                                wikitext,
                                node,
                                NodeStructureError::StackUnderflow,
                            );
                            proof {
                                assert(spec_step(src, mi, g) == Err::<MachineView, ErrorView>(
                        error_view(e),
                    ));
                            }
                            return Err(e);
                        }
                        proof {
                            assert(spec_step(src, mi, g) == Ok::<MachineView, ErrorView>(
                                (MachineView { stack: frames_view(stack@), text_start: *over }),
                            ));
                        }
                    },
                    Err(actual) => {
                        let content = wikitext.substring_char(*start, *end).to_owned();
                        let e = SimplificationError::InvalidNodeStructure {
                            kind: NodeStructureError::TagClosureMismatch {
                                expected: name.clone(),
                                actual,
                            },
                            context: SimplificationErrorContext {
                                content,
                                start: *start,
                                end: *end,
                            },
                        };
                        proof {
                            assert(spec_step(src, mi, g) == Err::<MachineView, ErrorView>(
                                error_view(e),
                            ));
                        }
                        return Err(e);
                    },
                }
            } else {
                do_convert = true;
                proof {
                    assert(spec_step(src, mi, g) == spec_step_convert(src, mi, g));
                }
            }
        },
        _ => {
            do_convert = true;
            proof {
                assert(spec_step(src, mi, g) == spec_step_convert(src, mi, g));
            }
        },
    }
    if do_convert {
        match simplify_wikitext_node(wikitext, node, *over) {
            Err(e) => {
                proof {
                    assert(spec_step(src, mi, g) == Err::<MachineView, ErrorView>(
                        error_view(e),
                    ));
                }
                return Err(e);
            },
            Ok(None) => {
                proof {
                    assert(spec_step(src, mi, g) == Ok::<MachineView, ErrorView>(mi));
                }
            },
            Ok(Some(sp)) => {
                let is_link = matches!(&sp.value, WikitextSimplifiedNode::Link { .. });
                let new_over: Option<usize> = if is_link {
                    Some(sp.span.end)
                } else {
                    None
                };
                proof {
                    assert(is_link == (spanned_view(sp).value is Link));
                }
                if !push_child(stack, sp) {
                    let e = structure_error_for(
                        wikitext,
                        node,
                        NodeStructureError::StackUnderflow,
                    );
                    proof {
                        assert(spec_step(src, mi, g) == Err::<MachineView, ErrorView>(
                            error_view(e),
                        ));
                    }
                    return Err(e);
                }
                *over = new_over;
                proof {
                    assert(spec_step(src, mi, g) == Ok::<MachineView, ErrorView>(
                        (MachineView { stack: frames_view(stack@), text_start: *over }),
                    ));
                }
            },
        }
    }
    Ok(())
}

/// Converts a sequence of grammar nodes into simplified nodes: exactly one
/// unmatched start or end tag comes back verbatim as text; otherwise the
/// stack walk runs over the nodes and any frames still open at the end of
/// input close implicitly.
#[verifier::loop_isolation(false)]
#[verifier::rlimit(100)]
pub fn simplify_wikitext_nodes(wikitext: &str, nodes: &[GrammarNode]) -> (r: Result<
    Vec<Spanned<WikitextSimplifiedNode>>,
    SimplificationError,
>)
    requires
        wf_nodes(nodes@, wikitext@.len() as int),
    ensures
        (match &r {
            Ok(v) => spec_simplify(wikitext@, nodes@) == Ok::<Seq<SpannedView>, ErrorView>(
                nodes_view(v@),
            ),
            Err(e) => spec_simplify(wikitext@, nodes@) == Err::<Seq<SpannedView>, ErrorView>(
                error_view(*e),
            ),
        }),
    decreases nodes@, 3int,
{
    let ghost src = wikitext@;
    if nodes.len() == 1 {
        let single = match &nodes[0] {
            GrammarNode::StartTag { .. } => true,
            GrammarNode::EndTag { .. } => true,
            _ => false,
        };
        if single {
            proof {
                assert(wf_node(nodes@[0], src.len() as int));
            }
            let m = NodeMetadata::for_node(&nodes[0]);
            let text = wikitext.substring_char(m.start, m.end).to_owned();
            let mut out: Vec<Spanned<WikitextSimplifiedNode>> = Vec::new();
            out.push(
                Spanned {
                    value: WikitextSimplifiedNode::Text { text },
                    span: Span { start: m.start, end: m.end },
                },
            );
            proof {
                assert(nodes_view(out@) =~= spec_simplify(src, nodes@)->Ok_0);
            }
            return Ok(out);
        }
    }
    proof {
        assert(!is_single_unmatched_tag(nodes@));
    }
    let mut stack: Vec<Frame> = Vec::new();
    open_frame(&mut stack, FrameKind::Fragment, 0);
    let mut over: Option<usize> = None;
    proof {
        assert(frames_view(stack@) =~= initial_machine().stack);
        assert(nodes@.take(0) =~= Seq::<GrammarNode>::empty());
        assert(spec_run(src, initial_machine(), nodes@.take(0)) == Ok::<MachineView, ErrorView>(
            initial_machine(),
        ));
        assert(initial_machine() =~= (MachineView { stack: frames_view(stack@), text_start: over }));
    }
    let mut i: usize = 0;
    while i < nodes.len()
        invariant
            i <= nodes@.len(),
            stack@.len() >= 1,
            spec_run(src, initial_machine(), nodes@.take(i as int)) == Ok::<
                MachineView,
                ErrorView,
            >((MachineView { stack: frames_view(stack@), text_start: over })),
        decreases nodes@.len() - i,
    {
        let ghost mi = MachineView { stack: frames_view(stack@), text_start: over };
        proof {
            lemma_step_unfold(src, initial_machine(), nodes@, i as int, mi);
            assert(wf_node(nodes@[i as int], src.len() as int));
        }
        match machine_step(wikitext, &mut stack, &mut over, &nodes[i]) {
            Ok(_) => {},
            Err(e) => {
                proof {
                    lemma_error_propagates(src, nodes@, i as int, error_view(e));
                }
                return Err(e);
            },
        }
        proof {
            assert(stack@.len() >= 1) by {
                lemma_step_keeps_stack(src, mi, nodes@[i as int]);
            }
        }
        i += 1;
    }
    proof {
        assert(nodes@.take(nodes@.len() as int) =~= nodes@);
    }
    let end_pos = wikitext.unicode_len();
    proof {
        assert(src.len() as usize == end_pos);
    }
    let ghost final_stack = frames_view(stack@);
    while stack.len() > 1
        invariant
            stack@.len() >= 1,
            spec_unwind(frames_view(stack@), end_pos) == spec_unwind(final_stack, end_pos),
        decreases stack@.len(),
    {
        let ghost pre = frames_view(stack@);
        let f = stack.pop().unwrap();
        proof {
            assert(frames_view(stack@) =~= pre.drop_last());
            assert(frame_view(f) == pre.last());
        }
        let fin = finish_frame(f, end_pos);
        let ok = push_child(&mut stack, fin);
        proof {
            assert(ok);
            assert(spec_unwind(frames_view(stack@), end_pos) == spec_unwind(pre, end_pos));
        }
    }
    let ghost last_view = frames_view(stack@);
    let root = stack.pop().unwrap();
    proof {
        assert(last_view.len() == 1);
        assert(spec_unwind(last_view, end_pos) == last_view[0].children);
        assert(last_view[0] == frame_view(root));
        assert(nodes_view(root.children@) == spec_unwind(final_stack, end_pos));
    }
    Ok(root.children)
}

/// The error of a failing step fails the whole walk.
proof fn lemma_error_propagates(src: Seq<char>, nodes: Seq<GrammarNode>, i: int, ev: ErrorView)
    requires
        0 <= i < nodes.len(),
        spec_run(src, initial_machine(), nodes.take(i + 1)) == Err::<MachineView, ErrorView>(ev),
        !is_single_unmatched_tag(nodes),
    ensures
        spec_simplify(src, nodes) == Err::<Seq<SpannedView>, ErrorView>(ev),
{
    lemma_run_append(src, initial_machine(), nodes.take(i + 1), nodes.skip(i + 1));
    assert(nodes.take(i + 1) + nodes.skip(i + 1) =~= nodes);
}

/// Running a walk over two pieces runs the first piece, then the second from
/// where the first ended.
proof fn lemma_run_append(src: Seq<char>, m: MachineView, s1: Seq<GrammarNode>, s2: Seq<
    GrammarNode,
>)
    ensures
        spec_run(src, m, s1 + s2) == (match spec_run(src, m, s1) {
            Ok(m2) => spec_run(src, m2, s2),
            Err(e) => Err(e),
        }),
    decreases s1,
{
    if s1.len() == 0 {
        assert(s1 + s2 =~= s2);
    } else {
        assert((s1 + s2)[0] == s1[0]);
        assert((s1 + s2).drop_first() =~= s1.drop_first() + s2);
        match spec_step(src, m, s1[0]) {
            Ok(m2) => {
                lemma_run_append(src, m2, s1.drop_first(), s2);
            },
            Err(_) => {},
        }
    }
}

/// Converts a single grammar node into its simplified counterpart, if it has
/// one.  `text_start_override` is the clip point a preceding link left for
/// the next text node.
#[verifier::loop_isolation(false)]
#[verifier::rlimit(100)]
pub fn simplify_wikitext_node(
    wikitext: &str,
    node: &GrammarNode,
    text_start_override: Option<usize>,
) -> (r: Result<Option<Spanned<WikitextSimplifiedNode>>, SimplificationError>)
    requires
        wf_node(*node, wikitext@.len() as int),
    ensures
        (match &r {
            Ok(Some(sp)) => spec_convert(wikitext@, *node, text_start_override) == Ok::<
                Option<SpannedView>,
                ErrorView,
            >(Some(spanned_view(*sp))),
            Ok(None) => spec_convert(wikitext@, *node, text_start_override) == Ok::<
                Option<SpannedView>,
                ErrorView,
            >(None),
            Err(e) => spec_convert(wikitext@, *node, text_start_override) == Err::<
                Option<SpannedView>,
                ErrorView,
            >(error_view(*e)),
        }),
    decreases *node, 0int,
{
    let ghost src = wikitext@;
    match node {
        GrammarNode::Template { name, parameters, start, end } => {
            let tname = nodes_inner_text(name.as_slice());
            let ps = convert_parameters(wikitext, parameters);
            Ok(
                Some(
                    Spanned {
                        value: WikitextSimplifiedNode::Template { name: tname, parameters: ps },
                        span: Span { start: *start, end: *end },
                    },
                ),
            )
        },
        GrammarNode::MagicWord { .. } => Ok(None),
        GrammarNode::Heading { level, nodes, start, end } => {
            let children = match simplify_wikitext_nodes(wikitext, nodes.as_slice()) {
                Ok(c) => c,
                Err(e) => {
                    return Err(e);
                },
            };
            Ok(
                Some(
                    Spanned {
                        value: WikitextSimplifiedNode::Heading { level: *level, children },
                        span: Span { start: *start, end: *end },
                    },
                ),
            )
        },
        GrammarNode::Bold { .. } => Ok(None),
        GrammarNode::BoldItalic { .. } => Ok(None),
        GrammarNode::Italic { .. } => Ok(None),
        GrammarNode::Link { target, text, start, end } => {
            let ltext = crate::grammar::nodes_wikitext(wikitext, text.as_slice());
            Ok(
                Some(
                    Spanned {
                        value: WikitextSimplifiedNode::Link { text: ltext, title: target.clone() },
                        span: Span { start: *start, end: *end },
                    },
                ),
            )
        },
        GrammarNode::ExternalLink { nodes, start, end } => {
            let inner = crate::grammar::nodes_wikitext(wikitext, nodes.as_slice());
            let ilen = inner.as_str().unicode_len();
            let mut i: usize = 0;
            while i < ilen && inner.as_str().get_char(i) != ' '
                invariant
                    i <= ilen,
                    ilen == inner@.len(),
                    forall|j: int| 0 <= j < i ==> inner@[j] != ' ',
                decreases ilen - i,
            {
                i += 1;
            }
            proof {
                lemma_spec_find_at(inner@, ' ', i as int);
            }
            let value = if i < ilen {
                let link = inner.as_str().substring_char(0, i).to_owned();
                let text = inner.as_str().substring_char(i + 1, ilen).to_owned();
                proof {
                    assert(link@ =~= inner@.take(i as int));
                    assert(text@ =~= inner@.skip(i + 1));
                }
                WikitextSimplifiedNode::ExtLink { link, text: Some(text) }
            } else {
                WikitextSimplifiedNode::ExtLink { link: inner, text: None }
            };
            Ok(Some(Spanned { value, span: Span { start: *start, end: *end } }))
        },
        GrammarNode::Text { value, start, end } => {
            let ts: usize = match text_start_override {
                Some(t) => t,
                None => *start,
            };
            let vlen = value.as_str().unicode_len();
            let off: usize = if ts <= *start {
                0
            } else if ts - *start <= vlen {
                ts - *start
            } else {
                vlen
            };
            if off == vlen {
                proof {
                    assert(value@.skip(off as int).len() == 0);
                }
                Ok(None)
            } else {
                let text = value.as_str().substring_char(off, vlen).to_owned();
                proof {
                    assert(text@ =~= value@.skip(off as int));
                }
                Ok(
                    Some(
                        Spanned {
                            value: WikitextSimplifiedNode::Text { text },
                            span: Span { start: ts, end: *end },
                        },
                    ),
                )
            }
        },
        GrammarNode::CharacterEntity { character, start, end } => {
            let mut text = String::new();
            push_char(&mut text, *character);
            Ok(
                Some(
                    Spanned {
                        value: WikitextSimplifiedNode::Text { text },
                        span: Span { start: *start, end: *end },
                    },
                ),
            )
        },
        GrammarNode::ParagraphBreak { start, end } => Ok(
            Some(
                Spanned {
                    value: WikitextSimplifiedNode::ParagraphBreak,
                    span: Span { start: *start, end: *end },
                },
            ),
        ),
        GrammarNode::Category { .. } => Ok(None),
        GrammarNode::Comment { .. } => Ok(None),
        GrammarNode::Image { .. } => Ok(None),
        GrammarNode::Table { attributes, captions, rows, start, end } => {
            let cvs = match convert_captions(wikitext, captions) {
                Ok(c) => c,
                Err(e) => {
                    return Err(e);
                },
            };
            let rvs = match convert_rows(wikitext, rows) {
                Ok(c) => c,
                Err(e) => {
                    return Err(e);
                },
            };
            let avs = match simplify_wikitext_nodes(wikitext, attributes.as_slice()) {
                Ok(c) => c,
                Err(e) => {
                    return Err(e);
                },
            };
            Ok(
                Some(
                    Spanned {
                        value: WikitextSimplifiedNode::Table {
                            attributes: avs,
                            captions: cvs,
                            rows: rvs,
                        },
                        span: Span { start: *start, end: *end },
                    },
                ),
            )
        },
        GrammarNode::OrderedList { items, start, end } => {
            let ivs = match convert_list_items(wikitext, items) {
                Ok(c) => c,
                Err(e) => {
                    return Err(e);
                },
            };
            Ok(
                Some(
                    Spanned {
                        value: WikitextSimplifiedNode::OrderedList { items: ivs },
                        span: Span { start: *start, end: *end },
                    },
                ),
            )
        },
        GrammarNode::UnorderedList { items, start, end } => {
            let ivs = match convert_list_items(wikitext, items) {
                Ok(c) => c,
                Err(e) => {
                    return Err(e);
                },
            };
            Ok(
                Some(
                    Spanned {
                        value: WikitextSimplifiedNode::UnorderedList { items: ivs },
                        span: Span { start: *start, end: *end },
                    },
                ),
            )
        },
        GrammarNode::DefinitionList { items, start, end } => {
            let ivs = match convert_definition_list_items(wikitext, items) {
                Ok(c) => c,
                Err(e) => {
                    return Err(e);
                },
            };
            Ok(
                Some(
                    Spanned {
                        value: WikitextSimplifiedNode::DefinitionList { items: ivs },
                        span: Span { start: *start, end: *end },
                    },
                ),
            )
        },
        GrammarNode::Tag { name, nodes, start, end } => {
            if string_eq_str(name, "ref") || string_eq_str(name, "references") || string_eq_str(
                name,
                "gallery",
            ) || string_eq_str(name, "nowiki") {
                Ok(None)
            } else {
                let children = match simplify_wikitext_nodes(wikitext, nodes.as_slice()) {
                    Ok(c) => c,
                    Err(e) => {
                        return Err(e);
                    },
                };
                let attributes = tag_attributes_from_source(wikitext, *start, *end);
                Ok(
                    Some(
                        Spanned {
                            value: WikitextSimplifiedNode::Tag {
                                name: name.clone(),
                                attributes,
                                children,
                            },
                            span: Span { start: *start, end: *end },
                        },
                    ),
                )
            }
        },
        GrammarNode::Preformatted { nodes, start, end } => {
            let children = match simplify_wikitext_nodes(wikitext, nodes.as_slice()) {
                Ok(c) => c,
                Err(e) => {
                    return Err(e);
                },
            };
            Ok(
                Some(
                    Spanned {
                        value: WikitextSimplifiedNode::Preformatted { children },
                        span: Span { start: *start, end: *end },
                    },
                ),
            )
        },
        GrammarNode::Parameter { name, default, start, end } => {
            let dv = match default {
                Some(d) => match simplify_wikitext_nodes(wikitext, d.as_slice()) {
                    Ok(x) => Some(x),
                    Err(e) => {
                        return Err(e);
                    },
                },
                None => None,
            };
            let pname = nodes_inner_text(name.as_slice());
            Ok(
                Some(
                    Spanned {
                        value: WikitextSimplifiedNode::TemplateParameterUse {
                            name: pname,
                            default: dv,
                        },
                        span: Span { start: *start, end: *end },
                    },
                ),
            )
        },
        GrammarNode::Redirect { target, start, end } => Ok(
            Some(
                Spanned {
                    value: WikitextSimplifiedNode::Redirect { target: target.clone() },
                    span: Span { start: *start, end: *end },
                },
            ),
        ),
        GrammarNode::HorizontalDivider { start, end } => Ok(
            Some(
                Spanned {
                    value: WikitextSimplifiedNode::HorizontalDivider,
                    span: Span { start: *start, end: *end },
                },
            ),
        ),
        GrammarNode::StartTag { name, start, end } => {
            if string_eq_str(name, "hr") || string_eq_str(name, "hr/") {
                Ok(
                    Some(
                        Spanned {
                            value: WikitextSimplifiedNode::HorizontalDivider,
                            span: Span { start: *start, end: *end },
                        },
                    ),
                )
            } else if string_eq_str(name, "br") || string_eq_str(name, "br/") {
                Ok(
                    Some(
                        Spanned {
                            value: WikitextSimplifiedNode::ParagraphBreak,
                            span: Span { start: *start, end: *end },
                        },
                    ),
                )
            } else {
                let m = NodeMetadata::for_node(node);
                Err(
                    SimplificationError::UnknownNode {
                        node_type: m.ty,
                        context: SimplificationErrorContext::from_node_metadata(wikitext, &m),
                    },
                )
            }
        },
        GrammarNode::EndTag { .. } => {
            let m = NodeMetadata::for_node(node);
            Err(
                SimplificationError::UnknownNode {
                    node_type: m.ty,
                    context: SimplificationErrorContext::from_node_metadata(wikitext, &m),
                },
            )
        },
    }
}

/// Builds the simplified items of an ordered or unordered list.
#[verifier::loop_isolation(false)]
fn convert_list_items(wikitext: &str, items: &Vec<GrammarListItem>) -> (r: Result<
    Vec<WikitextSimplifiedListItem>,
    SimplificationError,
>)
    requires
        crate::grammar::wf_list_items(items@, wikitext@.len() as int),
    ensures
        (match &r {
            Ok(v) => spec_convert_list_items(wikitext@, items@) == Ok::<
                Seq<ListItemView>,
                ErrorView,
            >(crate::ast::list_items_view(v@)),
            Err(e) => spec_convert_list_items(wikitext@, items@) == Err::<
                Seq<ListItemView>,
                ErrorView,
            >(error_view(*e)),
        }),
    decreases items@, 1int,
{
    let ghost src = wikitext@;
    proof {
        assert(items@.skip(0) =~= items@);
    }
    let mut out: Vec<WikitextSimplifiedListItem> = Vec::new();
    let mut i: usize = 0;
    while i < items.len()
        invariant
            i <= items@.len(),
            spec_convert_list_items(src, items@) == (match spec_convert_list_items(
                src,
                items@.skip(i as int),
            ) {
                Ok(rest) => Ok::<_, ErrorView>(crate::ast::list_items_view(out@) + rest),
                Err(e) => Err(e),
            }),
        decreases items@.len() - i,
    {
        proof {
            assert(items@.skip(i as int)[0] == items@[i as int]);
            assert(items@.skip(i as int).drop_first() =~= items@.skip(i + 1));
        }
        let content = match simplify_wikitext_nodes(wikitext, items[i].nodes.as_slice()) {
            Ok(c) => c,
            Err(e) => {
                return Err(e);
            },
        };
        let item = WikitextSimplifiedListItem { content };
        proof {
            let iv = crate::ast::list_item_view(item);
            assert(crate::ast::list_items_view(out@.push(item)) =~= crate::ast::list_items_view(
                out@,
            ) + seq![iv]);
            match spec_convert_list_items(src, items@.skip(i + 1)) {
                Ok(rest) => {
                    assert(crate::ast::list_items_view(out@) + (seq![iv] + rest)
                        =~= (crate::ast::list_items_view(out@) + seq![iv]) + rest);
                },
                Err(_) => {},
            }
        }
        out.push(item);
        i += 1;
    }
    proof {
        assert(items@.skip(items@.len() as int) =~= Seq::<GrammarListItem>::empty());
        assert(crate::ast::list_items_view(out@) + Seq::<ListItemView>::empty()
            =~= crate::ast::list_items_view(out@));
    }
    Ok(out)
}

/// Builds the simplified items of a definition list.
#[verifier::loop_isolation(false)]
fn convert_definition_list_items(wikitext: &str, items: &Vec<GrammarDefinitionListItem>) -> (r:
    Result<Vec<WikitextSimplifiedDefinitionListItem>, SimplificationError>)
    requires
        crate::grammar::wf_definition_list_items(items@, wikitext@.len() as int),
    ensures
        (match &r {
            Ok(v) => spec_convert_definition_list_items(wikitext@, items@) == Ok::<
                Seq<DefinitionListItemView>,
                ErrorView,
            >(crate::ast::definition_list_items_view(v@)),
            Err(e) => spec_convert_definition_list_items(wikitext@, items@) == Err::<
                Seq<DefinitionListItemView>,
                ErrorView,
            >(error_view(*e)),
        }),
    decreases items@, 1int,
{
    let ghost src = wikitext@;
    proof {
        assert(items@.skip(0) =~= items@);
    }
    let mut out: Vec<WikitextSimplifiedDefinitionListItem> = Vec::new();
    let mut i: usize = 0;
    while i < items.len()
        invariant
            i <= items@.len(),
            spec_convert_definition_list_items(src, items@) == (match
                spec_convert_definition_list_items(src, items@.skip(i as int)) {
                Ok(rest) => Ok::<_, ErrorView>(
                    crate::ast::definition_list_items_view(out@) + rest,
                ),
                Err(e) => Err(e),
            }),
        decreases items@.len() - i,
    {
        proof {
            assert(items@.skip(i as int)[0] == items@[i as int]);
            assert(items@.skip(i as int).drop_first() =~= items@.skip(i + 1));
        }
        let content = match simplify_wikitext_nodes(wikitext, items[i].nodes.as_slice()) {
            Ok(c) => c,
            Err(e) => {
                return Err(e);
            },
        };
        let item = WikitextSimplifiedDefinitionListItem { type_: items[i].type_, content };
        proof {
            let iv = crate::ast::definition_list_item_view(item);
            assert(crate::ast::definition_list_items_view(out@.push(item))
                =~= crate::ast::definition_list_items_view(out@) + seq![iv]);
            match spec_convert_definition_list_items(src, items@.skip(i + 1)) {
                Ok(rest) => {
                    assert(crate::ast::definition_list_items_view(out@) + (seq![iv] + rest)
                        =~= (crate::ast::definition_list_items_view(out@) + seq![iv]) + rest);
                },
                Err(_) => {},
            }
        }
        out.push(item);
        i += 1;
    }
    proof {
        assert(items@.skip(items@.len() as int) =~= Seq::<GrammarDefinitionListItem>::empty());
        assert(crate::ast::definition_list_items_view(out@) + Seq::<DefinitionListItemView>::empty()
            =~= crate::ast::definition_list_items_view(out@));
    }
    Ok(out)
}

/// Builds the simplified captions of a table.
#[verifier::loop_isolation(false)]
fn convert_captions(wikitext: &str, cs: &Vec<GrammarTableCaption>) -> (r: Result<
    Vec<WikitextSimplifiedTableCaption>,
    SimplificationError,
>)
    requires
        crate::grammar::wf_captions(cs@, wikitext@.len() as int),
    ensures
        (match &r {
            Ok(v) => spec_convert_captions(wikitext@, cs@) == Ok::<
                Seq<CaptionView>,
                ErrorView,
            >(crate::ast::captions_view(v@)),
            Err(e) => spec_convert_captions(wikitext@, cs@) == Err::<
                Seq<CaptionView>,
                ErrorView,
            >(error_view(*e)),
        }),
    decreases cs@, 1int,
{
    let ghost src = wikitext@;
    proof {
        assert(cs@.skip(0) =~= cs@);
    }
    let mut out: Vec<WikitextSimplifiedTableCaption> = Vec::new();
    let mut i: usize = 0;
    while i < cs.len()
        invariant
            i <= cs@.len(),
            spec_convert_captions(src, cs@) == (match spec_convert_captions(
                src,
                cs@.skip(i as int),
            ) {
                Ok(rest) => Ok::<_, ErrorView>(crate::ast::captions_view(out@) + rest),
                Err(e) => Err(e),
            }),
        decreases cs@.len() - i,
    {
        proof {
            assert(cs@.skip(i as int)[0] == cs@[i as int]);
            assert(cs@.skip(i as int).drop_first() =~= cs@.skip(i + 1));
        }
        let content = match simplify_wikitext_nodes(wikitext, cs[i].content.as_slice()) {
            Ok(c) => c,
            Err(e) => {
                return Err(e);
            },
        };
        let attributes = match &cs[i].attributes {
            Some(a) => match simplify_wikitext_nodes(wikitext, a.as_slice()) {
                Ok(x) => Some(x),
                Err(e) => {
                    return Err(e);
                },
            },
            None => None,
        };
        let item = WikitextSimplifiedTableCaption { attributes, content };
        proof {
            let iv = crate::ast::caption_view(item);
            assert(crate::ast::captions_view(out@.push(item)) =~= crate::ast::captions_view(out@)
                + seq![iv]);
            match spec_convert_captions(src, cs@.skip(i + 1)) {
                Ok(rest) => {
                    assert(crate::ast::captions_view(out@) + (seq![iv] + rest)
                        =~= (crate::ast::captions_view(out@) + seq![iv]) + rest);
                },
                Err(_) => {},
            }
        }
        out.push(item);
        i += 1;
    }
    proof {
        assert(cs@.skip(cs@.len() as int) =~= Seq::<GrammarTableCaption>::empty());
        assert(crate::ast::captions_view(out@) + Seq::<CaptionView>::empty()
            =~= crate::ast::captions_view(out@));
    }
    Ok(out)
}

/// Builds the simplified cells of a table row.
#[verifier::loop_isolation(false)]
fn convert_cells(wikitext: &str, cs: &Vec<GrammarTableCell>) -> (r: Result<
    Vec<WikitextSimplifiedTableCell>,
    SimplificationError,
>)
    requires
        crate::grammar::wf_cells(cs@, wikitext@.len() as int),
    ensures
        (match &r {
            Ok(v) => spec_convert_cells(wikitext@, cs@) == Ok::<Seq<CellView>, ErrorView>(
                crate::ast::cells_view(v@),
            ),
            Err(e) => spec_convert_cells(wikitext@, cs@) == Err::<Seq<CellView>, ErrorView>(
                error_view(*e),
            ),
        }),
    decreases cs@, 1int,
{
    let ghost src = wikitext@;
    proof {
        assert(cs@.skip(0) =~= cs@);
    }
    let mut out: Vec<WikitextSimplifiedTableCell> = Vec::new();
    let mut i: usize = 0;
    while i < cs.len()
        invariant
            i <= cs@.len(),
            spec_convert_cells(src, cs@) == (match spec_convert_cells(src, cs@.skip(i as int)) {
                Ok(rest) => Ok::<_, ErrorView>(crate::ast::cells_view(out@) + rest),
                Err(e) => Err(e),
            }),
        decreases cs@.len() - i,
    {
        proof {
            assert(cs@.skip(i as int)[0] == cs@[i as int]);
            assert(cs@.skip(i as int).drop_first() =~= cs@.skip(i + 1));
        }
        let content = match simplify_wikitext_nodes(wikitext, cs[i].content.as_slice()) {
            Ok(c) => c,
            Err(e) => {
                return Err(e);
            },
        };
        let attributes = match &cs[i].attributes {
            Some(a) => match simplify_wikitext_nodes(wikitext, a.as_slice()) {
                Ok(x) => Some(x),
                Err(e) => {
                    return Err(e);
                },
            },
            None => None,
        };
        let is_header = match cs[i].type_ {
            GrammarTableCellType::Heading => true,
            GrammarTableCellType::Ordinary => false,
        };
        let item = WikitextSimplifiedTableCell { is_header, attributes, content };
        proof {
            let iv = crate::ast::cell_view(item);
            assert(crate::ast::cells_view(out@.push(item)) =~= crate::ast::cells_view(out@)
                + seq![iv]);
            match spec_convert_cells(src, cs@.skip(i + 1)) {
                Ok(rest) => {
                    assert(crate::ast::cells_view(out@) + (seq![iv] + rest)
                        =~= (crate::ast::cells_view(out@) + seq![iv]) + rest);
                },
                Err(_) => {},
            }
        }
        out.push(item);
        i += 1;
    }
    proof {
        assert(cs@.skip(cs@.len() as int) =~= Seq::<GrammarTableCell>::empty());
        assert(crate::ast::cells_view(out@) + Seq::<CellView>::empty() =~= crate::ast::cells_view(
            out@,
        ));
    }
    Ok(out)
}

/// Builds the simplified rows of a table.
#[verifier::loop_isolation(false)]
fn convert_rows(wikitext: &str, rs: &Vec<GrammarTableRow>) -> (r: Result<
    Vec<WikitextSimplifiedTableRow>,
    SimplificationError,
>)
    requires
        crate::grammar::wf_rows(rs@, wikitext@.len() as int),
    ensures
        (match &r {
            Ok(v) => spec_convert_rows(wikitext@, rs@) == Ok::<Seq<RowView>, ErrorView>(
                crate::ast::rows_view(v@),
            ),
            Err(e) => spec_convert_rows(wikitext@, rs@) == Err::<Seq<RowView>, ErrorView>(
                error_view(*e),
            ),
        }),
    decreases rs@, 2int,
{
    let ghost src = wikitext@;
    proof {
        assert(rs@.skip(0) =~= rs@);
    }
    let mut out: Vec<WikitextSimplifiedTableRow> = Vec::new();
    let mut i: usize = 0;
    while i < rs.len()
        invariant
            i <= rs@.len(),
            spec_convert_rows(src, rs@) == (match spec_convert_rows(src, rs@.skip(i as int)) {
                Ok(rest) => Ok::<_, ErrorView>(crate::ast::rows_view(out@) + rest),
                Err(e) => Err(e),
            }),
        decreases rs@.len() - i,
    {
        proof {
            assert(rs@.skip(i as int)[0] == rs@[i as int]);
            assert(rs@.skip(i as int).drop_first() =~= rs@.skip(i + 1));
        }
        let cells = match convert_cells(wikitext, &rs[i].cells) {
            Ok(c) => c,
            Err(e) => {
                return Err(e);
            },
        };
        let attributes = match simplify_wikitext_nodes(wikitext, rs[i].attributes.as_slice()) {
            Ok(a) => a,
            Err(e) => {
                return Err(e);
            },
        };
        let item = WikitextSimplifiedTableRow { attributes, cells };
        proof {
            let iv = crate::ast::row_view(item);
            assert(crate::ast::rows_view(out@.push(item)) =~= crate::ast::rows_view(out@)
                + seq![iv]);
            match spec_convert_rows(src, rs@.skip(i + 1)) {
                Ok(rest) => {
                    assert(crate::ast::rows_view(out@) + (seq![iv] + rest)
                        =~= (crate::ast::rows_view(out@) + seq![iv]) + rest);
                },
                Err(_) => {},
            }
        }
        out.push(item);
        i += 1;
    }
    proof {
        assert(rs@.skip(rs@.len() as int) =~= Seq::<GrammarTableRow>::empty());
        assert(crate::ast::rows_view(out@) + Seq::<RowView>::empty() =~= crate::ast::rows_view(
            out@,
        ));
    }
    Ok(out)
}

/// Pushes a fresh frame of the given kind opening at `start`.
fn open_frame(stack: &mut Vec<Frame>, kind: FrameKind, start: usize)
    ensures
        frames_view(final(stack)@) == frames_view(old(stack)@).push(
            (FrameView { kind: kind_view(kind), children: Seq::empty(), start }),
        ),
{
    let ghost kv = kind_view(kind);
    let f = Frame { kind, children: Vec::new(), start };
    stack.push(f);
    proof {
        assert(nodes_view(Seq::<Spanned<WikitextSimplifiedNode>>::empty()) =~= Seq::<
            SpannedView,
        >::empty());
        assert(frames_view(stack@) =~= frames_view(old(stack)@).push(
            FrameView { kind: kv, children: Seq::empty(), start },
        ));
    }
}

/// The one-line description of a structural error kind.
pub open spec fn spec_structure_error_message(k: StructureErrorView) -> Seq<char> {
    match k {
        StructureErrorView::StackUnderflow => "Stack underflow"@,
        StructureErrorView::StackOverflow => "Stack overflow"@,
        StructureErrorView::NoChildren { parent_node_type } => "Node of type '"@
            + parent_node_type + "' has no children"@,
        StructureErrorView::MissingBoldLayer => "Bold-italic found without a bold layer"@,
        StructureErrorView::UnclosedFormatting => "Unclosed formatting node"@,
        StructureErrorView::TagClosureMismatch { expected, actual } => "Tag closure mismatch: "@
            + actual + " (expected "@ + expected + ")"@,
    }
}

/// The one-line description of a simplification error.
pub open spec fn spec_simplification_error_message(e: ErrorView) -> Seq<char> {
    match e {
        ErrorView::UnknownNode { node_type, context } => "Unknown node type at position "@
            + crate::text::spec_decimal(context.start as int) + "-"@ + crate::text::spec_decimal(
            context.end as int,
        ) + ": '"@ + context.content + "'"@,
        ErrorView::InvalidNodeStructure { kind, context } => "Invalid node structure: "@
            + spec_structure_error_message(kind) + " at position "@ + crate::text::spec_decimal(
            context.start as int,
        ) + "-"@ + crate::text::spec_decimal(context.end as int) + ": '"@ + context.content
            + "'"@,
    }
}

impl SimplificationError {
    /// The one-line description of this error.
    pub fn message(&self) -> (r: String)
        ensures
            r@ == spec_simplification_error_message(error_view(*self)),
    {
        let mut out = String::new();
        let context = match self {
            SimplificationError::UnknownNode { context, .. } => context,
            SimplificationError::InvalidNodeStructure { context, .. } => context,
        };
        match self {
            SimplificationError::UnknownNode { .. } => {
                out.append("Unknown node type at position ");
            },
            SimplificationError::InvalidNodeStructure { kind, .. } => {
                out.append("Invalid node structure: ");
                match kind {
                    NodeStructureError::StackUnderflow => out.append("Stack underflow"),
                    NodeStructureError::StackOverflow => out.append("Stack overflow"),
                    NodeStructureError::NoChildren { parent_node_type } => {
                        out.append("Node of type '");
                        out.append(parent_node_type.as_str());
                        out.append("' has no children");
                    },
                    NodeStructureError::MissingBoldLayer => out.append(
                        "Bold-italic found without a bold layer",
                    ),
                    NodeStructureError::UnclosedFormatting => out.append(
                        "Unclosed formatting node",
                    ),
                    NodeStructureError::TagClosureMismatch { expected, actual } => {
                        out.append("Tag closure mismatch: ");
                        out.append(actual.as_str());
                        out.append(" (expected ");
                        out.append(expected.as_str());
                        out.append(")");
                    },
                }
                out.append(" at position ");
            },
        }
        let d1 = usize_to_decimal(context.start);
        out.append(d1.as_str());
        out.append("-");
        let d2 = usize_to_decimal(context.end);
        out.append(d2.as_str());
        out.append(": '");
        out.append(context.content.as_str());
        out.append("'");
        proof {
            assert(out@ =~= spec_simplification_error_message(error_view(*self)));
        }
        out
    }
}

/// Law: a node list that is exactly one unmatched start or end tag
/// simplifies to one verbatim text node holding that tag's source slice,
/// never to an error.
pub proof fn law_unmatched_single_tag_is_verbatim_text(src: Seq<char>, gs: Seq<GrammarNode>)
    requires
        gs.len() == 1,
        gs[0] is StartTag || gs[0] is EndTag,
    ensures
        spec_simplify(src, gs) == Ok::<Seq<SpannedView>, ErrorView>(
            seq![
                SpannedView {
                    value: NodeView::Text {
                        text: src.subrange(
                            spec_metadata(&gs[0]).start as int,
                            spec_metadata(&gs[0]).end as int,
                        ),
                    },
                    span: Span {
                        start: spec_metadata(&gs[0]).start,
                        end: spec_metadata(&gs[0]).end,
                    },
                },
            ],
        ),
{
}

/// Law: a bold toggle closes an open bold span and folds it into the frame
/// beneath; with no bold span open it opens one.  The same token both opens
/// and closes.
pub proof fn law_bold_toggle_symmetry(src: Seq<char>, m: MachineView, start: usize, end: usize)
    requires
        m.stack.len() >= 2,
    ensures
        m.stack.last().kind == FrameKindView::Bold ==> spec_step(
            src,
            m,
            GrammarNode::Bold { start, end },
        ) == Ok::<MachineView, ErrorView>(
            (MachineView {
                stack: append_child(
                    m.stack.drop_last(),
                    popped_frame(m.stack.last(), end),
                ),
                text_start: m.text_start,
            }),
        ),
        m.stack.last().kind != FrameKindView::Bold ==> spec_step(
            src,
            m,
            GrammarNode::Bold { start, end },
        ) == Ok::<MachineView, ErrorView>(push_frame(m, FrameKindView::Bold, start)),
{
}

/// Law: a closing tag that reaches an open generic tag of another name
/// fails with a closure mismatch carrying the closing tag's name as
/// expected and the open tag's name as actual.
pub proof fn law_tag_closure_mismatch(
    src: Seq<char>,
    m: MachineView,
    name: String,
    start: usize,
    end: usize,
    open_name: Seq<char>,
    open_attrs: Option<Seq<char>>,
)
    requires
        m.stack.len() >= 1,
        m.stack.last().kind == (FrameKindView::Tag { name: open_name, attributes: open_attrs }),
        open_name != name@,
        name@ != "blockquote"@,
        name@ != "sup"@,
        name@ != "sub"@,
        name@ != "small"@,
        name@ != "pre"@,
        !is_fake_tag(name@),
    ensures
        spec_step(src, m, GrammarNode::EndTag { end, name, start }) == Err::<
            MachineView,
            ErrorView,
        >(
            (ErrorView::InvalidNodeStructure {
                kind: StructureErrorView::TagClosureMismatch {
                    expected: name@,
                    actual: open_name,
                },
                context: ContextView {
                    content: src.subrange(start as int, end as int),
                    start,
                    end,
                },
            }),
        ),
{
}

/// Law: a pair of italic toggles around a text token forms exactly one
/// italic node holding that text, spanning from the opening toggle to the
/// closing one.  The same toggle token opens and then closes the span.
pub proof fn law_italic_toggle_pair(
    src: Seq<char>,
    s1: usize,
    e1: usize,
    tstart: usize,
    tend: usize,
    value: String,
    s2: usize,
    e2: usize,
)
    requires
        value@.len() > 0,
    ensures
        spec_simplify(
            src,
            seq![
                GrammarNode::Italic { end: e1, start: s1 },
                GrammarNode::Text { end: tend, start: tstart, value },
                GrammarNode::Italic { end: e2, start: s2 },
            ],
        ) == Ok::<Seq<SpannedView>, ErrorView>(
            seq![
                SpannedView {
                    value: NodeView::Italic {
                        children: seq![
                            SpannedView {
                                value: NodeView::Text { text: value@ },
                                span: Span { start: tstart, end: tend },
                            },
                        ],
                    },
                    span: Span { start: s1, end: e2 },
                },
            ],
        ),
{
    let g0 = GrammarNode::Italic { end: e1, start: s1 };
    let g1 = GrammarNode::Text { end: tend, start: tstart, value };
    let g2 = GrammarNode::Italic { end: e2, start: s2 };
    let gs = seq![g0, g1, g2];
    let m0 = initial_machine();
    let m1 = push_frame(m0, FrameKindView::Italic, s1);
    let child = SpannedView {
        value: NodeView::Text { text: value@ },
        span: Span { start: tstart, end: tend },
    };
    assert(value@.skip(0) =~= value@);
    assert(spec_convert(src, g1, None) == Ok::<Option<SpannedView>, ErrorView>(Some(child)));
    let m2 = MachineView { stack: append_child(m1.stack, child), text_start: None };
    assert(spec_step(src, m1, g1) == Ok::<MachineView, ErrorView>(m2));
    let italic = SpannedView {
        value: NodeView::Italic { children: m2.stack.last().children },
        span: Span { start: s1, end: e2 },
    };
    assert(m2.stack.last().kind == FrameKindView::Italic);
    assert(popped_frame(m2.stack.last(), e2) == italic);
    let m3 = MachineView {
        stack: append_child(m2.stack.drop_last(), italic),
        text_start: None,
    };
    assert(m2.stack.drop_last().len() == 1);
    assert(spec_step(src, m2, g2) == Ok::<MachineView, ErrorView>(m3));
    assert(spec_run(src, m0, gs) == Ok::<MachineView, ErrorView>(m3)) by {
        assert(gs.drop_first() =~= seq![g1, g2]);
        assert(seq![g1, g2].drop_first() =~= seq![g2]);
        assert(seq![g2].drop_first() =~= Seq::<GrammarNode>::empty());
        assert(spec_step(src, m0, g0) == Ok::<MachineView, ErrorView>(m1));
    }
    assert(m3.stack.len() == 1);
    assert(spec_unwind(m3.stack, src.len() as usize) == m3.stack[0].children);
    assert(m2.stack.last().children =~= seq![child]);
    assert(m3.stack[0].children =~= seq![italic]);
    assert(spec_simplify(src, gs) == Ok::<Seq<SpannedView>, ErrorView>(seq![italic]));
    assert(italic.value == (NodeView::Italic {
        children: seq![
            SpannedView {
                value: NodeView::Text { text: value@ },
                span: Span { start: tstart, end: tend },
            },
        ],
    })) by {
        assert(m2.stack.last().children =~= seq![child]);
    }
    assert(seq![italic] =~= Ok::<Seq<SpannedView>, ErrorView>(
        seq![
            SpannedView {
                value: NodeView::Italic {
                    children: seq![
                        SpannedView {
                            value: NodeView::Text { text: value@ },
                            span: Span { start: tstart, end: tend },
                        },
                    ],
                },
                span: Span { start: s1, end: e2 },
            },
        ],
    )->Ok_0);
}

/// Law: a pair of combined bold-italic toggles around a text token nests an
/// italic node inside a bold node, both spanning from the opening toggle to
/// the closing one.
pub proof fn law_bold_italic_toggle_pair(
    src: Seq<char>,
    s1: usize,
    e1: usize,
    tstart: usize,
    tend: usize,
    value: String,
    s2: usize,
    e2: usize,
)
    requires
        value@.len() > 0,
    ensures
        spec_simplify(
            src,
            seq![
                GrammarNode::BoldItalic { end: e1, start: s1 },
                GrammarNode::Text { end: tend, start: tstart, value },
                GrammarNode::BoldItalic { end: e2, start: s2 },
            ],
        ) == Ok::<Seq<SpannedView>, ErrorView>(
            seq![
                SpannedView {
                    value: NodeView::Bold {
                        children: seq![
                            SpannedView {
                                value: NodeView::Italic {
                                    children: seq![
                                        SpannedView {
                                            value: NodeView::Text { text: value@ },
                                            span: Span { start: tstart, end: tend },
                                        },
                                    ],
                                },
                                span: Span { start: s1, end: e2 },
                            },
                        ],
                    },
                    span: Span { start: s1, end: e2 },
                },
            ],
        ),
{
    let g0 = GrammarNode::BoldItalic { end: e1, start: s1 };
    let g1 = GrammarNode::Text { end: tend, start: tstart, value };
    let g2 = GrammarNode::BoldItalic { end: e2, start: s2 };
    let gs = seq![g0, g1, g2];
    let m0 = initial_machine();
    let m1 = push_frame(push_frame(m0, FrameKindView::Bold, s1), FrameKindView::Italic, s1);
    assert(spec_step(src, m0, g0) == Ok::<MachineView, ErrorView>(m1));
    let child = SpannedView {
        value: NodeView::Text { text: value@ },
        span: Span { start: tstart, end: tend },
    };
    assert(value@.skip(0) =~= value@);
    assert(spec_convert(src, g1, None) == Ok::<Option<SpannedView>, ErrorView>(Some(child)));
    let m2 = MachineView { stack: append_child(m1.stack, child), text_start: None };
    assert(spec_step(src, m1, g1) == Ok::<MachineView, ErrorView>(m2));
    assert(m2.stack.last().kind == FrameKindView::Italic);
    let italic = popped_frame(m2.stack.last(), e2);
    let rest = m2.stack.drop_last();
    assert(rest.len() == 2);
    assert(rest.last().kind == FrameKindView::Bold);
    let bold = popped_frame(
        FrameView {
            kind: FrameKindView::Bold,
            children: rest.last().children.push(italic),
            start: rest.last().start,
        },
        e2,
    );
    let m3 = MachineView { stack: append_child(rest.drop_last(), bold), text_start: None };
    assert(rest.drop_last().len() == 1);
    assert(spec_step(src, m2, g2) == Ok::<MachineView, ErrorView>(m3));
    assert(spec_run(src, m0, gs) == Ok::<MachineView, ErrorView>(m3)) by {
        assert(gs.drop_first() =~= seq![g1, g2]);
        assert(seq![g1, g2].drop_first() =~= seq![g2]);
        assert(seq![g2].drop_first() =~= Seq::<GrammarNode>::empty());
    }
    assert(m3.stack.len() == 1);
    assert(spec_unwind(m3.stack, src.len() as usize) == m3.stack[0].children);
    assert(m2.stack.last().children =~= seq![child]);
    assert(rest.last().children.push(italic) =~= seq![italic]);
    assert(m3.stack[0].children =~= seq![bold]);
    assert(spec_simplify(src, gs) == Ok::<Seq<SpannedView>, ErrorView>(seq![bold]));
    assert(bold.value == (NodeView::Bold {
        children: seq![
            SpannedView {
                value: NodeView::Italic { children: seq![child] },
                span: Span { start: s1, end: e2 },
            },
        ],
    })) by {
        assert(italic == (SpannedView {
            value: NodeView::Italic { children: seq![child] },
            span: Span { start: s1, end: e2 },
        })) by {
            assert(m2.stack.last().children =~= seq![child]);
        }
        assert(rest.last().children.push(italic) =~= seq![italic]);
    }
    assert(seq![bold] =~= seq![
        SpannedView {
            value: NodeView::Bold {
                children: seq![
                    SpannedView {
                        value: NodeView::Italic {
                            children: seq![
                                SpannedView {
                                    value: NodeView::Text { text: value@ },
                                    span: Span { start: tstart, end: tend },
                                },
                            ],
                        },
                        span: Span { start: s1, end: e2 },
                    },
                ],
            },
            span: Span { start: s1, end: e2 },
        },
    ]);
}

/// Law: a recognized inline container end tag closes exactly the frame its
/// start tag opened; closing any other frame fails with a closure mismatch
/// carrying the end tag's name as expected and the open frame's kind name as
/// actual.
pub proof fn law_recognized_tag_closure(
    src: Seq<char>,
    m: MachineView,
    name: String,
    start: usize,
    end: usize,
)
    requires
        m.stack.len() >= 1,
        name@ == "blockquote"@ || name@ == "sup"@ || name@ == "sub"@ || name@ == "small"@
            || name@ == "pre"@,
    ensures
        recognized_tag_matches(name@, m.stack.last().kind) ==> spec_step(
            src,
            m,
            GrammarNode::EndTag { end, name, start },
        ) == pop_and_fold(src, m, GrammarNode::EndTag { end, name, start }, end),
        !recognized_tag_matches(name@, m.stack.last().kind) ==> spec_step(
            src,
            m,
            GrammarNode::EndTag { end, name, start },
        ) == Err::<MachineView, ErrorView>(
            (ErrorView::InvalidNodeStructure {
                kind: StructureErrorView::TagClosureMismatch {
                    expected: name@,
                    actual: frame_type_name(m.stack.last()),
                },
                context: ContextView {
                    content: src.subrange(start as int, end as int),
                    start,
                    end,
                },
            }),
        ),
{
}

/// Law (span ordering, conversion step): every node the single-node
/// conversion produces from well-formed input carries a span with
/// `start <= end`, the link-trail clip included.  Frames closed by the
/// stack walk take their start from an opening token and their end from a
/// closing token or the end of text, so this covers the spans the
/// conversion itself invents.
pub proof fn law_converted_span_ordered(src: Seq<char>, g: GrammarNode, ts: Option<usize>)
    requires
        wf_node(g, src.len() as int),
    ensures
        (match spec_convert(src, g, ts) {
            Ok(Some(sp)) => sp.span.start <= sp.span.end,
            _ => true,
        }),
{
    match g {
        GrammarNode::Text { value, start, end } => {
            assert(value@.len() == end - start);
        },
        _ => {},
    }
}

} // verus!
