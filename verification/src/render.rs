//! Serialization of the simplified AST back to wikitext.
//!
//! The serializer is the structural inverse of simplification: the template
//! evaluator uses its output both as the probe for its fixed point and as the
//! input for round-trip reparsing, so the text produced here is pinned down
//! exactly by [`wikitext_of`].

use vstd::prelude::*;

use crate::ast::{
    node_view, nodes_view, CaptionView, CellView, DefinitionListItemType, DefinitionListItemView,
    ListItemView, NodeView, ParameterView, RowView, Spanned, SpannedView, WikitextSimplifiedNode,
    WikitextSimplifiedTableCaption, WikitextSimplifiedTableCell, WikitextSimplifiedTableRow,
};
use crate::text::{char_repeat, push_char, repeat_char, spec_is_ordinal, string_eq_str};
use crate::text::is_ordinal_str;

verus! {

/// The non-breaking space character, rendered as `&nbsp;` in wikitext.
pub open spec fn nbsp() -> char {
    '\u{a0}'
}

/// Whether a node model is block-level, as
/// [`WikitextSimplifiedNode::is_block_type`] decides it.
pub open spec fn is_block_view(v: NodeView) -> bool {
    match v {
        NodeView::Heading { .. } => true,
        NodeView::Table { .. } => true,
        NodeView::OrderedList { .. } => true,
        NodeView::UnorderedList { .. } => true,
        NodeView::DefinitionList { .. } => true,
        _ => false,
    }
}

/// Plain text as it is serialized: every non-breaking space becomes `&nbsp;`.
pub open spec fn escape_nbsp(s: Seq<char>) -> Seq<char>
    decreases s,
{
    if s.len() == 0 {
        Seq::empty()
    } else {
        escape_nbsp(s.drop_last()) + (if s.last() == nbsp() {
            "&nbsp;"@
        } else {
            seq![s.last()]
        })
    }
}

/// One template parameter as it appears inside `{{...}}`: a parameter with a
/// positional (numeric) name contributes its value alone, a named one
/// contributes `name=value`.
pub open spec fn parameter_text(p: ParameterView) -> Seq<char> {
    if spec_is_ordinal(p.name) {
        p.value
    } else {
        p.name + "="@ + p.value
    }
}

/// A template's parameters joined with `|`.
pub open spec fn parameters_text(ps: Seq<ParameterView>) -> Seq<char>
    decreases ps,
{
    if ps.len() == 0 {
        Seq::empty()
    } else if ps.len() == 1 {
        parameter_text(ps[0])
    } else {
        parameters_text(ps.drop_last()) + "|"@ + parameter_text(ps.last())
    }
}

/// The wikitext of a sequence of sibling nodes: each block-level node is
/// preceded by a newline.
pub open spec fn wikitext_of_nodes(s: Seq<SpannedView>) -> Seq<char>
    decreases s,
{
    if s.len() == 0 {
        Seq::empty()
    } else {
        wikitext_of_nodes(s.drop_last()) + (if is_block_view(s.last().value) {
            "\n"@
        } else {
            Seq::empty()
        }) + wikitext_of(s.last().value)
    }
}

/// The wikitext of one table caption line, including its terminator.
pub open spec fn caption_text(c: CaptionView) -> Seq<char>
    decreases c,
{
    "|+"@ + (match c.attributes {
        Some(a) => " "@ + wikitext_of_nodes(a),
        None => Seq::empty(),
    }) + wikitext_of_nodes(c.content) + "\n|-\n"@
}

/// The wikitext of a table's captions.
pub open spec fn captions_text(cs: Seq<CaptionView>) -> Seq<char>
    decreases cs,
{
    if cs.len() == 0 {
        Seq::empty()
    } else {
        captions_text(cs.drop_last()) + caption_text(cs.last())
    }
}

/// The wikitext of one table cell: its marker, optional attributes with their
/// `|` terminator, and its content.
pub open spec fn cell_text(c: CellView) -> Seq<char>
    decreases c,
{
    (if c.is_header {
        "!"@
    } else {
        "|"@
    }) + (match c.attributes {
        Some(a) => wikitext_of_nodes(a) + "|"@,
        None => Seq::empty(),
    }) + wikitext_of_nodes(c.content)
}

/// The wikitext of a row's cells: a newline separates two adjacent cells
/// exactly when one uses the header marker and the other does not.
pub open spec fn cells_text(cs: Seq<CellView>) -> Seq<char>
    decreases cs,
{
    if cs.len() == 0 {
        Seq::empty()
    } else if cs.len() == 1 {
        cell_text(cs[0])
    } else {
        cells_text(cs.drop_last()) + (if cs[cs.len() - 2].is_header != cs.last().is_header {
            "\n"@
        } else {
            Seq::empty()
        }) + cell_text(cs.last())
    }
}

/// The wikitext of one table row.  Rows after the first open with a `|-`
/// line; a row with attributes adds a `|-` line carrying them.
pub open spec fn row_text(r: RowView, is_first: bool) -> Seq<char>
    decreases r,
{
    (if is_first {
        Seq::<char>::empty()
    } else {
        "|-\n"@
    }) + (if r.attributes.len() > 0 {
        "|- "@ + wikitext_of_nodes(r.attributes) + "\n"@
    } else {
        Seq::empty()
    }) + cells_text(r.cells) + "\n"@
}

/// The wikitext of a table's rows.
pub open spec fn rows_text(rs: Seq<RowView>) -> Seq<char>
    decreases rs,
{
    if rs.len() == 0 {
        Seq::empty()
    } else {
        rows_text(rs.drop_last()) + row_text(rs.last(), rs.len() == 1)
    }
}

/// The wikitext of an ordered or unordered list's items, each line opening
/// with the given marker.
pub open spec fn list_items_text(items: Seq<ListItemView>, marker: char) -> Seq<char>
    decreases items,
{
    if items.len() == 0 {
        Seq::empty()
    } else {
        list_items_text(items.drop_last(), marker) + seq![marker] + wikitext_of_nodes(
            items.last().content,
        ) + "\n"@
    }
}

/// The wikitext of a definition list's items: `;` opens a term line and `:`
/// a details line.
pub open spec fn definition_list_items_text(items: Seq<DefinitionListItemView>) -> Seq<char>
    decreases items,
{
    if items.len() == 0 {
        Seq::empty()
    } else {
        definition_list_items_text(items.drop_last()) + (match items.last().type_ {
            DefinitionListItemType::Term => ";"@,
            DefinitionListItemType::Details => ":"@,
        }) + wikitext_of_nodes(items.last().content) + "\n"@
    }
}

/// The wikitext a node model serializes to.
pub open spec fn wikitext_of(v: NodeView) -> Seq<char>
    decreases v,
{
    match v {
        NodeView::Fragment { children } => wikitext_of_nodes(children),
        NodeView::Template { name, parameters } => {
            let ps = parameters_text(parameters);
            if ps.len() == 0 {
                "{{"@ + name + "}}"@
            } else {
                "{{"@ + name + "|"@ + ps + "}}"@
            }
        },
        NodeView::TemplateParameterUse { name, default } => "{{"@ + name + "}}"@ + (match default {
            Some(d) => "|"@ + wikitext_of_nodes(d),
            None => Seq::empty(),
        }),
        NodeView::Heading { level, children } => char_repeat('=', level as int) + " "@
            + wikitext_of_nodes(children) + " "@ + char_repeat('=', level as int),
        NodeView::Link { text, title } => if text == title {
            "[["@ + title + "]]"@
        } else {
            "[["@ + title + "|"@ + text + "]]"@
        },
        NodeView::ExtLink { link, text } => match text {
            Some(t) => "["@ + link + " "@ + t + "]"@,
            None => "["@ + link + "]"@,
        },
        NodeView::Bold { children } => "'''"@ + wikitext_of_nodes(children) + "'''"@,
        NodeView::Italic { children } => "''"@ + wikitext_of_nodes(children) + "''"@,
        NodeView::Blockquote { children } => "<blockquote>"@ + wikitext_of_nodes(children)
            + "</blockquote>"@,
        NodeView::Superscript { children } => "<sup>"@ + wikitext_of_nodes(children) + "</sup>"@,
        NodeView::Subscript { children } => "<sub>"@ + wikitext_of_nodes(children) + "</sub>"@,
        NodeView::Small { children } => "<small>"@ + wikitext_of_nodes(children) + "</small>"@,
        NodeView::Preformatted { children } => "<pre>"@ + wikitext_of_nodes(children) + "</pre>"@,
        NodeView::Tag { name, attributes, children } => {
            let attrs = match attributes {
                Some(a) => a,
                None => Seq::empty(),
            };
            "<"@ + name + (if attrs.len() > 0 {
                " "@ + attrs
            } else {
                Seq::empty()
            }) + ">"@ + wikitext_of_nodes(children) + "</"@ + name + ">"@
        },
        NodeView::Text { text } => escape_nbsp(text),
        NodeView::Table { attributes, captions, rows } => "{|"@ + wikitext_of_nodes(attributes)
            + "\n"@ + captions_text(captions) + rows_text(rows) + "|}\n"@,
        NodeView::OrderedList { items } => list_items_text(items, '#'),
        NodeView::UnorderedList { items } => list_items_text(items, '*'),
        NodeView::DefinitionList { items } => definition_list_items_text(items),
        NodeView::Redirect { target } => "#REDIRECT [["@ + target + "]]"@,
        NodeView::HorizontalDivider => "----"@,
        NodeView::ParagraphBreak => "<br/>"@,
        NodeView::Newline => "\n"@,
    }
}

/// A fresh string equal to `s` with every non-breaking space rendered as
/// `&nbsp;`.
#[verifier::loop_isolation(false)]
pub fn escape_nbsp_str(s: &str) -> (r: String)
    ensures
        r@ == escape_nbsp(s@),
{
    let len = s.unicode_len();
    let mut out = String::new();
    let mut i: usize = 0;
    while i < len
        invariant
            i <= len,
            out@ == escape_nbsp(s@.take(i as int)),
        decreases len - i,
    {
        let c = s.get_char(i);
        if c == '\u{a0}' {
            out.append("&nbsp;");
        } else {
            push_char(&mut out, c);
        }
        proof {
            assert(s@.take(i + 1).drop_last() =~= s@.take(i as int));
            assert(s@.take(i + 1).last() == s@[i as int]);
        }
        i += 1;
    }
    proof {
        assert(s@.take(len as int) =~= s@);
    }
    out
}

/// The wikitext of a sequence of sibling nodes, as a fresh string.
#[verifier::loop_isolation(false)]
pub fn nodes_to_wikitext(nodes: &Vec<Spanned<WikitextSimplifiedNode>>) -> (r: String)
    ensures
        r@ == wikitext_of_nodes(nodes_view(nodes@)),
    decreases nodes@, 0int,
{
    let ghost v = nodes_view(nodes@);
    let mut out = String::new();
    let mut i: usize = 0;
    while i < nodes.len()
        invariant
            i <= nodes@.len(),
            out@ == wikitext_of_nodes(v.take(i as int)),
        decreases nodes@.len() - i,
    {
        let child = &nodes[i];
        if child.value.is_block_type() {
            out.append("\n");
        }
        let t = child.value.to_wikitext();
        out.append(t.as_str());
        proof {
            assert(v.take(i + 1).drop_last() =~= v.take(i as int));
            assert(v.take(i + 1).last() == v[i as int]);
        }
        i += 1;
    }
    proof {
        assert(v.take(nodes@.len() as int) =~= v);
    }
    out
}

/// The wikitext of an optional attribute list prefixed by one space, as the
/// caption serialization uses it.
#[verifier::loop_isolation(false)]
fn caption_to_wikitext(c: &WikitextSimplifiedTableCaption) -> (r: String)
    ensures
        r@ == caption_text(crate::ast::caption_view(*c)),
    decreases *c, 0int,
{
    let mut out = String::new();
    out.append("|+");
    match &c.attributes {
        Some(a) => {
            out.append(" ");
            let t = nodes_to_wikitext(a);
            out.append(t.as_str());
        },
        None => {},
    }
    let t = nodes_to_wikitext(&c.content);
    out.append(t.as_str());
    out.append("\n|-\n");
    proof {
        assert(out@ =~= caption_text(crate::ast::caption_view(*c)));
    }
    out
}

/// The wikitext of one table cell.
#[verifier::loop_isolation(false)]
fn cell_to_wikitext(c: &WikitextSimplifiedTableCell) -> (r: String)
    ensures
        r@ == cell_text(crate::ast::cell_view(*c)),
    decreases *c, 0int,
{
    let mut out = String::new();
    if c.is_header {
        out.append("!");
    } else {
        out.append("|");
    }
    match &c.attributes {
        Some(a) => {
            let t = nodes_to_wikitext(a);
            out.append(t.as_str());
            out.append("|");
        },
        None => {},
    }
    let t = nodes_to_wikitext(&c.content);
    out.append(t.as_str());
    proof {
        assert(out@ =~= cell_text(crate::ast::cell_view(*c)));
    }
    out
}

/// The wikitext of one table row.
#[verifier::loop_isolation(false)]
fn row_to_wikitext(r: &WikitextSimplifiedTableRow, is_first: bool) -> (res: String)
    ensures
        res@ == row_text(crate::ast::row_view(*r), is_first),
    decreases *r, 0int,
{
    let ghost rv = crate::ast::row_view(*r);
    let mut out = String::new();
    if !is_first {
        out.append("|-\n");
    }
    if r.attributes.len() > 0 {
        out.append("|- ");
        let t = nodes_to_wikitext(&r.attributes);
        out.append(t.as_str());
        out.append("\n");
    }
    let mut i: usize = 0;
    let ghost cells = rv.cells;
    let ghost head = out@;
    while i < r.cells.len()
        invariant
            i <= r.cells@.len(),
            out@ == head + cells_text(cells.take(i as int)),
        decreases r.cells@.len() - i,
    {
        if i > 0 {
            let prev_header = r.cells[i - 1].is_header;
            let here_header = r.cells[i].is_header;
            if prev_header != here_header {
                out.append("\n");
            }
        }
        let t = cell_to_wikitext(&r.cells[i]);
        out.append(t.as_str());
        proof {
            assert(cells.take(i + 1).drop_last() =~= cells.take(i as int));
            assert(cells.take(i + 1).last() == cells[i as int]);
            if i > 0 {
                assert(cells.take(i + 1)[i - 1] == cells[i - 1]);
            }
        }
        i += 1;
    }
    out.append("\n");
    proof {
        assert(cells.take(r.cells@.len() as int) =~= cells);
        assert(out@ =~= row_text(rv, is_first));
    }
    out
}

impl WikitextSimplifiedNode {
    /// Serializes this node and its children back to wikitext.
    #[verifier::loop_isolation(false)]
    #[verifier::rlimit(100)]
    pub fn to_wikitext(&self) -> (r: String)
        ensures
            r@ == wikitext_of(node_view(*self)),
        decreases self, 1int,
    {
        match self {
            Self::Fragment { children } => nodes_to_wikitext(children),
            Self::Template { name, parameters } => {
                let ghost pv = crate::ast::parameters_view(parameters@);
                let mut ps = String::new();
                let mut i: usize = 0;
                while i < parameters.len()
                    invariant
                        i <= parameters@.len(),
                        ps@ == parameters_text(pv.take(i as int)),
                    decreases parameters@.len() - i,
                {
                    if i > 0 {
                        ps.append("|");
                    }
                    let p = &parameters[i];
                    if is_ordinal_str(p.name.as_str()) {
                        ps.append(p.value.as_str());
                    } else {
                        ps.append(p.name.as_str());
                        ps.append("=");
                        ps.append(p.value.as_str());
                    }
                    proof {
                        assert(pv.take(i + 1).drop_last() =~= pv.take(i as int));
                        assert(pv.take(i + 1).last() == pv[i as int]);
                        assert(ps@ =~= parameters_text(pv.take(i + 1)));
                    }
                    i += 1;
                }
                proof {
                    assert(pv.take(parameters@.len() as int) =~= pv);
                }
                let mut out = String::new();
                out.append("{{");
                out.append(name.as_str());
                if ps.unicode_len() > 0 {
                    out.append("|");
                    out.append(ps.as_str());
                }
                out.append("}}");
                proof {
                    assert(out@ =~= wikitext_of(node_view(*self)));
                }
                out
            },
            Self::TemplateParameterUse { name, default } => {
                let mut out = String::new();
                out.append("{{");
                out.append(name.as_str());
                out.append("}}");
                match default {
                    Some(d) => {
                        out.append("|");
                        let t = nodes_to_wikitext(d);
                        out.append(t.as_str());
                    },
                    None => {},
                }
                proof {
                    assert(out@ =~= wikitext_of(node_view(*self)));
                }
                out
            },
            Self::Heading { level, children } => {
                let eqs = repeat_char('=', *level as usize);
                let mut out = String::new();
                out.append(eqs.as_str());
                out.append(" ");
                let t = nodes_to_wikitext(children);
                out.append(t.as_str());
                out.append(" ");
                out.append(eqs.as_str());
                proof {
                    assert(out@ =~= wikitext_of(node_view(*self)));
                }
                out
            },
            Self::Link { text, title } => {
                let mut out = String::new();
                out.append("[[");
                out.append(title.as_str());
                if !string_eq_str(text, title.as_str()) {
                    out.append("|");
                    out.append(text.as_str());
                }
                out.append("]]");
                proof {
                    assert(out@ =~= wikitext_of(node_view(*self)));
                }
                out
            },
            Self::ExtLink { link, text } => {
                let mut out = String::new();
                out.append("[");
                out.append(link.as_str());
                match text {
                    Some(t) => {
                        out.append(" ");
                        out.append(t.as_str());
                    },
                    None => {},
                }
                out.append("]");
                proof {
                    assert(out@ =~= wikitext_of(node_view(*self)));
                }
                out
            },
            Self::Bold { children } => {
                let mut out = String::new();
                out.append("'''");
                let t = nodes_to_wikitext(children);
                out.append(t.as_str());
                out.append("'''");
                proof {
                    assert(out@ =~= wikitext_of(node_view(*self)));
                }
                out
            },
            Self::Italic { children } => {
                let mut out = String::new();
                out.append("''");
                let t = nodes_to_wikitext(children);
                out.append(t.as_str());
                out.append("''");
                proof {
                    assert(out@ =~= wikitext_of(node_view(*self)));
                }
                out
            },
            Self::Blockquote { children } => {
                let out = wrap_tag("<blockquote>", children, "</blockquote>");
                proof {
                    assert(out@ =~= wikitext_of(node_view(*self)));
                }
                out
            },
            Self::Superscript { children } => {
                let out = wrap_tag("<sup>", children, "</sup>");
                proof {
                    assert(out@ =~= wikitext_of(node_view(*self)));
                }
                out
            },
            Self::Subscript { children } => {
                let out = wrap_tag("<sub>", children, "</sub>");
                proof {
                    assert(out@ =~= wikitext_of(node_view(*self)));
                }
                out
            },
            Self::Small { children } => {
                let out = wrap_tag("<small>", children, "</small>");
                proof {
                    assert(out@ =~= wikitext_of(node_view(*self)));
                }
                out
            },
            Self::Preformatted { children } => {
                let out = wrap_tag("<pre>", children, "</pre>");
                proof {
                    assert(out@ =~= wikitext_of(node_view(*self)));
                }
                out
            },
            Self::Tag { name, attributes, children } => {
                let mut out = String::new();
                out.append("<");
                out.append(name.as_str());
                match attributes {
                    Some(a) => {
                        if a.unicode_len() > 0 {
                            out.append(" ");
                            out.append(a.as_str());
                        }
                    },
                    None => {},
                }
                out.append(">");
                let t = nodes_to_wikitext(children);
                out.append(t.as_str());
                out.append("</");
                out.append(name.as_str());
                out.append(">");
                proof {
                    assert(out@ =~= wikitext_of(node_view(*self)));
                }
                out
            },
            Self::Text { text } => {
                let out = escape_nbsp_str(text.as_str());
                out
            },
            Self::Table { attributes, captions, rows } => {
                let ghost cv = crate::ast::captions_view(captions@);
                let ghost rv = crate::ast::rows_view(rows@);
                let mut out = String::new();
                out.append("{|");
                let t = nodes_to_wikitext(attributes);
                out.append(t.as_str());
                out.append("\n");
                let ghost head = out@;
                let mut i: usize = 0;
                while i < captions.len()
                    invariant
                        i <= captions@.len(),
                        out@ == head + captions_text(cv.take(i as int)),
                    decreases captions@.len() - i,
                {
                    let t = caption_to_wikitext(&captions[i]);
                    out.append(t.as_str());
                    proof {
                        assert(cv.take(i + 1).drop_last() =~= cv.take(i as int));
                        assert(cv.take(i + 1).last() == cv[i as int]);
                        assert(out@ =~= head + captions_text(cv.take(i + 1)));
                    }
                    i += 1;
                }
                proof {
                    assert(cv.take(captions@.len() as int) =~= cv);
                }
                let ghost head2 = out@;
                let mut k: usize = 0;
                while k < rows.len()
                    invariant
                        k <= rows@.len(),
                        out@ == head2 + rows_text(rv.take(k as int)),
                    decreases rows@.len() - k,
                {
                    let t = row_to_wikitext(&rows[k], k == 0);
                    out.append(t.as_str());
                    proof {
                        assert(rv.take(k + 1).drop_last() =~= rv.take(k as int));
                        assert(rv.take(k + 1).last() == rv[k as int]);
                        assert(out@ =~= head2 + rows_text(rv.take(k + 1)));
                    }
                    k += 1;
                }
                proof {
                    assert(rv.take(rows@.len() as int) =~= rv);
                }
                out.append("|}\n");
                proof {
                    assert(out@ =~= wikitext_of(node_view(*self)));
                }
                out
            },
            Self::OrderedList { items } => {
                let out = list_to_wikitext(items, '#');
                proof {
                    assert(out@ =~= wikitext_of(node_view(*self)));
                }
                out
            },
            Self::UnorderedList { items } => {
                let out = list_to_wikitext(items, '*');
                proof {
                    assert(out@ =~= wikitext_of(node_view(*self)));
                }
                out
            },
            Self::DefinitionList { items } => {
                let ghost iv = crate::ast::definition_list_items_view(items@);
                let mut out = String::new();
                let mut i: usize = 0;
                while i < items.len()
                    invariant
                        i <= items@.len(),
                        out@ == definition_list_items_text(iv.take(i as int)),
                    decreases items@.len() - i,
                {
                    match items[i].type_ {
                        DefinitionListItemType::Term => out.append(";"),
                        DefinitionListItemType::Details => out.append(":"),
                    }
                    let t = nodes_to_wikitext(&items[i].content);
                    out.append(t.as_str());
                    out.append("\n");
                    proof {
                        assert(iv.take(i + 1).drop_last() =~= iv.take(i as int));
                        assert(iv.take(i + 1).last() == iv[i as int]);
                        assert(out@ =~= definition_list_items_text(iv.take(i + 1)));
                    }
                    i += 1;
                }
                proof {
                    assert(iv.take(items@.len() as int) =~= iv);
                }
                out
            },
            Self::Redirect { target } => {
                let mut out = String::new();
                out.append("#REDIRECT [[");
                out.append(target.as_str());
                out.append("]]");
                proof {
                    assert(out@ =~= wikitext_of(node_view(*self)));
                }
                out
            },
            Self::HorizontalDivider => {
                let mut out = String::new();
                out.append("----");
                out
            },
            Self::ParagraphBreak => {
                let mut out = String::new();
                out.append("<br/>");
                out
            },
            Self::Newline => {
                let mut out = String::new();
                out.append("\n");
                out
            },
        }
    }
}

/// The children's wikitext between a fixed opening and closing piece.
#[verifier::loop_isolation(false)]
fn wrap_tag(open_text: &str, children: &Vec<Spanned<WikitextSimplifiedNode>>, close_text: &str)
    -> (r: String)
    ensures
        r@ == open_text@ + wikitext_of_nodes(nodes_view(children@)) + close_text@,
    decreases children@, 1int,
{
    let mut out = String::new();
    out.append(open_text);
    let t = nodes_to_wikitext(children);
    out.append(t.as_str());
    out.append(close_text);
    proof {
        assert(out@ =~= open_text@ + wikitext_of_nodes(nodes_view(children@)) + close_text@);
    }
    out
}

/// The wikitext of an ordered or unordered list.
#[verifier::loop_isolation(false)]
fn list_to_wikitext(items: &Vec<crate::ast::WikitextSimplifiedListItem>, marker: char) -> (r:
    String)
    ensures
        r@ == list_items_text(crate::ast::list_items_view(items@), marker),
    decreases items@, 0int,
{
    let ghost iv = crate::ast::list_items_view(items@);
    let mut out = String::new();
    let mut i: usize = 0;
    while i < items.len()
        invariant
            i <= items@.len(),
            out@ == list_items_text(iv.take(i as int), marker),
        decreases items@.len() - i,
    {
        push_char(&mut out, marker);
        let t = nodes_to_wikitext(&items[i].content);
        out.append(t.as_str());
        out.append("\n");
        proof {
            assert(iv.take(i + 1).drop_last() =~= iv.take(i as int));
            assert(iv.take(i + 1).last() == iv[i as int]);
            assert(out@ =~= list_items_text(iv.take(i + 1), marker));
        }
        i += 1;
    }
    proof {
        assert(iv.take(items@.len() as int) =~= iv);
    }
    out
}

} // verus!
