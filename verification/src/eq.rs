//! Equality of simplified nodes.
//!
//! Two nodes are equal when their content is: spans are positional metadata
//! and never take part in the comparison.  This is the equality the
//! round-trip property speaks of, where re-tokenization may shift spans but
//! must not change values.

use vstd::prelude::*;

use crate::text::string_eq_str;

use crate::ast::{
    node_view, spanned_view, CaptionView, CellView, NodeView, RowView, Spanned, SpannedView,
    WikitextSimplifiedNode,
};

verus! {

/// Whether two node lists agree element by element, spans aside.
pub open spec fn like_nodes(a: Seq<SpannedView>, b: Seq<SpannedView>) -> bool
    decreases a, 1int,
{
    a.len() == b.len() && (forall|i: int|
        0 <= i < a.len() ==> like(#[trigger] a[i].value, #[trigger] b[i].value))
}

/// Whether two optional node lists agree, spans aside.
pub open spec fn like_opt_nodes(a: Option<Seq<SpannedView>>, b: Option<Seq<SpannedView>>) -> bool
    decreases a, 2int,
{
    match (a, b) {
        (Some(x), Some(y)) => like_nodes(x, y),
        (None, None) => true,
        _ => false,
    }
}

/// Whether two captions agree, spans aside.
pub open spec fn like_caption(a: CaptionView, b: CaptionView) -> bool
    decreases a, 3int,
{
    like_opt_nodes(a.attributes, b.attributes) && like_nodes(a.content, b.content)
}

/// Whether two cells agree, spans aside.
pub open spec fn like_cell(a: CellView, b: CellView) -> bool
    decreases a, 3int,
{
    a.is_header == b.is_header && like_opt_nodes(a.attributes, b.attributes) && like_nodes(
        a.content,
        b.content,
    )
}

/// Whether two rows agree, spans aside.
pub open spec fn like_row(a: RowView, b: RowView) -> bool
    decreases a, 4int,
{
    like_nodes(a.attributes, b.attributes) && a.cells.len() == b.cells.len() && (forall|i: int|
        0 <= i < a.cells.len() ==> like_cell(#[trigger] a.cells[i], #[trigger] b.cells[i]))
}

/// Whether two nodes agree in kind and content, spans aside.
pub open spec fn like(a: NodeView, b: NodeView) -> bool
    decreases a, 5int,
{
    match (a, b) {
        (NodeView::Fragment { children: ca }, NodeView::Fragment { children: cb }) => like_nodes(
            ca,
            cb,
        ),
        (
            NodeView::Template { name: na, parameters: pa },
            NodeView::Template { name: nb, parameters: pb },
        ) => na == nb && pa == pb,
        (
            NodeView::TemplateParameterUse { name: na, default: da },
            NodeView::TemplateParameterUse { name: nb, default: db },
        ) => na == nb && like_opt_nodes(da, db),
        (
            NodeView::Heading { level: la, children: ca },
            NodeView::Heading { level: lb, children: cb },
        ) => la == lb && like_nodes(ca, cb),
        (NodeView::Link { text: ta, title: la }, NodeView::Link { text: tb, title: lb }) => ta
            == tb && la == lb,
        (NodeView::ExtLink { link: la, text: ta }, NodeView::ExtLink { link: lb, text: tb }) => la
            == lb && ta == tb,
        (NodeView::Bold { children: ca }, NodeView::Bold { children: cb }) => like_nodes(ca, cb),
        (NodeView::Italic { children: ca }, NodeView::Italic { children: cb }) => like_nodes(
            ca,
            cb,
        ),
        (NodeView::Blockquote { children: ca }, NodeView::Blockquote { children: cb }) => like_nodes(
            ca,
            cb,
        ),
        (NodeView::Superscript { children: ca }, NodeView::Superscript { children: cb }) => like_nodes(
            ca,
            cb,
        ),
        (NodeView::Subscript { children: ca }, NodeView::Subscript { children: cb }) => like_nodes(
            ca,
            cb,
        ),
        (NodeView::Small { children: ca }, NodeView::Small { children: cb }) => like_nodes(ca, cb),
        (NodeView::Preformatted { children: ca }, NodeView::Preformatted { children: cb }) => like_nodes(
            ca,
            cb,
        ),
        (
            NodeView::Tag { name: na, attributes: aa, children: ca },
            NodeView::Tag { name: nb, attributes: ab, children: cb },
        ) => na == nb && aa == ab && like_nodes(ca, cb),
        (NodeView::Text { text: ta }, NodeView::Text { text: tb }) => ta == tb,
        (
            NodeView::Table { attributes: aa, captions: ca, rows: ra },
            NodeView::Table { attributes: ab, captions: cb, rows: rb },
        ) => like_nodes(aa, ab) && ca.len() == cb.len() && (forall|i: int|
            0 <= i < ca.len() ==> like_caption(#[trigger] ca[i], #[trigger] cb[i])) && ra.len()
            == rb.len() && (forall|i: int|
            0 <= i < ra.len() ==> like_row(#[trigger] ra[i], #[trigger] rb[i])),
        (NodeView::OrderedList { items: ia }, NodeView::OrderedList { items: ib }) => ia.len()
            == ib.len() && (forall|i: int|
            0 <= i < ia.len() ==> like_nodes(
                (#[trigger] ia[i]).content,
                (#[trigger] ib[i]).content,
            )),
        (NodeView::UnorderedList { items: ia }, NodeView::UnorderedList { items: ib }) => ia.len()
            == ib.len() && (forall|i: int|
            0 <= i < ia.len() ==> like_nodes(
                (#[trigger] ia[i]).content,
                (#[trigger] ib[i]).content,
            )),
        (NodeView::DefinitionList { items: ia }, NodeView::DefinitionList { items: ib }) => ia.len()
            == ib.len() && (forall|i: int|
            0 <= i < ia.len() ==> ((#[trigger] ia[i]).type_ == (#[trigger] ib[i]).type_
                && like_nodes(ia[i].content, ib[i].content))),
        (NodeView::Redirect { target: ta }, NodeView::Redirect { target: tb }) => ta == tb,
        (NodeView::HorizontalDivider, NodeView::HorizontalDivider) => true,
        (NodeView::ParagraphBreak, NodeView::ParagraphBreak) => true,
        (NodeView::Newline, NodeView::Newline) => true,
        _ => false,
    }
}

/// Whether two node lists agree element by element, spans aside.
#[verifier::loop_isolation(false)]
pub fn nodes_eq(
    a: &Vec<Spanned<WikitextSimplifiedNode>>,
    b: &Vec<Spanned<WikitextSimplifiedNode>>,
) -> (r: bool)
    ensures
        r == like_nodes(crate::ast::nodes_view(a@), crate::ast::nodes_view(b@)),
    decreases a@, 1int,
{
    if a.len() != b.len() {
        return false;
    }
    let mut i: usize = 0;
    while i < a.len()
        invariant
            i <= a@.len(),
            a@.len() == b@.len(),
            forall|j: int|
                0 <= j < i ==> like(
                    #[trigger] crate::ast::nodes_view(a@)[j].value,
                    #[trigger] crate::ast::nodes_view(b@)[j].value,
                ),
        decreases a@.len() - i,
    {
        let same = node_eq(&a[i].value, &b[i].value);
        proof {
            assert(crate::ast::nodes_view(a@)[i as int].value == node_view(a@[i as int].value));
            assert(crate::ast::nodes_view(b@)[i as int].value == node_view(b@[i as int].value));
        }
        if !same {
            return false;
        }
        i += 1;
    }
    true
}

/// Whether two optional node lists agree, spans aside.
fn opt_nodes_eq(
    a: &Option<Vec<Spanned<WikitextSimplifiedNode>>>,
    b: &Option<Vec<Spanned<WikitextSimplifiedNode>>>,
) -> (r: bool)
    ensures
        r == like_opt_nodes(
            (match a {
                Some(x) => Some(crate::ast::nodes_view(x@)),
                None => None,
            }),
            (match b {
                Some(y) => Some(crate::ast::nodes_view(y@)),
                None => None,
            }),
        ),
    decreases a, 2int,
{
    match (a, b) {
        (Some(x), Some(y)) => nodes_eq(x, y),
        (None, None) => true,
        _ => false,
    }
}

/// Whether two optional strings hold the same characters.
fn opt_string_eq(a: &Option<String>, b: &Option<String>) -> (r: bool)
    ensures
        r == ((match a {
            Some(x) => Some(x@),
            None => None::<Seq<char>>,
        }) == (match b {
            Some(y) => Some(y@),
            None => None::<Seq<char>>,
        })),
{
    match (a, b) {
        (Some(x), Some(y)) => string_eq_str(x, y.as_str()),
        (None, None) => true,
        _ => false,
    }
}

/// Whether two parameter lists hold the same names and values.
#[verifier::loop_isolation(false)]
fn params_eq(
    a: &Vec<crate::ast::TemplateParameter>,
    b: &Vec<crate::ast::TemplateParameter>,
) -> (r: bool)
    ensures
        r == (crate::ast::parameters_view(a@) == crate::ast::parameters_view(b@)),
{
    if a.len() != b.len() {
        proof {
            assert(crate::ast::parameters_view(a@).len() != crate::ast::parameters_view(
                b@,
            ).len());
        }
        return false;
    }
    let mut i: usize = 0;
    while i < a.len()
        invariant
            i <= a@.len(),
            a@.len() == b@.len(),
            forall|j: int|
                0 <= j < i ==> #[trigger] crate::ast::parameters_view(a@)[j]
                    == crate::ast::parameters_view(b@)[j],
        decreases a@.len() - i,
    {
        let names_same = string_eq_str(&a[i].name, b[i].name.as_str());
        let values_same = string_eq_str(&a[i].value, b[i].value.as_str());
        if !(names_same && values_same) {
            proof {
                assert(crate::ast::parameters_view(a@)[i as int] != crate::ast::parameters_view(
                    b@,
                )[i as int]);
            }
            return false;
        }
        i += 1;
    }
    proof {
        assert(crate::ast::parameters_view(a@) =~= crate::ast::parameters_view(b@));
    }
    true
}

/// Whether two caption lists agree, spans aside.
#[verifier::loop_isolation(false)]
fn captions_eq(
    a: &Vec<crate::ast::WikitextSimplifiedTableCaption>,
    b: &Vec<crate::ast::WikitextSimplifiedTableCaption>,
) -> (r: bool)
    ensures
        r == (crate::ast::captions_view(a@).len() == crate::ast::captions_view(b@).len()
            && (forall|i: int|
            0 <= i < crate::ast::captions_view(a@).len() ==> like_caption(
                #[trigger] crate::ast::captions_view(a@)[i],
                #[trigger] crate::ast::captions_view(b@)[i],
            ))),
    decreases a@, 4int,
{
    if a.len() != b.len() {
        return false;
    }
    let mut i: usize = 0;
    while i < a.len()
        invariant
            i <= a@.len(),
            a@.len() == b@.len(),
            forall|j: int|
                0 <= j < i ==> like_caption(
                    #[trigger] crate::ast::captions_view(a@)[j],
                    #[trigger] crate::ast::captions_view(b@)[j],
                ),
        decreases a@.len() - i,
    {
        let ok = opt_nodes_eq(&a[i].attributes, &b[i].attributes) && nodes_eq(
            &a[i].content,
            &b[i].content,
        );
        proof {
            assert(crate::ast::captions_view(a@)[i as int] == crate::ast::caption_view(
                a@[i as int],
            ));
            assert(crate::ast::captions_view(b@)[i as int] == crate::ast::caption_view(
                b@[i as int],
            ));
        }
        if !ok {
            return false;
        }
        i += 1;
    }
    true
}

/// Whether two cell lists agree, spans aside.
#[verifier::loop_isolation(false)]
fn cells_eq(
    a: &Vec<crate::ast::WikitextSimplifiedTableCell>,
    b: &Vec<crate::ast::WikitextSimplifiedTableCell>,
) -> (r: bool)
    ensures
        r == (crate::ast::cells_view(a@).len() == crate::ast::cells_view(b@).len() && (forall|i: int|
            0 <= i < crate::ast::cells_view(a@).len() ==> like_cell(
                #[trigger] crate::ast::cells_view(a@)[i],
                #[trigger] crate::ast::cells_view(b@)[i],
            ))),
    decreases a@, 4int,
{
    if a.len() != b.len() {
        return false;
    }
    let mut i: usize = 0;
    while i < a.len()
        invariant
            i <= a@.len(),
            a@.len() == b@.len(),
            forall|j: int|
                0 <= j < i ==> like_cell(
                    #[trigger] crate::ast::cells_view(a@)[j],
                    #[trigger] crate::ast::cells_view(b@)[j],
                ),
        decreases a@.len() - i,
    {
        let ok = a[i].is_header == b[i].is_header && opt_nodes_eq(&a[i].attributes, &b[i].attributes)
            && nodes_eq(&a[i].content, &b[i].content);
        proof {
            assert(crate::ast::cells_view(a@)[i as int] == crate::ast::cell_view(a@[i as int]));
            assert(crate::ast::cells_view(b@)[i as int] == crate::ast::cell_view(b@[i as int]));
        }
        if !ok {
            return false;
        }
        i += 1;
    }
    true
}

/// Whether two row lists agree, spans aside.
#[verifier::loop_isolation(false)]
fn rows_eq(
    a: &Vec<crate::ast::WikitextSimplifiedTableRow>,
    b: &Vec<crate::ast::WikitextSimplifiedTableRow>,
) -> (r: bool)
    ensures
        r == (crate::ast::rows_view(a@).len() == crate::ast::rows_view(b@).len() && (forall|i: int|
            0 <= i < crate::ast::rows_view(a@).len() ==> like_row(
                #[trigger] crate::ast::rows_view(a@)[i],
                #[trigger] crate::ast::rows_view(b@)[i],
            ))),
    decreases a@, 5int,
{
    if a.len() != b.len() {
        return false;
    }
    let mut i: usize = 0;
    while i < a.len()
        invariant
            i <= a@.len(),
            a@.len() == b@.len(),
            forall|j: int|
                0 <= j < i ==> like_row(
                    #[trigger] crate::ast::rows_view(a@)[j],
                    #[trigger] crate::ast::rows_view(b@)[j],
                ),
        decreases a@.len() - i,
    {
        let ok = nodes_eq(&a[i].attributes, &b[i].attributes) && cells_eq(&a[i].cells, &b[i].cells);
        proof {
            assert(crate::ast::rows_view(a@)[i as int] == crate::ast::row_view(a@[i as int]));
            assert(crate::ast::rows_view(b@)[i as int] == crate::ast::row_view(b@[i as int]));
        }
        if !ok {
            return false;
        }
        i += 1;
    }
    true
}

/// Whether two plain-list item lists agree, spans aside.
#[verifier::loop_isolation(false)]
fn list_items_eq(
    a: &Vec<crate::ast::WikitextSimplifiedListItem>,
    b: &Vec<crate::ast::WikitextSimplifiedListItem>,
) -> (r: bool)
    ensures
        r == (crate::ast::list_items_view(a@).len() == crate::ast::list_items_view(b@).len() && (
        forall|i: int|
            0 <= i < crate::ast::list_items_view(a@).len() ==> like_nodes(
                (#[trigger] crate::ast::list_items_view(a@)[i]).content,
                (#[trigger] crate::ast::list_items_view(b@)[i]).content,
            ))),
    decreases a@, 4int,
{
    if a.len() != b.len() {
        return false;
    }
    let mut i: usize = 0;
    while i < a.len()
        invariant
            i <= a@.len(),
            a@.len() == b@.len(),
            forall|j: int|
                0 <= j < i ==> like_nodes(
                    (#[trigger] crate::ast::list_items_view(a@)[j]).content,
                    (#[trigger] crate::ast::list_items_view(b@)[j]).content,
                ),
        decreases a@.len() - i,
    {
        let same = nodes_eq(&a[i].content, &b[i].content);
        proof {
            assert(crate::ast::list_items_view(a@)[i as int] == crate::ast::list_item_view(
                a@[i as int],
            ));
            assert(crate::ast::list_items_view(b@)[i as int] == crate::ast::list_item_view(
                b@[i as int],
            ));
        }
        if !same {
            return false;
        }
        i += 1;
    }
    true
}

/// Whether two definition-list item lists agree, spans aside.
#[verifier::loop_isolation(false)]
fn definition_list_items_eq(
    a: &Vec<crate::ast::WikitextSimplifiedDefinitionListItem>,
    b: &Vec<crate::ast::WikitextSimplifiedDefinitionListItem>,
) -> (r: bool)
    ensures
        r == (crate::ast::definition_list_items_view(a@).len()
            == crate::ast::definition_list_items_view(b@).len() && (forall|i: int|
            0 <= i < crate::ast::definition_list_items_view(a@).len() ==> ((
            #[trigger] crate::ast::definition_list_items_view(a@)[i]).type_ == (
            #[trigger] crate::ast::definition_list_items_view(b@)[i]).type_ && like_nodes(
                crate::ast::definition_list_items_view(a@)[i].content,
                crate::ast::definition_list_items_view(b@)[i].content,
            )))),
    decreases a@, 4int,
{
    if a.len() != b.len() {
        return false;
    }
    let mut i: usize = 0;
    while i < a.len()
        invariant
            i <= a@.len(),
            a@.len() == b@.len(),
            forall|j: int|
                0 <= j < i ==> ((#[trigger] crate::ast::definition_list_items_view(a@)[j]).type_
                    == (#[trigger] crate::ast::definition_list_items_view(b@)[j]).type_
                    && like_nodes(
                    crate::ast::definition_list_items_view(a@)[j].content,
                    crate::ast::definition_list_items_view(b@)[j].content,
                )),
        decreases a@.len() - i,
    {
        let ok = a[i].type_ == b[i].type_ && nodes_eq(&a[i].content, &b[i].content);
        proof {
            assert(crate::ast::definition_list_items_view(a@)[i as int]
                == crate::ast::definition_list_item_view(a@[i as int]));
            assert(crate::ast::definition_list_items_view(b@)[i as int]
                == crate::ast::definition_list_item_view(b@[i as int]));
        }
        if !ok {
            return false;
        }
        i += 1;
    }
    true
}

/// Whether two nodes agree in kind and content, spans aside.
#[verifier::rlimit(60)]
pub fn node_eq(a: &WikitextSimplifiedNode, b: &WikitextSimplifiedNode) -> (r: bool)
    ensures
        r == like(node_view(*a), node_view(*b)),
    decreases *a, 6int,
{
    match (a, b) {
        (
            WikitextSimplifiedNode::Fragment { children: ca },
            WikitextSimplifiedNode::Fragment { children: cb },
        ) => nodes_eq(ca, cb),
        (
            WikitextSimplifiedNode::Template { name: na, parameters: pa },
            WikitextSimplifiedNode::Template { name: nb, parameters: pb },
        ) => string_eq_str(na, nb.as_str()) && params_eq(pa, pb),
        (
            WikitextSimplifiedNode::TemplateParameterUse { name: na, default: da },
            WikitextSimplifiedNode::TemplateParameterUse { name: nb, default: db },
        ) => string_eq_str(na, nb.as_str()) && opt_nodes_eq(da, db),
        (
            WikitextSimplifiedNode::Heading { level: la, children: ca },
            WikitextSimplifiedNode::Heading { level: lb, children: cb },
        ) => *la == *lb && nodes_eq(ca, cb),
        (
            WikitextSimplifiedNode::Link { text: ta, title: la },
            WikitextSimplifiedNode::Link { text: tb, title: lb },
        ) => string_eq_str(ta, tb.as_str()) && string_eq_str(la, lb.as_str()),
        (
            WikitextSimplifiedNode::ExtLink { link: la, text: ta },
            WikitextSimplifiedNode::ExtLink { link: lb, text: tb },
        ) => string_eq_str(la, lb.as_str()) && opt_string_eq(ta, tb),
        (
            WikitextSimplifiedNode::Bold { children: ca },
            WikitextSimplifiedNode::Bold { children: cb },
        ) => nodes_eq(ca, cb),
        (
            WikitextSimplifiedNode::Italic { children: ca },
            WikitextSimplifiedNode::Italic { children: cb },
        ) => nodes_eq(ca, cb),
        (
            WikitextSimplifiedNode::Blockquote { children: ca },
            WikitextSimplifiedNode::Blockquote { children: cb },
        ) => nodes_eq(ca, cb),
        (
            WikitextSimplifiedNode::Superscript { children: ca },
            WikitextSimplifiedNode::Superscript { children: cb },
        ) => nodes_eq(ca, cb),
        (
            WikitextSimplifiedNode::Subscript { children: ca },
            WikitextSimplifiedNode::Subscript { children: cb },
        ) => nodes_eq(ca, cb),
        (
            WikitextSimplifiedNode::Small { children: ca },
            WikitextSimplifiedNode::Small { children: cb },
        ) => nodes_eq(ca, cb),
        (
            WikitextSimplifiedNode::Preformatted { children: ca },
            WikitextSimplifiedNode::Preformatted { children: cb },
        ) => nodes_eq(ca, cb),
        (
            WikitextSimplifiedNode::Tag { name: na, attributes: aa, children: ca },
            WikitextSimplifiedNode::Tag { name: nb, attributes: ab, children: cb },
        ) => string_eq_str(na, nb.as_str()) && opt_string_eq(aa, ab) && nodes_eq(ca, cb),
        (
            WikitextSimplifiedNode::Text { text: ta },
            WikitextSimplifiedNode::Text { text: tb },
        ) => string_eq_str(ta, tb.as_str()),
        (
            WikitextSimplifiedNode::Table { attributes: aa, captions: ca, rows: ra },
            WikitextSimplifiedNode::Table { attributes: ab, captions: cb, rows: rb },
        ) => nodes_eq(aa, ab) && captions_eq(ca, cb) && rows_eq(ra, rb),
        (
            WikitextSimplifiedNode::OrderedList { items: ia },
            WikitextSimplifiedNode::OrderedList { items: ib },
        ) => list_items_eq(ia, ib),
        (
            WikitextSimplifiedNode::UnorderedList { items: ia },
            WikitextSimplifiedNode::UnorderedList { items: ib },
        ) => list_items_eq(ia, ib),
        (
            WikitextSimplifiedNode::DefinitionList { items: ia },
            WikitextSimplifiedNode::DefinitionList { items: ib },
        ) => definition_list_items_eq(ia, ib),
        (
            WikitextSimplifiedNode::Redirect { target: ta },
            WikitextSimplifiedNode::Redirect { target: tb },
        ) => string_eq_str(ta, tb.as_str()),
        (
            WikitextSimplifiedNode::HorizontalDivider,
            WikitextSimplifiedNode::HorizontalDivider,
        ) => true,
        (WikitextSimplifiedNode::ParagraphBreak, WikitextSimplifiedNode::ParagraphBreak) => true,
        (WikitextSimplifiedNode::Newline, WikitextSimplifiedNode::Newline) => true,
        _ => false,
    }
}

impl PartialEq for WikitextSimplifiedNode {
    /// Content equality: spans inside the trees take no part.
    fn eq(&self, other: &Self) -> (r: bool) {
        node_eq(self, other)
    }
}

impl vstd::std_specs::cmp::PartialEqSpecImpl for WikitextSimplifiedNode {
    open spec fn obeys_eq_spec() -> bool {
        true
    }

    open spec fn eq_spec(&self, other: &Self) -> bool {
        like(node_view(*self), node_view(*other))
    }
}

impl PartialEq for Spanned<WikitextSimplifiedNode> {
    /// Content equality of the carried values: spans take no part.
    fn eq(&self, other: &Self) -> (r: bool) {
        node_eq(&self.value, &other.value)
    }
}

impl vstd::std_specs::cmp::PartialEqSpecImpl for Spanned<WikitextSimplifiedNode> {
    open spec fn obeys_eq_spec() -> bool {
        true
    }

    open spec fn eq_spec(&self, other: &Self) -> bool {
        like(spanned_view(*self).value, spanned_view(*other).value)
    }
}

} // verus!
