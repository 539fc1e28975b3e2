//! Extraction of plain text content from grammar-level nodes.
//!
//! Joins the text content of nodes without separators and trims the result;
//! formatting is ignored.  A couple of well-known templates (`lang` and the
//! transliteration family) contribute the text of one of their parameters.

use vstd::prelude::*;

use crate::grammar::{GrammarNode, GrammarTemplateParameter};
use crate::text::{push_char, spec_trim, string_eq_str, trim_str};

verus! {

/// Configuration for inner-text extraction.
#[derive(Debug, Clone, Copy)]
pub struct InnerTextConfig {
    /// Whether to stop at the first `<br>` tag.
    pub stop_after_br: bool,
}

impl Default for InnerTextConfig {
    /// The default configuration does not stop at `<br>`.
    fn default() -> (r: Self)
        ensures
            r.stop_after_br == false,
    {
        InnerTextConfig { stop_after_br: false }
    }
}

/// The ASCII-lowercase form of a character.
pub open spec fn lower_ascii_char(c: char) -> char {
    if 65 <= (c as u32) <= 90 {
        ((c as u32) + 32) as char
    } else {
        c
    }
}

/// The ASCII-lowercase form of a character sequence.
pub open spec fn lower_ascii(s: Seq<char>) -> Seq<char> {
    Seq::new(s.len(), |i: int| lower_ascii_char(s[i]))
}

/// The ASCII-lowercase form of a character.
pub fn lower_ascii_char_exec(c: char) -> (r: char)
    ensures
        r == lower_ascii_char(c),
{
    let u = c as u32;
    if 65 <= u && u <= 90 {
        match c {
            'A' => 'a',
            'B' => 'b',
            'C' => 'c',
            'D' => 'd',
            'E' => 'e',
            'F' => 'f',
            'G' => 'g',
            'H' => 'h',
            'I' => 'i',
            'J' => 'j',
            'K' => 'k',
            'L' => 'l',
            'M' => 'm',
            'N' => 'n',
            'O' => 'o',
            'P' => 'p',
            'Q' => 'q',
            'R' => 'r',
            'S' => 's',
            'T' => 't',
            'U' => 'u',
            'V' => 'v',
            'W' => 'w',
            'X' => 'x',
            'Y' => 'y',
            _ => 'z',
        }
    } else {
        c
    }
}

/// A fresh string equal to `s` with ASCII letters lowered.
#[verifier::loop_isolation(false)]
pub fn lower_ascii_str(s: &str) -> (r: String)
    ensures
        r@ == lower_ascii(s@),
{
    let len = s.unicode_len();
    let mut out = String::new();
    let mut i: usize = 0;
    while i < len
        invariant
            i <= len,
            out@ =~= lower_ascii(s@).take(i as int),
        decreases len - i,
    {
        push_char(&mut out, lower_ascii_char_exec(s.get_char(i)));
        proof {
            assert(out@ =~= lower_ascii(s@).take(i + 1));
        }
        i += 1;
    }
    proof {
        assert(out@ =~= lower_ascii(s@));
    }
    out
}

/// Whether a node is a `<br>` start tag, at which extraction stops when so
/// configured.
pub open spec fn is_br_start_tag(g: GrammarNode) -> bool {
    match g {
        GrammarNode::StartTag { name, .. } => name@ == "br"@,
        _ => false,
    }
}

/// The concatenated inner text of a node list, stopping at the first `<br>`
/// start tag when `stop_br` is set.  The result is not yet trimmed.
pub open spec fn spec_inner_cat(gs: Seq<GrammarNode>, stop_br: bool) -> Seq<char>
    decreases gs, 0int,
{
    if gs.len() == 0 {
        Seq::empty()
    } else if stop_br && is_br_start_tag(gs[0]) {
        Seq::empty()
    } else {
        spec_node_inner_text(gs[0], stop_br) + spec_inner_cat(gs.drop_first(), stop_br)
    }
}

/// The inner text of a node list: the concatenation of each node's inner
/// text, trimmed of surrounding whitespace.
pub open spec fn spec_nodes_inner_text(gs: Seq<GrammarNode>, stop_br: bool) -> Seq<char>
    decreases gs, 1int,
{
    spec_trim(spec_inner_cat(gs, stop_br))
}

/// The inner text of the first parameter named `text`, if one exists.
pub open spec fn spec_lang_text_param(ps: Seq<GrammarTemplateParameter>, stop_br: bool) -> Option<
    Seq<char>,
>
    decreases ps, 2int,
{
    if ps.len() == 0 {
        None
    } else {
        let p = ps[0];
        match p.name {
            Some(n) => if spec_nodes_inner_text(n@, stop_br) == "text"@ {
                Some(spec_nodes_inner_text(p.value@, stop_br))
            } else {
                spec_lang_text_param(ps.drop_first(), stop_br)
            },
            None => spec_lang_text_param(ps.drop_first(), stop_br),
        }
    }
}

/// The number of unnamed (positional) parameters.
pub open spec fn spec_count_unnamed(ps: Seq<GrammarTemplateParameter>) -> int
    decreases ps,
{
    if ps.len() == 0 {
        0
    } else {
        (if ps[0].name is None {
            1int
        } else {
            0int
        }) + spec_count_unnamed(ps.drop_first())
    }
}

/// The inner text of the value of the unnamed (positional) parameter with
/// 0-based ordinal `k`, if it exists.
pub open spec fn spec_nth_unnamed_text(
    ps: Seq<GrammarTemplateParameter>,
    k: int,
    stop_br: bool,
) -> Option<Seq<char>>
    decreases ps, 2int,
{
    if ps.len() == 0 {
        None
    } else if ps[0].name is None {
        if k == 0 {
            Some(spec_nodes_inner_text(ps[0].value@, stop_br))
        } else {
            spec_nth_unnamed_text(ps.drop_first(), k - 1, stop_br)
        }
    } else {
        spec_nth_unnamed_text(ps.drop_first(), k, stop_br)
    }
}

/// The inner text a `lang` template contributes: the parameter named `text`,
/// or else the second unnamed parameter, or else nothing.
pub open spec fn spec_lang_inner_text(ps: Seq<GrammarTemplateParameter>, stop_br: bool) -> Seq<
    char,
>
    decreases ps, 3int,
{
    match spec_lang_text_param(ps, stop_br) {
        Some(t) => t,
        None => match spec_nth_unnamed_text(ps, 1, stop_br) {
            Some(t) => t,
            None => Seq::empty(),
        },
    }
}

/// The inner text a transliteration template contributes: the third unnamed
/// parameter when there are at least three, else the second, else nothing.
pub open spec fn spec_translit_inner_text(ps: Seq<GrammarTemplateParameter>, stop_br: bool) -> Seq<
    char,
>
    decreases ps, 3int,
{
    if spec_count_unnamed(ps) >= 3 {
        match spec_nth_unnamed_text(ps, 2, stop_br) {
            Some(t) => t,
            None => Seq::empty(),
        }
    } else {
        match spec_nth_unnamed_text(ps, 1, stop_br) {
            Some(t) => t,
            None => Seq::empty(),
        }
    }
}

/// The inner text of the first parameter named `text`, if one exists.
#[verifier::loop_isolation(false)]
fn lang_text_param_exec(ps: &[GrammarTemplateParameter], config: InnerTextConfig) -> (r: Option<
    String,
>)
    ensures
        match &r {
            Some(t) => spec_lang_text_param(ps@, config.stop_after_br) == Some(t@),
            None => spec_lang_text_param(ps@, config.stop_after_br) is None,
        },
    decreases ps@, 2int,
{
    let ghost stop = config.stop_after_br;
    proof {
        assert(ps@.skip(0) =~= ps@);
    }
    let mut i: usize = 0;
    while i < ps.len()
        invariant
            i <= ps@.len(),
            spec_lang_text_param(ps@, stop) == spec_lang_text_param(ps@.skip(i as int), stop),
        decreases ps@.len() - i,
    {
        proof {
            assert(ps@.skip(i as int)[0] == ps@[i as int]);
            assert(ps@.skip(i as int).drop_first() =~= ps@.skip(i + 1));
        }
        match &ps[i].name {
            Some(n) => {
                let nt = nodes_inner_text_with_config(n.as_slice(), config);
                if string_eq_str(&nt, "text") {
                    let vt = nodes_inner_text_with_config(ps[i].value.as_slice(), config);
                    return Some(vt);
                }
            },
            None => {},
        }
        i += 1;
    }
    proof {
        assert(ps@.skip(ps@.len() as int) =~= Seq::<GrammarTemplateParameter>::empty());
    }
    None
}

/// The inner text of the value of the unnamed parameter with 0-based ordinal
/// `k`, if it exists.
#[verifier::loop_isolation(false)]
fn nth_unnamed_text_exec(ps: &[GrammarTemplateParameter], k: usize, config: InnerTextConfig) -> (r:
    Option<String>)
    ensures
        match &r {
            Some(t) => spec_nth_unnamed_text(ps@, k as int, config.stop_after_br) == Some(t@),
            None => spec_nth_unnamed_text(ps@, k as int, config.stop_after_br) is None,
        },
    decreases ps@, 2int,
{
    let ghost stop = config.stop_after_br;
    proof {
        assert(ps@.skip(0) =~= ps@);
    }
    let mut i: usize = 0;
    let mut rem: usize = k;
    while i < ps.len()
        invariant
            i <= ps@.len(),
            rem <= k,
            spec_nth_unnamed_text(ps@, k as int, stop) == spec_nth_unnamed_text(
                ps@.skip(i as int),
                rem as int,
                stop,
            ),
        decreases ps@.len() - i,
    {
        proof {
            assert(ps@.skip(i as int)[0] == ps@[i as int]);
            assert(ps@.skip(i as int).drop_first() =~= ps@.skip(i + 1));
        }
        match &ps[i].name {
            Some(_) => {},
            None => {
                if rem == 0 {
                    let vt = nodes_inner_text_with_config(ps[i].value.as_slice(), config);
                    return Some(vt);
                }
                rem -= 1;
            },
        }
        i += 1;
    }
    proof {
        assert(ps@.skip(ps@.len() as int) =~= Seq::<GrammarTemplateParameter>::empty());
    }
    None
}

/// The number of unnamed (positional) parameters.
#[verifier::loop_isolation(false)]
fn count_unnamed_exec(ps: &[GrammarTemplateParameter]) -> (r: usize)
    ensures
        r as int == spec_count_unnamed(ps@),
{
    proof {
        assert(ps@.skip(0) =~= ps@);
    }
    let mut i: usize = 0;
    let mut n: usize = 0;
    while i < ps.len()
        invariant
            i <= ps@.len(),
            n <= i,
            spec_count_unnamed(ps@) == n + spec_count_unnamed(ps@.skip(i as int)),
        decreases ps@.len() - i,
    {
        proof {
            assert(ps@.skip(i as int)[0] == ps@[i as int]);
            assert(ps@.skip(i as int).drop_first() =~= ps@.skip(i + 1));
        }
        match &ps[i].name {
            Some(_) => {},
            None => {
                n += 1;
            },
        }
        i += 1;
    }
    proof {
        assert(ps@.skip(ps@.len() as int) =~= Seq::<GrammarTemplateParameter>::empty());
        lemma_count_unnamed_nonneg(ps@.skip(ps@.len() as int));
    }
    n
}

/// An unnamed-parameter count is never negative.
proof fn lemma_count_unnamed_nonneg(ps: Seq<GrammarTemplateParameter>)
    ensures
        spec_count_unnamed(ps) >= 0,
    decreases ps,
{
    if ps.len() > 0 {
        lemma_count_unnamed_nonneg(ps.drop_first());
    }
}

/// Extracts the text content of a sequence of nodes: each node's inner text
/// joined without separators, then trimmed.
#[verifier::loop_isolation(false)]
pub fn nodes_inner_text_with_config(nodes: &[GrammarNode], config: InnerTextConfig) -> (r: String)
    ensures
        r@ == spec_nodes_inner_text(nodes@, config.stop_after_br),
    decreases nodes@, 1int,
{
    let ghost stop = config.stop_after_br;
    proof {
        assert(nodes@.skip(0) =~= nodes@);
    }
    let mut out = String::new();
    let mut i: usize = 0;
    let mut stopped = false;
    while i < nodes.len() && !stopped
        invariant
            i <= nodes@.len(),
            !stopped ==> spec_inner_cat(nodes@, stop) == out@ + spec_inner_cat(
                nodes@.skip(i as int),
                stop,
            ),
            stopped ==> spec_inner_cat(nodes@, stop) == out@,
        decreases nodes@.len() - i + (if stopped { 0int } else { 1int }),
    {
        proof {
            assert(nodes@.skip(i as int)[0] == nodes@[i as int]);
            assert(nodes@.skip(i as int).drop_first() =~= nodes@.skip(i + 1));
        }
        let is_br = match &nodes[i] {
            GrammarNode::StartTag { name, .. } => string_eq_str(name, "br"),
            _ => false,
        };
        if config.stop_after_br && is_br {
            stopped = true;
        } else {
            let t = node_inner_text(&nodes[i], config);
            out.append(t.as_str());
            i += 1;
        }
    }
    proof {
        if !stopped {
            assert(nodes@.skip(nodes@.len() as int) =~= Seq::<GrammarNode>::empty());
        }
    }
    trim_str(out.as_str())
}

/// Extracts the text content of a sequence of nodes with the default
/// configuration.
pub fn nodes_inner_text(nodes: &[GrammarNode]) -> (r: String)
    ensures
        r@ == spec_nodes_inner_text(nodes@, false),
{
    nodes_inner_text_with_config(nodes, InnerTextConfig::default())
}

/// Extracts the text content of a single node, ignoring formatting.
#[verifier::loop_isolation(false)]
pub fn node_inner_text(node: &GrammarNode, config: InnerTextConfig) -> (r: String)
    ensures
        r@ == spec_node_inner_text(*node, config.stop_after_br),
    decreases *node, 4int,
{
    match node {
        GrammarNode::CharacterEntity { character, .. } => {
            let mut s = String::new();
            push_char(&mut s, *character);
            s
        },
        GrammarNode::Heading { nodes, .. } => nodes_inner_text_with_config(
            nodes.as_slice(),
            config,
        ),
        GrammarNode::Image { text, .. } => nodes_inner_text_with_config(text.as_slice(), config),
        GrammarNode::Link { text, .. } => nodes_inner_text_with_config(text.as_slice(), config),
        GrammarNode::Preformatted { nodes, .. } => nodes_inner_text_with_config(
            nodes.as_slice(),
            config,
        ),
        GrammarNode::Text { value, .. } => value.clone(),
        GrammarNode::Template { name, parameters, .. } => {
            let nt = nodes_inner_text_with_config(name.as_slice(), config);
            let lname = lower_ascii_str(nt.as_str());
            if string_eq_str(&lname, "lang") {
                match lang_text_param_exec(parameters.as_slice(), config) {
                    Some(t) => t,
                    None => match nth_unnamed_text_exec(parameters.as_slice(), 1, config) {
                        Some(t) => t,
                        None => String::new(),
                    },
                }
            } else if string_eq_str(&lname, "transliteration") || string_eq_str(&lname, "tlit")
                || string_eq_str(&lname, "transl") {
                let count = count_unnamed_exec(parameters.as_slice());
                let k: usize = if count >= 3 {
                    2
                } else {
                    1
                };
                match nth_unnamed_text_exec(parameters.as_slice(), k, config) {
                    Some(t) => t,
                    None => String::new(),
                }
            } else {
                String::new()
            }
        },
        _ => String::new(),
    }
}

/// The inner text of one node: its plain text content, with formatting
/// ignored.
pub open spec fn spec_node_inner_text(g: GrammarNode, stop_br: bool) -> Seq<char>
    decreases g, 4int,
{
    match g {
        GrammarNode::CharacterEntity { character, .. } => seq![character],
        GrammarNode::Heading { nodes, .. } => spec_nodes_inner_text(nodes@, stop_br),
        GrammarNode::Image { text, .. } => spec_nodes_inner_text(text@, stop_br),
        GrammarNode::Link { text, .. } => spec_nodes_inner_text(text@, stop_br),
        GrammarNode::Preformatted { nodes, .. } => spec_nodes_inner_text(nodes@, stop_br),
        GrammarNode::Text { value, .. } => value@,
        GrammarNode::Template { name, parameters, .. } => {
            let lname = lower_ascii(spec_nodes_inner_text(name@, stop_br));
            if lname == "lang"@ {
                spec_lang_inner_text(parameters@, stop_br)
            } else if lname == "transliteration"@ || lname == "tlit"@ || lname == "transl"@ {
                spec_translit_inner_text(parameters@, stop_br)
            } else {
                Seq::empty()
            }
        },
        _ => Seq::empty(),
    }
}

} // verus!
