//! The page walker's output and its text rendering for an agent.

use vstd::prelude::*;
use crate::text::{contains_seq, has_suffix, occurs_at, repeat, repeat_str};

verus! {

/// What the injected walker reports for one page.
pub struct SnapshotResult {
    pub url: String,
    pub title: String,
    pub tree: Option<WalkerNode>,
}

/// One element of the walked tree.
pub struct WalkerNode {
    pub tag: String,
    pub role: String,
    pub name: Option<String>,
    pub value: Option<String>,
    pub checked: Option<bool>,
    pub disabled: bool,
    pub hidden: bool,
    pub element_ref: Option<String>,
    pub children: Vec<WalkerNode>,
}

/// ` "<text>"`-style part of a line, omitted when the text is absent or empty.
pub open spec fn labeled(prefix: Seq<char>, v: Option<String>) -> Seq<char> {
    match v {
        Some(x) => if x@.len() > 0 { prefix + x@ + "\""@ } else { Seq::empty() },
        None => Seq::empty(),
    }
}

/// The line for one node at `depth`: indentation, `- <role>`, the quoted
/// name, `value="..."`, the `checked`/`disabled`/`hidden` flags, `[ref]`.
pub open spec fn node_line(n: WalkerNode, depth: nat) -> Seq<char> {
    repeat("  "@, depth) + "- "@ + n.role@
        + labeled(" \""@, n.name)
        + labeled(" value=\""@, n.value)
        + flags(n)
        + "\n"@
}

/// The `checked`/`disabled`/`hidden` flags and the `[ref]` of a line.
pub open spec fn flags(n: WalkerNode) -> Seq<char> {
    (if n.checked == Some(true) { " checked"@ } else { Seq::empty() })
        + (if n.disabled { " disabled"@ } else { Seq::empty() })
        + (if n.hidden { " hidden"@ } else { Seq::empty() })
        + (match n.element_ref { Some(r) => " ["@ + r@ + "]"@, None => Seq::empty() })
}

/// How a node's line ends: ` [<ref>]` when it has a ref, then the newline.
pub open spec fn line_end(n: WalkerNode) -> Seq<char> {
    (match n.element_ref {
        Some(r) => " ["@ + r@ + "]"@,
        None => Seq::empty(),
    }) + "\n"@
}

/// Whether `flag` occurs in `line` before the last `end_len` characters.
pub open spec fn occurs_before_end(line: Seq<char>, flag: Seq<char>, end_len: nat) -> bool {
    exists|i: int| #[trigger] occurs_at(line, flag, i) && i + flag.len() + end_len <= line.len()
}

proof fn lemma_occurs_in_concat(a: Seq<char>, flag: Seq<char>, b: Seq<char>, end: Seq<char>)
    ensures
        occurs_before_end(a + flag + b + end, flag, end.len()),
{
    let line = a + flag + b + end;
    let i = a.len() as int;
    assert(line.subrange(i, i + flag.len()) =~= flag);
    assert(occurs_at(line, flag, i));
}

spec fn line_head(n: WalkerNode, depth: nat) -> Seq<char> {
    repeat("  "@, depth) + "- "@ + n.role@ + labeled(" \""@, n.name) + labeled(" value=\""@, n.value)
}

spec fn flag_part(set: bool, flag: Seq<char>) -> Seq<char> {
    if set { flag } else { Seq::empty() }
}

proof fn lemma_line_shape(n: WalkerNode, depth: nat)
    ensures
        node_line(n, depth) == line_head(n, depth) + flag_part(n.checked == Some(true), " checked"@)
            + flag_part(n.disabled, " disabled"@) + flag_part(n.hidden, " hidden"@) + line_end(n),
{
    assert(node_line(n, depth) =~= line_head(n, depth) + flag_part(n.checked == Some(true), " checked"@)
        + flag_part(n.disabled, " disabled"@) + flag_part(n.hidden, " hidden"@) + line_end(n));
}

/// A node's line carries every flag that is set, each before the node's
/// `[ref]`: ` checked` when checked, ` disabled` when disabled, ` hidden`
/// when hidden; and the line ends with ` [<ref>]` and a newline when the
/// node has a ref, with just the newline otherwise.
pub proof fn a_line_carries_every_set_flag_before_its_ref(n: WalkerNode, depth: nat)
    ensures
        has_suffix(node_line(n, depth), line_end(n)),
        n.checked == Some(true) ==> occurs_before_end(node_line(n, depth), " checked"@, line_end(n).len()),
        n.disabled ==> occurs_before_end(node_line(n, depth), " disabled"@, line_end(n).len()),
        n.hidden ==> occurs_before_end(node_line(n, depth), " hidden"@, line_end(n).len()),
{
    lemma_line_shape(n, depth);
    let head = line_head(n, depth);
    let c = flag_part(n.checked == Some(true), " checked"@);
    let d = flag_part(n.disabled, " disabled"@);
    let h = flag_part(n.hidden, " hidden"@);
    let e = line_end(n);
    let line = node_line(n, depth);
    assert(line.skip(line.len() - e.len()) =~= e);
    if n.checked == Some(true) {
        lemma_occurs_in_concat(head, " checked"@, d + h, e);
        assert(head + " checked"@ + (d + h) + e =~= line);
    }
    if n.disabled {
        lemma_occurs_in_concat(head + c, " disabled"@, h, e);
        assert(head + c + " disabled"@ + h + e =~= line);
    }
    if n.hidden {
        lemma_occurs_in_concat(head + c + d, " hidden"@, Seq::empty(), e);
        assert(head + c + d + " hidden"@ + Seq::<char>::empty() + e =~= line);
    }
}

proof fn lemma_contains_in_concat(a: Seq<char>, b: Seq<char>, pat: Seq<char>)
    ensures
        contains_seq(a, pat) ==> contains_seq(a + b, pat),
        contains_seq(b, pat) ==> contains_seq(a + b, pat),
{
    if contains_seq(a, pat) {
        let i = choose|i: int| occurs_at(a, pat, i);
        assert((a + b).subrange(i, i + pat.len()) =~= a.subrange(i, i + pat.len()));
        assert(occurs_at(a + b, pat, i));
    }
    if contains_seq(b, pat) {
        let i = choose|i: int| occurs_at(b, pat, i);
        let j = a.len() + i;
        assert((a + b).subrange(j, j + pat.len()) =~= b.subrange(i, i + pat.len()));
        assert(occurs_at(a + b, pat, j));
    }
}

/// Every node of a list gets its own line in the rendering of the list.
pub proof fn every_node_gets_its_line(nodes: Seq<WalkerNode>, depth: nat)
    ensures
        forall|i: int| 0 <= i < nodes.len() ==> contains_seq(render_nodes(nodes, depth), #[trigger] node_line(nodes[i], depth)),
    decreases nodes.len(),
{
    if nodes.len() > 0 {
        let front = nodes.subrange(0, nodes.len() - 1);
        let last = nodes.last();
        every_node_gets_its_line(front, depth);
        let a = render_nodes(front, depth);
        let l = node_line(last, depth);
        let b = render_nodes(last.children@, depth + 1);
        assert(render_nodes(nodes, depth) == a + l + b);
        assert forall|i: int| 0 <= i < nodes.len() implies contains_seq(render_nodes(nodes, depth), #[trigger] node_line(nodes[i], depth)) by {
            let p = node_line(nodes[i], depth);
            if i < nodes.len() - 1 {
                assert(front[i] == nodes[i]);
                lemma_contains_in_concat(a, l, p);
            } else {
                assert(occurs_at(l, l, 0)) by {
                    assert(l.subrange(0, l.len() as int) =~= l);
                }
                lemma_contains_in_concat(a, l, p);
            }
            lemma_contains_in_concat(a + l, b, p);
        }
    }
}

/// A page's rendering holds the line of every top-level node of its tree,
/// each carrying that node's flags (see
/// `a_line_carries_every_set_flag_before_its_ref`).
pub proof fn the_page_shows_each_top_level_node(r: SnapshotResult)
    ensures
        r.tree matches Some(t) ==> forall|i: int| 0 <= i < t.children@.len()
            ==> contains_seq(spec_render(r), #[trigger] node_line(t.children@[i], 1)),
{
    if let Some(t) = r.tree {
        every_node_gets_its_line(t.children@, 1);
        let head = "page: \""@ + r.title@ + "\" url: "@ + r.url@ + "\n"@;
        assert(spec_render(r) == head + render_nodes(t.children@, 1));
        assert forall|i: int| 0 <= i < t.children@.len() implies contains_seq(spec_render(r), #[trigger] node_line(t.children@[i], 1)) by {
            lemma_contains_in_concat(head, render_nodes(t.children@, 1), node_line(t.children@[i], 1));
        }
    }
}

/// The lines for `nodes` and all their descendants, depth first.
pub open spec fn render_nodes(nodes: Seq<WalkerNode>, depth: nat) -> Seq<char>
    decreases nodes,
{
    if nodes.len() == 0 {
        Seq::empty()
    } else {
        let last = nodes.last();
        proof {
            assert(decreases_to!(nodes => nodes[nodes.len() - 1]));
            assert(decreases_to!(last => last.children));
        }
        render_nodes(nodes.subrange(0, nodes.len() - 1), depth)
            + node_line(last, depth)
            + render_nodes(last.children@, depth + 1)
    }
}

/// The nesting depth of `nodes` (0 for none).
pub open spec fn height(nodes: Seq<WalkerNode>) -> nat
    decreases nodes,
{
    if nodes.len() == 0 {
        0
    } else {
        let last = nodes.last();
        proof {
            assert(decreases_to!(nodes => nodes[nodes.len() - 1]));
            assert(decreases_to!(last => last.children));
        }
        let a = height(nodes.subrange(0, nodes.len() - 1));
        let b = 1 + height(last.children@);
        if a >= b { a } else { b }
    }
}

proof fn lemma_height_prefix(nodes: Seq<WalkerNode>, i: int)
    requires
        0 <= i < nodes.len(),
    ensures
        1 + height(nodes[i].children@) <= height(nodes),
        height(nodes.subrange(0, i)) <= height(nodes),
    decreases nodes.len(),
{
    let p = nodes.subrange(0, nodes.len() - 1);
    if i < nodes.len() - 1 {
        lemma_height_prefix(p, i);
        assert(p[i] == nodes[i]);
        assert(p.subrange(0, i) =~= nodes.subrange(0, i));
    } else {
        assert(p =~= nodes.subrange(0, i));
    }
}

/// The whole rendering: a `page: "<title>" url: <url>` header, then the
/// children of the root, one line each, indented two spaces per level.
pub open spec fn spec_render(r: SnapshotResult) -> Seq<char> {
    "page: \""@ + r.title@ + "\" url: "@ + r.url@ + "\n"@ + match r.tree {
        Some(t) => render_nodes(t.children@, 1),
        None => Seq::empty(),
    }
}

fn push_labeled(out: &mut String, prefix: &str, v: &Option<String>)
    ensures
        final(out)@ == old(out)@ + labeled(prefix@, *v),
{
    match v {
        Some(x) => {
            if !x.as_str().is_empty() {
                out.append(prefix);
                out.append(x.as_str());
                out.append("\"");
                assert(final(out)@ =~= old(out)@ + labeled(prefix@, *v));
            } else {
                assert(final(out)@ =~= old(out)@ + labeled(prefix@, *v));
            }
        },
        None => {
            assert(final(out)@ =~= old(out)@ + labeled(prefix@, *v));
        },
    }
}

fn push_flags(node: &WalkerNode, out: &mut String)
    ensures
        final(out)@ == old(out)@ + flags(*node),
{
    let ghost a = if node.checked == Some(true) { " checked"@ } else { Seq::empty() };
    let ghost b = if node.disabled { " disabled"@ } else { Seq::empty() };
    let ghost c = if node.hidden { " hidden"@ } else { Seq::empty() };
    let ghost d = match &node.element_ref { Some(r) => " ["@ + r@ + "]"@, None => Seq::<char>::empty() };
    if node.checked == Some(true) {
        out.append(" checked");
    }
    assert(out@ =~= old(out)@ + a);
    if node.disabled {
        out.append(" disabled");
    }
    assert(out@ =~= old(out)@ + a + b);
    if node.hidden {
        out.append(" hidden");
    }
    assert(out@ =~= old(out)@ + a + b + c);
    match &node.element_ref {
        Some(r) => {
            out.append(" [");
            out.append(r.as_str());
            out.append("]");
        },
        None => {},
    }
    assert(out@ =~= old(out)@ + a + b + c + d);
    assert(flags(*node) =~= a + b + c + d);
}

fn push_node_line(node: &WalkerNode, depth: usize, out: &mut String)
    ensures
        final(out)@ == old(out)@ + node_line(*node, depth as nat),
{
    let indent = repeat_str("  ", depth);
    out.append(indent.as_str());
    out.append("- ");
    out.append(node.role.as_str());
    let ghost p1 = out@;
    assert(p1 =~= old(out)@ + (repeat("  "@, depth as nat) + "- "@ + node.role@));
    push_labeled(out, " \"", &node.name);
    push_labeled(out, " value=\"", &node.value);
    push_flags(node, out);
    out.append("\n");
    assert(out@ =~= old(out)@ + node_line(*node, depth as nat));
}

fn render_node(node: &WalkerNode, depth: usize, out: &mut String)
    requires
        depth + height(node.children@) < usize::MAX,
    ensures
        final(out)@ == old(out)@ + node_line(*node, depth as nat) + render_nodes(node.children@, depth as nat + 1),
    decreases node,
{
    push_node_line(node, depth, out);
    let ghost line_done = out@;
    let mut i: usize = 0;
    assert(node.children@.subrange(0, 0) =~= Seq::<WalkerNode>::empty());
    while i < node.children.len()
        invariant
            i <= node.children.len(),
            depth + height(node.children@) < usize::MAX,
            out@ == line_done + render_nodes(node.children@.subrange(0, i as int), depth as nat + 1),
        decreases node.children.len() - i,
    {
        let child = &node.children[i];
        assert(decreases_to!(node => node.children));
        proof {
            lemma_height_prefix(node.children@, i as int);
        }
        render_node(child, depth + 1, out);
        proof {
            let s = node.children@.subrange(0, i + 1);
            assert(s.subrange(0, s.len() - 1) =~= node.children@.subrange(0, i as int));
            assert(s.last() == node.children@[i as int]);
            assert(out@ =~= line_done + render_nodes(s, depth as nat + 1));
        }
        i += 1;
    }
    assert(node.children@.subrange(0, node.children@.len() as int) =~= node.children@);
}

/// Renders a snapshot as indented text for an agent to read.
pub fn render(result: &SnapshotResult) -> (r: String)
    requires
        result.tree matches Some(t) ==> height(t.children@) < usize::MAX - 1,
    ensures
        r@ == spec_render(*result),
{
    let mut out = String::new();
    out.append("page: \"");
    out.append(result.title.as_str());
    out.append("\" url: ");
    out.append(result.url.as_str());
    out.append("\n");
    let ghost header = out@;
    match &result.tree {
        Some(tree) => {
            let mut i: usize = 0;
            assert(tree.children@.subrange(0, 0) =~= Seq::<WalkerNode>::empty());
            while i < tree.children.len()
                invariant
                    i <= tree.children.len(),
                    height(tree.children@) < usize::MAX - 1,
                    out@ == header + render_nodes(tree.children@.subrange(0, i as int), 1),
                decreases tree.children.len() - i,
            {
                proof {
                    lemma_height_prefix(tree.children@, i as int);
                }
                render_node(&tree.children[i], 1, &mut out);
                proof {
                    let s = tree.children@.subrange(0, i + 1);
                    assert(s.subrange(0, s.len() - 1) =~= tree.children@.subrange(0, i as int));
                    assert(s.last() == tree.children@[i as int]);
                    assert(out@ =~= header + render_nodes(s, 1));
                }
                i += 1;
            }
            assert(tree.children@.subrange(0, tree.children@.len() as int) =~= tree.children@);
        },
        None => {},
    }
    assert(out@ =~= spec_render(*result));
    out
}

} // verus!
