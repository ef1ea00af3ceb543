//! Laws that relate the operations of the builders and the context.
use vstd::prelude::*;

use crate::builder::{Last, ParBuilderView, StackBuilderView};
use crate::context::{is_newline, run, scan_lines, ExecContextView, TemplateNode};
use crate::diag::Span;
use crate::layout::{ParChildView, ParNodeView, StackChildView};
use crate::state::StateView;

verus! {

/// A break request to a paragraph builder, with the child it carries.
pub enum BreakRequest {
    Soft(ParChildView),
    Hard(ParChildView),
}

/// A paragraph builder after the given break requests, in order.
pub open spec fn apply_breaks(p: ParBuilderView, reqs: Seq<BreakRequest>) -> ParBuilderView
    decreases reqs.len(),
{
    if reqs.len() == 0 {
        p
    } else {
        let q = apply_breaks(p, reqs.drop_last());
        match reqs.last() {
            BreakRequest::Soft(c) => q.push_soft(c),
            BreakRequest::Hard(c) => q.push_hard(c),
        }
    }
}

/// The children of the hard requests among `reqs`, in order.
pub open spec fn hard_children(reqs: Seq<BreakRequest>) -> Seq<ParChildView>
    decreases reqs.len(),
{
    if reqs.len() == 0 {
        Seq::empty()
    } else {
        let h = hard_children(reqs.drop_last());
        match reqs.last() {
            BreakRequest::Soft(_) => h,
            BreakRequest::Hard(c) => h.push(c),
        }
    }
}

/// Whether any of `reqs` is hard.
pub open spec fn has_hard(reqs: Seq<BreakRequest>) -> bool {
    exists|i: int| 0 <= i < reqs.len() && reqs[i] is Hard
}

/// Soft and hard requests with no content between them emit only the hard
/// children. At most one soft child waits afterwards: none once a hard request
/// came, else the one that waited before, or the first soft child offered
/// right after content. A paragraph built then holds no soft child.
pub proof fn law_breaks_without_content(p: ParBuilderView, reqs: Seq<BreakRequest>)
    ensures
        apply_breaks(p, reqs).children == p.children + hard_children(reqs),
        has_hard(reqs) ==> apply_breaks(p, reqs).last == Last::<ParChildView>::Nothing,
        !has_hard(reqs) && !(p.last is Any) ==> apply_breaks(p, reqs).last == p.last,
        !has_hard(reqs) && p.last is Any && reqs.len() > 0 ==> apply_breaks(p, reqs).last
            == Last::Soft(reqs[0]->Soft_0),
        apply_breaks(p, reqs).build() matches Some(StackChildView::Par(node, _))
            ==> node.children == p.children + hard_children(reqs),
    decreases reqs.len(),
{
    if reqs.len() > 0 {
        let init = reqs.drop_last();
        law_breaks_without_content(p, init);
        assert(p.children + hard_children(init) + seq![reqs.last()->Hard_0] =~= p.children
            + hard_children(init).push(reqs.last()->Hard_0));
        if has_hard(init) {
            assert(has_hard(reqs)) by {
                let i = choose|i: int| 0 <= i < init.len() && init[i] is Hard;
                assert(reqs[i] == init[i]);
            }
        }
        if !has_hard(reqs) {
            assert(!has_hard(init)) by {
                if has_hard(init) {
                    let i = choose|i: int| 0 <= i < init.len() && init[i] is Hard;
                    assert(reqs[i] == init[i]);
                }
            }
            assert(!(reqs.last() is Hard)) by {
                if reqs.last() is Hard {
                    assert(reqs[reqs.len() - 1] is Hard);
                }
            }
            if init.len() > 0 {
                assert(init[0] == reqs[0]);
            }
        }
        if reqs.last() is Hard {
            assert(reqs[reqs.len() - 1] is Hard);
        } else if has_hard(reqs) {
            let i = choose|i: int| 0 <= i < reqs.len() && reqs[i] is Hard;
            assert(i != reqs.len() - 1);
            assert(init[i] == reqs[i]);
            assert(has_hard(init));
        }
    } else {
        assert(p.children + hard_children(reqs) =~= p.children);
    }
}

/// Text, a forced line break and more text make a paragraph of two separate
/// text children around the break; two pieces of text with the same
/// alignment and properties merge into one child that holds both.
pub proof fn law_text_runs(state: StateView, a: Seq<char>, b: Seq<char>)
    ensures
        ({
            let align = state.aligns.cross;
            let props = state.font.props();
            let s = StackBuilderView::fresh(state);
            let par = s.par.push_text(a, align, props).push_hard(ParChildView::Linebreak).push_text(
                b,
                align,
                props,
            );
            StackBuilderView { par, ..s }.build().children == seq![
                StackChildView::Par(
                    ParNodeView {
                        dir: s.par.dir,
                        line_spacing: s.par.line_spacing,
                        children: seq![
                            ParChildView::Text(a, props, align),
                            ParChildView::Linebreak,
                            ParChildView::Text(b, props, align),
                        ],
                    },
                    state.aligns,
                ),
            ]
        }),
        ({
            let align = state.aligns.cross;
            let props = state.font.props();
            let s = StackBuilderView::fresh(state);
            let par = s.par.push_text(a, align, props).push_text(b, align, props);
            StackBuilderView { par, ..s }.build().children == seq![
                StackChildView::Par(
                    ParNodeView {
                        dir: s.par.dir,
                        line_spacing: s.par.line_spacing,
                        children: seq![ParChildView::Text(a + b, props, align)],
                    },
                    state.aligns,
                ),
            ]
        }),
{
    let align = state.aligns.cross;
    let props = state.font.props();
    let s = StackBuilderView::fresh(state);
    let p1 = s.par.push_text(a, align, props);
    assert(s.par.flushed().children =~= Seq::empty());
    assert(p1.children =~= seq![ParChildView::Text(a, props, align)]);
    let p2 = p1.push_hard(ParChildView::Linebreak);
    assert(p2.flushed().children =~= p2.children);
    let p3 = p2.push_text(b, align, props);
    assert(p3.children =~= seq![
        ParChildView::Text(a, props, align),
        ParChildView::Linebreak,
        ParChildView::Text(b, props, align),
    ]);
    assert(StackBuilderView { par: p3, ..s }.build().children =~= seq![p3.build()->Some_0]);
    let q = p1.push_text(b, align, props);
    assert(p1.flushed().children =~= p1.children);
    assert(q.children =~= seq![ParChildView::Text(a + b, props, align)]);
    assert(StackBuilderView { par: q, ..s }.build().children =~= seq![q.build()->Some_0]);
}

/// The context after `k` paragraph breaks in a row.
pub open spec fn parbreaks(c: ExecContextView, k: nat) -> ExecContextView
    decreases k,
{
    if k == 0 {
        c
    } else {
        parbreaks(c, (k - 1) as nat).parbreak()
    }
}

/// A paragraph break right after another one changes nothing, so any number
/// of them in a row leave at most one spacing between the paragraphs.
pub proof fn law_parbreak_idempotent(c: ExecContextView, k: nat)
    requires
        k >= 1,
    ensures
        c.parbreak().parbreak() == c.parbreak(),
        parbreaks(c, k) == c.parbreak(),
    decreases k,
{
    let once = c.parbreak();
    assert(ParBuilderView::fresh(c.state).build() is None);
    assert(once.stack.parbreak(once.state) == once.stack);
    assert(once.parbreak() == once);
    if k > 1 {
        law_parbreak_idempotent(c, (k - 1) as nat);
        assert(parbreaks(c, k) == parbreaks(c, (k - 1) as nat).parbreak());
    }
}

/// On a page begun by an explicit break whose stack is still empty, a page
/// break that does not keep the page adds no page run, and one that keeps it
/// adds exactly one, with an empty stack.
pub proof fn law_empty_page(c: ExecContextView, hard: bool, source: Span)
    requires
        c.page matches Some(page) && page.hard,
        c.stack.children.len() == 0,
        c.stack.par.children.len() == 0,
    ensures
        c.pagebreak(false, hard, source).tree == c.tree,
        c.pagebreak(true, hard, source).tree.len() == c.tree.len() + 1,
        c.pagebreak(true, hard, source).tree.last().child.children.len() == 0,
        c.pagebreak(true, hard, source).tree.drop_last() == c.tree,
{
    assert(c.stack.build().children =~= Seq::empty());
    assert(c.pagebreak(false, hard, source).tree =~= c.tree);
    assert(c.pagebreak(true, hard, source).tree.drop_last() =~= c.tree);
}

/// Executing a group leaves the state, the page and the stack as they were.
pub proof fn law_group_isolates_state(c: ExecContextView, nodes: Seq<TemplateNode>)
    ensures
        c.exec_group(nodes).state == c.state,
        c.exec_group(nodes).page == c.page,
        c.exec_group(nodes).stack == c.stack,
{
}

/// Events run without a page add no page run to the tree.
pub proof fn law_no_page_no_runs(c: ExecContextView, nodes: Seq<TemplateNode>)
    requires
        c.page is None,
    ensures
        run(c, nodes).page is None,
        run(c, nodes).tree == c.tree,
    decreases nodes.len(),
{
    if nodes.len() > 0 {
        law_no_page_no_runs(c, nodes.drop_last());
    }
}

/// A group adds no page run to the tree.
pub proof fn law_group_emits_no_pages(c: ExecContextView, nodes: Seq<TemplateNode>)
    ensures
        c.exec_group(nodes).tree == c.tree,
{
    law_no_page_no_runs(c.group_start(), nodes);
}

/// Whether no character of `s` ends a line.
pub open spec fn no_newline(s: Seq<char>) -> bool {
    forall|i: int| 0 <= i < s.len() ==> !is_newline(s[i])
}

/// Reading characters that end no line only extends the open line.
proof fn lemma_scan_plain(s: Seq<char>, b: Seq<char>)
    requires
        no_newline(b),
    ensures
        scan_lines(s + b).lines == scan_lines(s).lines,
        scan_lines(s + b).current == scan_lines(s).current + b,
        b.len() > 0 ==> !scan_lines(s + b).after_cr,
    decreases b.len(),
{
    if b.len() == 0 {
        assert(s + b =~= s);
        assert(scan_lines(s).current + b =~= scan_lines(s).current);
    } else {
        let init = b.drop_last();
        assert(no_newline(init)) by {
            assert forall|i: int| 0 <= i < init.len() implies !is_newline(init[i]) by {
                assert(init[i] == b[i]);
            }
        }
        lemma_scan_plain(s, init);
        assert((s + b).drop_last() =~= s + init);
        assert((s + b).last() == b[b.len() - 1]);
        assert(!is_newline(b[b.len() - 1]));
        assert(scan_lines(s).current + init.push(b.last()) =~= scan_lines(s).current + b);
        assert((scan_lines(s).current + init).push(b.last()) =~= scan_lines(s).current + b);
    }
}

/// The scan after a line of plain text and then one separator.
proof fn lemma_scan_line_then(a: Seq<char>, sep: char)
    requires
        no_newline(a),
        is_newline(sep),
    ensures
        scan_lines(a.push(sep)).lines == seq![a],
        scan_lines(a.push(sep)).current == Seq::<char>::empty(),
        scan_lines(a.push(sep)).after_cr == (sep == '\r'),
{
    lemma_scan_plain(Seq::empty(), a);
    assert(Seq::<char>::empty() + a =~= a);
    assert(Seq::<Seq<char>>::empty().push(a) =~= seq![a]);
    assert(a.push(sep).drop_last() =~= a);
    assert(Seq::<char>::empty() + a =~= a);
}

/// How a line, one separator and another line scan, for each separator.
proof fn lemma_scan_two_lines(a: Seq<char>, b: Seq<char>)
    requires
        no_newline(a),
        no_newline(b),
    ensures
        scan_lines(a + seq!['\r', '\n'] + b).lines == seq![a],
        scan_lines(a + seq!['\r', '\n'] + b).current == b,
        scan_lines(a + seq!['\n'] + b).lines == seq![a],
        scan_lines(a + seq!['\n'] + b).current == b,
        scan_lines(a + seq!['\r'] + b).lines == seq![a],
        scan_lines(a + seq!['\r'] + b).current == b,
{
    lemma_scan_line_then(a, '\r');
    lemma_scan_line_then(a, '\n');
    let crlf = a.push('\r').push('\n');
    assert(crlf.drop_last() =~= a.push('\r'));
    assert(a + seq!['\r', '\n'] + b =~= crlf + b);
    assert(a + seq!['\n'] + b =~= a.push('\n') + b);
    assert(a + seq!['\r'] + b =~= a.push('\r') + b);
    lemma_scan_plain(crlf, b);
    lemma_scan_plain(a.push('\n'), b);
    lemma_scan_plain(a.push('\r'), b);
    assert(Seq::<char>::empty() + b =~= b);
}

/// A carriage return and the line feed right after it form one line
/// boundary: between two lines, text splits alike at CR LF, at a lone line
/// feed and at a lone carriage return.
pub proof fn law_crlf_one_boundary(c: ExecContextView, a: Seq<char>, b: Seq<char>)
    requires
        no_newline(a),
        no_newline(b),
    ensures
        c.push_text(a + seq!['\r', '\n'] + b) == c.push_text(a + seq!['\n'] + b),
        c.push_text(a + seq!['\r'] + b) == c.push_text(a + seq!['\n'] + b),
{
    lemma_scan_two_lines(a, b);
}

/// Text made of three lines that CR LF and then LF separate yields two
/// forced line breaks: the lines before them are `a` and `b`, and `d` stays
/// open.
pub proof fn law_three_lines(a: Seq<char>, b: Seq<char>, d: Seq<char>)
    requires
        no_newline(a),
        no_newline(b),
        no_newline(d),
    ensures
        scan_lines(a + seq!['\r', '\n'] + b + seq!['\n'] + d).lines == seq![a, b],
        scan_lines(a + seq!['\r', '\n'] + b + seq!['\n'] + d).current == d,
{
    lemma_scan_two_lines(a, b);
    let first = a + seq!['\r', '\n'] + b;
    let with_lf = first.push('\n');
    assert(with_lf.drop_last() =~= first);
    assert(seq![a].push(b) =~= seq![a, b]);
    lemma_scan_plain(with_lf, d);
    assert(first + seq!['\n'] + d =~= with_lf + d);
    assert(Seq::<char>::empty() + d =~= d);
}

} // verus!
