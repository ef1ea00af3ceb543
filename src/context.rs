//! The execution context: threads the formatting state through a stream of
//! structural events and assembles the layout tree.
use vstd::prelude::*;
use vstd::string::*;

use crate::builder::{opt_seq, PageBuilder, ParBuilderView, StackBuilder, StackBuilderView};
use crate::diag::{Diag, DiagView, Level, Pass, Span};
use crate::geom::{resolve_linear, GenAxis};
use crate::layout::{AnyNode, PageRunView, ParChild, ParChildView, StackChild, StackChildView, StackNode, StackNodeView, Tree};
use crate::state::{FontFamily, State, StateView};

verus! {

/// Whether a character ends a line.
pub open spec fn is_newline(c: char) -> bool {
    c == '\n' || c == '\x0B' || c == '\x0C' || c == '\r' || c == '\u{0085}' || c == '\u{2028}'
        || c == '\u{2029}'
}

/// Whether a character ends a line.
pub fn newline(c: char) -> (r: bool)
    ensures
        r == is_newline(c),
{
    c == '\n' || c == '\x0B' || c == '\x0C' || c == '\r' || c == '\u{0085}' || c == '\u{2028}'
        || c == '\u{2029}'
}

/// Text split into lines, as far as it has been read.
pub struct LineScan {
    /// The lines that a line boundary has ended.
    pub lines: Seq<Seq<char>>,
    /// The characters of the line that is still open.
    pub current: Seq<char>,
    /// Whether the last character read was a carriage return.
    pub after_cr: bool,
}

/// Read one more character. A line feed right after a carriage return
/// belongs to the same line boundary.
pub open spec fn scan_step(sc: LineScan, c: char) -> LineScan {
    if sc.after_cr && c == '\n' {
        LineScan { after_cr: false, ..sc }
    } else if is_newline(c) {
        LineScan { lines: sc.lines.push(sc.current), current: Seq::empty(), after_cr: c == '\r' }
    } else {
        LineScan { current: sc.current.push(c), after_cr: false, ..sc }
    }
}

/// The lines of `s`, read from the start.
pub open spec fn scan_lines(s: Seq<char>) -> LineScan
    decreases s.len(),
{
    if s.len() == 0 {
        LineScan { lines: Seq::empty(), current: Seq::empty(), after_cr: false }
    } else {
        scan_step(scan_lines(s.drop_last()), s.last())
    }
}

/// A paragraph builder after each of `lines` is pushed as text and followed
/// by a forced line break.
pub open spec fn broken_lines(
    par: ParBuilderView,
    lines: Seq<Seq<char>>,
    state: StateView,
) -> ParBuilderView
    decreases lines.len(),
{
    if lines.len() == 0 {
        par
    } else {
        broken_lines(par, lines.drop_last(), state).push_text(
            lines.last(),
            state.aligns.cross,
            state.font.props(),
        ).push_hard(ParChildView::Linebreak)
    }
}

/// The message of the diagnostic for a page break where no page is built.
pub open spec fn page_error() -> Seq<char> {
    "cannot modify page from here"@
}

/// The context for execution.
pub struct ExecContext {
    /// The active execution state.
    pub state: State,
    /// Execution diagnostics.
    pub diags: Vec<Diag>,
    /// The tree of finished page runs.
    pub tree: Tree,
    /// The metrics of the page while the top-level stack is built; `None`
    /// while a group stack is built through `exec_group`.
    pub page: Option<PageBuilder>,
    /// The stack that is being built.
    pub stack: StackBuilder,
}

/// The plain content of an [`ExecContext`].
pub struct ExecContextView {
    pub state: StateView,
    pub diags: Seq<DiagView>,
    pub tree: Seq<PageRunView>,
    pub page: Option<PageBuilder>,
    pub stack: StackBuilderView,
}

impl View for ExecContext {
    type V = ExecContextView;

    open spec fn view(&self) -> ExecContextView {
        ExecContextView {
            state: self.state@,
            diags: self.diags@.map_values(|d: Diag| d@),
            tree: self.tree@,
            page: self.page,
            stack: self.stack@,
        }
    }
}

impl ExecContextView {
    /// A fresh context for the given base state: an empty tree, a page begun
    /// as hard, and an empty stack.
    pub open spec fn fresh(state: StateView) -> ExecContextView {
        ExecContextView {
            state,
            diags: Seq::empty(),
            tree: Seq::empty(),
            page: Some(PageBuilder::fresh(state, true)),
            stack: StackBuilderView::fresh(state),
        }
    }

    /// The same context with another open paragraph.
    pub open spec fn with_par(self, par: ParBuilderView) -> ExecContextView {
        ExecContextView { stack: StackBuilderView { par, ..self.stack }, ..self }
    }

    /// After a diagnostic is added.
    pub open spec fn diag(self, d: DiagView) -> ExecContextView {
        ExecContextView { diags: self.diags.push(d), ..self }
    }

    /// After monospace is put first in the font family list.
    pub open spec fn set_monospace(self) -> ExecContextView {
        let font = self.state.font;
        ExecContextView {
            state: StateView {
                font: crate::state::FontStateView {
                    families: font.families.insert(0, FontFamily::Monospace),
                    ..font
                },
                ..self.state
            },
            ..self
        }
    }

    /// After a node is pushed into the open paragraph.
    pub open spec fn push(self, node: AnyNode) -> ExecContextView {
        self.with_par(self.stack.par.push(ParChildView::Any(node, self.state.aligns.cross)))
    }

    /// The word spacing in the current state.
    pub open spec fn word_space(self) -> i64 {
        resolve_linear(self.state.par.word_spacing, self.state.font.size) as i64
    }

    /// The paragraph spacing in the current state.
    pub open spec fn par_spacing(self) -> i64 {
        resolve_linear(self.state.par.spacing, self.state.font.size) as i64
    }

    /// After a word space is offered to the open paragraph as a soft child.
    pub open spec fn push_word_space(self) -> ExecContextView {
        self.with_par(self.stack.par.push_soft(ParChildView::Spacing(self.word_space())))
    }

    /// After text is pushed: each line but the last is followed by a forced
    /// line break.
    pub open spec fn push_text(self, text: Seq<char>) -> ExecContextView {
        let sc = scan_lines(text);
        let par = broken_lines(self.stack.par, sc.lines, self.state);
        self.with_par(par.push_text(sc.current, self.state.aligns.cross, self.state.font.props()))
    }

    /// After spacing is pushed: along the main axis it ends the paragraph and
    /// is a hard block child; along the cross axis it is a hard inline child.
    pub open spec fn push_spacing(self, axis: GenAxis, amount: i64) -> ExecContextView {
        match axis {
            GenAxis::Main => ExecContextView {
                stack: self.stack.parbreak(self.state).push_hard(StackChildView::Spacing(amount)),
                ..self
            },
            GenAxis::Cross => self.with_par(
                self.stack.par.push_hard(ParChildView::Spacing(amount)),
            ),
        }
    }

    /// After a forced line break.
    pub open spec fn linebreak(self) -> ExecContextView {
        self.with_par(self.stack.par.push_hard(ParChildView::Linebreak))
    }

    /// After a paragraph break: the paragraph is closed and paragraph spacing
    /// offered as a soft block child.
    pub open spec fn parbreak(self) -> ExecContextView {
        ExecContextView {
            stack: self.stack.parbreak(self.state).push_soft(
                StackChildView::Spacing(self.par_spacing()),
            ),
            ..self
        }
    }

    /// After a page break: with a page, the page is finished and its run, if
    /// any, added to the tree; without one, an error is recorded.
    pub open spec fn pagebreak(self, keep: bool, hard: bool, source: Span) -> ExecContextView {
        match self.page {
            Some(page) => ExecContextView {
                tree: self.tree + opt_seq(page.run(self.stack.build(), keep)),
                page: Some(PageBuilder::fresh(self.state, hard)),
                stack: StackBuilderView::fresh(self.state),
                ..self
            },
            None => self.diag(DiagView { level: Level::Error, span: source, message: page_error() }),
        }
    }

    /// The context in which a group is executed: the same state, no page and
    /// a fresh stack.
    pub open spec fn group_start(self) -> ExecContextView {
        ExecContextView { page: None, stack: StackBuilderView::fresh(self.state), ..self }
    }

    /// The stack that executing `nodes` as a group yields.
    pub open spec fn group_result(self, nodes: Seq<TemplateNode>) -> StackNodeView {
        run(self.group_start(), nodes).stack.build()
    }

    /// The context after `nodes` is executed as a group: state, page and stack
    /// as before, diagnostics and tree as the group left them.
    pub open spec fn exec_group(self, nodes: Seq<TemplateNode>) -> ExecContextView {
        let ran = run(self.group_start(), nodes);
        ExecContextView { diags: ran.diags, tree: ran.tree, ..self }
    }
}

/// One event of a template.
#[derive(Debug)]
pub enum TemplateNode {
    /// Text, split into lines at newlines.
    Text(String),
    /// A word space.
    Space,
    /// A forced line break.
    Linebreak,
    /// A forced paragraph break.
    Parbreak,
    /// An explicit page break, which keeps an empty page.
    Pagebreak(Span),
    /// Spacing along an axis.
    Spacing(GenAxis, i64),
    /// Switch to a monospace font.
    Monospace,
    /// Toggle strong text.
    Strong,
    /// Toggle emphasized text.
    Emph,
}

/// A sequence of events, executed in order.
#[derive(Debug)]
pub struct TemplateValue {
    pub nodes: Vec<TemplateNode>,
}

/// The context after one event.
pub open spec fn step(ctx: ExecContextView, node: TemplateNode) -> ExecContextView {
    match node {
        TemplateNode::Text(s) => ctx.push_text(s@),
        TemplateNode::Space => ctx.push_word_space(),
        TemplateNode::Linebreak => ctx.linebreak(),
        TemplateNode::Parbreak => ctx.parbreak(),
        TemplateNode::Pagebreak(span) => ctx.pagebreak(true, true, span),
        TemplateNode::Spacing(axis, amount) => ctx.push_spacing(axis, amount),
        TemplateNode::Monospace => ctx.set_monospace(),
        TemplateNode::Strong => ExecContextView {
            state: StateView {
                font: crate::state::FontStateView { strong: !ctx.state.font.strong, ..ctx.state.font },
                ..ctx.state
            },
            ..ctx
        },
        TemplateNode::Emph => ExecContextView {
            state: StateView {
                font: crate::state::FontStateView { emph: !ctx.state.font.emph, ..ctx.state.font },
                ..ctx.state
            },
            ..ctx
        },
    }
}

/// The context after the events `nodes`, in order.
pub open spec fn run(ctx: ExecContextView, nodes: Seq<TemplateNode>) -> ExecContextView
    decreases nodes.len(),
{
    if nodes.len() == 0 {
        ctx
    } else {
        step(run(ctx, nodes.drop_last()), nodes.last())
    }
}

impl ExecContext {
    /// Create a new execution context with a base state.
    pub fn new(state: State) -> (r: Self)
        ensures
            r@ == ExecContextView::fresh(state@),
    {
        let page = PageBuilder::new(&state, true);
        let stack = StackBuilder::new(&state);
        let r = ExecContext { state, diags: Vec::new(), tree: Tree { runs: Vec::new() }, page: Some(page), stack };
        assert(r@.diags =~= Seq::empty());
        assert(r@.tree =~= Seq::empty());
        r
    }

    /// Add a diagnostic.
    pub fn diag(&mut self, diag: Diag)
        ensures
            final(self)@ == old(self)@.diag(diag@),
    {
        let ghost before = self@;
        self.diags.push(diag);
        assert(self@.diags =~= before.diags.push(diag@));
    }

    /// Set the font to monospace.
    pub fn set_monospace(&mut self)
        ensures
            final(self)@ == old(self)@.set_monospace(),
    {
        self.state.font.families.insert(0, FontFamily::Monospace);
    }

    /// Push any node into the active paragraph.
    pub fn push(&mut self, node: AnyNode)
        ensures
            final(self)@ == old(self)@.push(node),
    {
        let align = self.state.aligns.cross;
        self.stack.par.push(ParChild::Any(node, align));
    }

    /// Push a word space into the active paragraph.
    pub fn push_word_space(&mut self)
        ensures
            final(self)@ == old(self)@.push_word_space(),
    {
        let em = self.state.font.resolve_size();
        let amount = self.state.par.word_spacing.resolve(em);
        self.stack.par.push_soft(ParChild::Spacing(amount));
    }

    /// Push text into the active paragraph.
    ///
    /// The text is split into lines at newlines.
    pub fn push_text(&mut self, text: &str)
        ensures
            final(self)@ == old(self)@.push_text(text@),
    {
        let ghost start_view = self@;
        let n = text.unicode_len();
        let mut i: usize = 0;
        let mut start: usize = 0;
        let mut after_cr = false;
        while i < n
            invariant
                n == text@.len(),
                start <= i <= n,
                scan_lines(text@.take(i as int)).current == text@.subrange(start as int, i as int),
                scan_lines(text@.take(i as int)).after_cr == after_cr,
                after_cr ==> start == i,
                self@ == start_view.with_par(
                    broken_lines(start_view.stack.par, scan_lines(text@.take(i as int)).lines, start_view.state),
                ),
            decreases n - i,
        {
            let c = text.get_char(i);
            let ghost prev = scan_lines(text@.take(i as int));
            assert(text@.take(i + 1).drop_last() =~= text@.take(i as int));
            assert(scan_lines(text@.take(i + 1)) == scan_step(prev, c));
            if after_cr && c == '\n' {
                start = i + 1;
                after_cr = false;
            } else if newline(c) {
                let line = text.substring_char(start, i).to_owned();
                self.stack.par.push_text(line, &self.state);
                self.linebreak();
                start = i + 1;
                after_cr = c == '\r';
                let ghost next = scan_lines(text@.take(i + 1));
                assert(next.lines.drop_last() =~= prev.lines);
            } else {
                after_cr = false;
                assert(text@.subrange(start as int, i + 1) =~= prev.current.push(c));
            }
            i += 1;
            assert(text@.subrange(start as int, i as int) =~= scan_lines(text@.take(i as int)).current);
        }
        assert(text@.take(n as int) =~= text@);
        let rest = text.substring_char(start, n).to_owned();
        self.stack.par.push_text(rest, &self.state);
    }

    /// Push spacing into paragraph or stack depending on `axis`.
    pub fn push_spacing(&mut self, axis: GenAxis, amount: i64)
        ensures
            final(self)@ == old(self)@.push_spacing(axis, amount),
    {
        match axis {
            GenAxis::Main => {
                self.stack.parbreak(&self.state);
                self.stack.push_hard(StackChild::Spacing(amount));
            },
            GenAxis::Cross => {
                self.stack.par.push_hard(ParChild::Spacing(amount));
            },
        }
    }

    /// Apply a forced line break.
    pub fn linebreak(&mut self)
        ensures
            final(self)@ == old(self)@.linebreak(),
    {
        self.stack.par.push_hard(ParChild::Linebreak);
    }

    /// Apply a forced paragraph break.
    pub fn parbreak(&mut self)
        ensures
            final(self)@ == old(self)@.parbreak(),
    {
        let em = self.state.font.resolve_size();
        let amount = self.state.par.spacing.resolve(em);
        self.stack.parbreak(&self.state);
        self.stack.push_soft(StackChild::Spacing(amount));
    }

    /// Apply a forced page break.
    pub fn pagebreak(&mut self, keep: bool, hard: bool, source: Span)
        ensures
            final(self)@ == old(self)@.pagebreak(keep, hard, source),
    {
        let ghost before = self@;
        match self.page {
            Some(page) => {
                self.page = Some(PageBuilder::new(&self.state, hard));
                let mut stack = StackBuilder::new(&self.state);
                std::mem::swap(&mut self.stack, &mut stack);
                if let Some(run) = page.build(stack.build(), keep) {
                    self.tree.runs.push(run);
                }
                assert(self@.tree =~= before.tree + opt_seq(page.run(before.stack.build(), keep)));
            },
            None => {
                self.diag(Diag::error(source, "cannot modify page from here"));
            },
        }
    }

    /// Execute a template and return the result as a stack node.
    ///
    /// The template runs with a copy of the state, without a page and on a
    /// fresh stack; afterwards state, page and stack are as before.
    pub fn exec_group(&mut self, template: &TemplateValue) -> (r: StackNode)
        ensures
            r@ == old(self)@.group_result(template.nodes@),
            final(self)@ == old(self)@.exec_group(template.nodes@),
    {
        let mut state = self.state.snapshot();
        std::mem::swap(&mut self.state, &mut state);
        let mut page = None;
        std::mem::swap(&mut self.page, &mut page);
        let mut stack = StackBuilder::new(&self.state);
        std::mem::swap(&mut self.stack, &mut stack);

        template.exec(self);

        self.state = state;
        self.page = page;
        std::mem::swap(&mut self.stack, &mut stack);
        stack.build()
    }

    /// Finish execution and return the created layout tree.
    ///
    /// Only a context that builds a page can be finished.
    pub fn finish(self) -> (r: Pass<Tree>)
        requires
            self.page is Some,
        ensures
            r.output@ == self@.pagebreak(true, false, Span { start: 0, end: 0 }).tree,
            r.diags@.map_values(|d: Diag| d@) == self@.diags,
    {
        let mut ctx = self;
        ctx.pagebreak(true, false, Span { start: 0, end: 0 });
        Pass { output: ctx.tree, diags: ctx.diags }
    }
}

impl TemplateValue {
    /// Execute the events of this template in order.
    pub fn exec(&self, ctx: &mut ExecContext)
        ensures
            final(ctx)@ == run(old(ctx)@, self.nodes@),
    {
        let mut i: usize = 0;
        while i < self.nodes.len()
            invariant
                i <= self.nodes@.len(),
                ctx@ == run(old(ctx)@, self.nodes@.take(i as int)),
            decreases self.nodes@.len() - i,
        {
            assert(self.nodes@.take(i + 1).drop_last() =~= self.nodes@.take(i as int));
            match &self.nodes[i] {
                TemplateNode::Text(s) => ctx.push_text(s.as_str()),
                TemplateNode::Space => ctx.push_word_space(),
                TemplateNode::Linebreak => ctx.linebreak(),
                TemplateNode::Parbreak => ctx.parbreak(),
                TemplateNode::Pagebreak(span) => ctx.pagebreak(true, true, *span),
                TemplateNode::Spacing(axis, amount) => ctx.push_spacing(*axis, *amount),
                TemplateNode::Monospace => ctx.set_monospace(),
                TemplateNode::Strong => {
                    ctx.state.font.strong = !ctx.state.font.strong;
                },
                TemplateNode::Emph => {
                    ctx.state.font.emph = !ctx.state.font.emph;
                },
            }
            i += 1;
        }
        assert(self.nodes@.take(self.nodes@.len() as int) =~= self.nodes@);
    }
}

} // verus!
