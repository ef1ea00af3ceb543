//! The break automaton and the builders for paragraphs, stacks and pages.
use vstd::prelude::*;
use vstd::string::*;

use crate::geom::{resolve_linear, Align, Dir, Gen, Linear, Sides, Size};
use crate::layout::{
    PadNode, PageRun, PageRunView, ParChild, ParChildView, ParNode, ParNodeView, StackChild,
    StackChildView, StackNode, StackNodeView, TextNode,
};
use crate::state::{FontProps, State, StateView};

verus! {

/// Finite state machine for spacing coalescing.
///
/// `Nothing`: nothing stands before, or a hard break came last. `Any`: content
/// came last. `Soft(n)`: `n` waits to be emitted if more content follows.
#[derive(Debug)]
pub enum Last<N> {
    Nothing,
    Any,
    Soft(N),
}

/// The items of an optional value as a sequence.
pub open spec fn opt_seq<T>(o: Option<T>) -> Seq<T> {
    match o {
        Some(x) => seq![x],
        None => Seq::empty(),
    }
}

/// The view of an optional value.
pub open spec fn opt_view<T: View>(o: Option<T>) -> Option<T::V> {
    match o {
        Some(x) => Some(x@),
        None => None,
    }
}

impl<N> Last<N> {
    /// The soft item that is waiting, if any.
    pub open spec fn pending(self) -> Option<N> {
        match self {
            Last::Soft(soft) => Some(soft),
            _ => None,
        }
    }

    /// The state after a soft item is offered: kept only right after content.
    pub open spec fn after_soft(self, soft: N) -> Last<N> {
        match self {
            Last::Any => Last::Soft(soft),
            _ => self,
        }
    }

    /// Content follows: hand out the waiting soft item and note the content.
    pub fn any(&mut self) -> (r: Option<N>)
        ensures
            r == old(self).pending(),
            *final(self) == Last::<N>::Any,
    {
        let mut prev = Last::Any;
        std::mem::swap(self, &mut prev);
        match prev {
            Last::Soft(soft) => Some(soft),
            _ => None,
        }
    }

    /// Offer a soft item.
    pub fn soft(&mut self, soft: N)
        ensures
            *final(self) == old(self).after_soft(soft),
    {
        let is_any = match self {
            Last::Any => true,
            _ => false,
        };
        if is_any {
            *self = Last::Soft(soft);
        }
    }

    /// A hard item is emitted: drop any waiting soft item.
    pub fn hard(&mut self)
        ensures
            *final(self) == Last::<N>::Nothing,
    {
        *self = Last::Nothing;
    }
}

impl<N: View> View for Last<N> {
    type V = Last<N::V>;

    open spec fn view(&self) -> Last<N::V> {
        match self {
            Last::Nothing => Last::Nothing,
            Last::Any => Last::Any,
            Last::Soft(soft) => Last::Soft(soft@),
        }
    }
}

/// Builds a paragraph from inline children.
pub struct ParBuilder {
    pub aligns: Gen<Align>,
    pub dir: Dir,
    pub line_spacing: i64,
    pub children: Vec<ParChild>,
    pub last: Last<ParChild>,
}

/// The plain content of a [`ParBuilder`].
pub struct ParBuilderView {
    pub aligns: Gen<Align>,
    pub dir: Dir,
    pub line_spacing: i64,
    pub children: Seq<ParChildView>,
    pub last: Last<ParChildView>,
}

impl View for ParBuilder {
    type V = ParBuilderView;

    open spec fn view(&self) -> ParBuilderView {
        ParBuilderView {
            aligns: self.aligns,
            dir: self.dir,
            line_spacing: self.line_spacing,
            children: self.children@.map_values(|c: ParChild| c@),
            last: self.last@,
        }
    }
}

impl ParBuilderView {
    /// A fresh paragraph builder for the given state.
    pub open spec fn fresh(state: StateView) -> ParBuilderView {
        ParBuilderView {
            aligns: state.aligns,
            dir: state.lang.dir,
            line_spacing: resolve_linear(state.par.leading, state.font.size) as i64,
            children: Seq::empty(),
            last: Last::Nothing,
        }
    }

    /// Content follows: the waiting soft item, if any, is emitted.
    pub open spec fn flushed(self) -> ParBuilderView {
        ParBuilderView {
            children: self.children + opt_seq(self.last.pending()),
            last: Last::Any,
            ..self
        }
    }

    /// After pushing a child that is content.
    pub open spec fn push(self, child: ParChildView) -> ParBuilderView {
        let f = self.flushed();
        ParBuilderView { children: f.children.push(child), ..f }
    }

    /// Whether a text child ends the children and takes text with these
    /// alignment and properties.
    pub open spec fn merges_with(children: Seq<ParChildView>, align: Align, props: FontProps) -> bool {
        children.len() > 0 && match children.last() {
            ParChildView::Text(_, p, a) => a == align && p == props,
            _ => false,
        }
    }

    /// After pushing text: merged into the last child where that is text with
    /// the same alignment and properties, else appended as a new text child.
    pub open spec fn push_text(self, text: Seq<char>, align: Align, props: FontProps) -> ParBuilderView {
        let f = self.flushed();
        let n = f.children.len();
        if Self::merges_with(f.children, align, props) {
            let prev = f.children.last()->Text_0;
            ParBuilderView {
                children: f.children.update(n - 1, ParChildView::Text(prev + text, props, align)),
                ..f
            }
        } else {
            ParBuilderView { children: f.children.push(ParChildView::Text(text, props, align)), ..f }
        }
    }

    /// After offering a soft child.
    pub open spec fn push_soft(self, child: ParChildView) -> ParBuilderView {
        ParBuilderView { last: self.last.after_soft(child), ..self }
    }

    /// After pushing a hard child.
    pub open spec fn push_hard(self, child: ParChildView) -> ParBuilderView {
        ParBuilderView { children: self.children.push(child), last: Last::Nothing, ..self }
    }

    /// The paragraph that the builder yields: none if it has no children.
    pub open spec fn build(self) -> Option<StackChildView> {
        if self.children.len() == 0 {
            None
        } else {
            Some(
                StackChildView::Par(
                    ParNodeView {
                        dir: self.dir,
                        line_spacing: self.line_spacing,
                        children: self.children,
                    },
                    self.aligns,
                ),
            )
        }
    }
}

impl ParBuilder {
    /// Create a paragraph builder for the given state.
    pub fn new(state: &State) -> (r: Self)
        ensures
            r@ == ParBuilderView::fresh(state@),
    {
        let em = state.font.resolve_size();
        let r = ParBuilder {
            aligns: state.aligns,
            dir: state.lang.dir,
            line_spacing: state.par.leading.resolve(em),
            children: Vec::new(),
            last: Last::Nothing,
        };
        assert(r@.children =~= Seq::empty());
        r
    }

    /// Emit the waiting soft child, if any, before content.
    fn flush(&mut self)
        ensures
            final(self)@ == old(self)@.flushed(),
    {
        let ghost before = self@;
        if let Some(soft) = self.last.any() {
            self.children.push(soft);
        }
        assert(self@.children =~= before.flushed().children);
    }

    /// Push a child that is content.
    pub fn push(&mut self, child: ParChild)
        ensures
            final(self)@ == old(self)@.push(child@),
    {
        self.flush();
        let ghost before = self@;
        self.children.push(child);
        assert(self@.children =~= before.children.push(child@));
    }

    /// Push text set in the given state.
    pub fn push_text(&mut self, text: String, state: &State)
        ensures
            final(self)@ == old(self)@.push_text(text@, state.aligns.cross, state@.font.props()),
    {
        self.flush();
        let ghost f = self@;
        let align = state.aligns.cross;
        let props = state.font.resolve_props();
        match self.children.pop() {
            Some(ParChild::Text(mut node, prev_align)) => {
                if prev_align == align && node.props == props {
                    node.text.append(text.as_str());
                    self.children.push(ParChild::Text(node, prev_align));
                    assert(self@.children =~= f.children.update(
                        f.children.len() - 1,
                        ParChildView::Text(f.children.last()->Text_0 + text@, props, align),
                    ));
                    return;
                }
                self.children.push(ParChild::Text(node, prev_align));
            },
            Some(other) => {
                self.children.push(other);
            },
            None => {},
        }
        assert(self@.children =~= f.children);
        self.children.push(ParChild::Text(TextNode { text, props }, align));
        assert(self@.children =~= f.children.push(ParChildView::Text(text@, props, align)));
    }

    /// Offer a soft child: kept only if content follows.
    pub fn push_soft(&mut self, child: ParChild)
        ensures
            final(self)@ == old(self)@.push_soft(child@),
    {
        self.last.soft(child);
    }

    /// Push a hard child.
    pub fn push_hard(&mut self, child: ParChild)
        ensures
            final(self)@ == old(self)@.push_hard(child@),
    {
        let ghost before = self@;
        self.last.hard();
        self.children.push(child);
        assert(self@.children =~= before.children.push(child@));
    }

    /// Finish the paragraph: none if it has no children.
    pub fn build(self) -> (r: Option<StackChild>)
        ensures
            opt_view(r) == self@.build(),
    {
        if self.children.len() == 0 {
            None
        } else {
            let node = ParNode { dir: self.dir, line_spacing: self.line_spacing, children: self.children };
            Some(StackChild::Par(node, self.aligns))
        }
    }
}

/// Builds a stack of paragraphs and other block-level children.
pub struct StackBuilder {
    pub dirs: Gen<Dir>,
    pub children: Vec<StackChild>,
    pub last: Last<StackChild>,
    pub par: ParBuilder,
}

/// The plain content of a [`StackBuilder`].
pub struct StackBuilderView {
    pub dirs: Gen<Dir>,
    pub children: Seq<StackChildView>,
    pub last: Last<StackChildView>,
    pub par: ParBuilderView,
}

impl View for StackBuilder {
    type V = StackBuilderView;

    open spec fn view(&self) -> StackBuilderView {
        StackBuilderView {
            dirs: self.dirs,
            children: self.children@.map_values(|c: StackChild| c@),
            last: self.last@,
            par: self.par@,
        }
    }
}

impl StackBuilderView {
    /// A fresh stack builder for the given state.
    pub open spec fn fresh(state: StateView) -> StackBuilderView {
        StackBuilderView {
            dirs: Gen { main: Dir::TTB, cross: state.lang.dir },
            children: Seq::empty(),
            last: Last::Nothing,
            par: ParBuilderView::fresh(state),
        }
    }

    /// After offering a soft child.
    pub open spec fn push_soft(self, child: StackChildView) -> StackBuilderView {
        StackBuilderView { last: self.last.after_soft(child), ..self }
    }

    /// After pushing a hard child.
    pub open spec fn push_hard(self, child: StackChildView) -> StackBuilderView {
        StackBuilderView { children: self.children.push(child), last: Last::Nothing, ..self }
    }

    /// After a finished paragraph, if there is one, is added as content.
    pub open spec fn add(self, built: Option<StackChildView>) -> StackBuilderView {
        StackBuilderView {
            children: children_with(self.children, self.last, built),
            last: last_with(self.last, built),
            ..self
        }
    }

    /// After the open paragraph, if it yields one, is added as content.
    pub open spec fn closed(self) -> StackBuilderView {
        self.add(self.par.build())
    }

    /// After a paragraph break: the open paragraph is closed and a fresh one
    /// opened for the given state.
    pub open spec fn parbreak(self, state: StateView) -> StackBuilderView {
        StackBuilderView { par: ParBuilderView::fresh(state), ..self.closed() }
    }

    /// The stack that the builder yields.
    pub open spec fn build(self) -> StackNodeView {
        StackNodeView { dirs: self.dirs, children: self.closed().children }
    }
}

/// Block children after a finished paragraph, if there is one, is added as
/// content: the waiting soft child goes first.
pub open spec fn children_with(
    children: Seq<StackChildView>,
    last: Last<StackChildView>,
    built: Option<StackChildView>,
) -> Seq<StackChildView> {
    match built {
        Some(p) => children + opt_seq(last.pending()) + seq![p],
        None => children,
    }
}

/// The automaton state after a finished paragraph, if there is one, is added.
pub open spec fn last_with<T>(last: Last<T>, built: Option<T>) -> Last<T> {
    match built {
        Some(_) => Last::Any,
        None => last,
    }
}

/// Add a finished paragraph, if there is one, to block children as content.
fn add_block(children: &mut Vec<StackChild>, last: &mut Last<StackChild>, par: Option<StackChild>)
    ensures
        final(children)@.map_values(|c: StackChild| c@) == children_with(
            old(children)@.map_values(|c: StackChild| c@),
            old(last)@,
            opt_view(par),
        ),
        final(last)@ == last_with(old(last)@, opt_view(par)),
{
    let ghost before = children@.map_values(|c: StackChild| c@);
    let ghost lv = last@;
    if let Some(par) = par {
        if let Some(soft) = last.any() {
            children.push(soft);
        }
        children.push(par);
        assert(children@.map_values(|c: StackChild| c@) =~= children_with(before, lv, Some(par@)));
    }
}

impl StackBuilder {
    /// Create a stack builder for the given state.
    pub fn new(state: &State) -> (r: Self)
        ensures
            r@ == StackBuilderView::fresh(state@),
    {
        let r = StackBuilder {
            dirs: Gen::new(Dir::TTB, state.lang.dir),
            children: Vec::new(),
            last: Last::Nothing,
            par: ParBuilder::new(state),
        };
        assert(r@.children =~= Seq::empty());
        r
    }

    /// Offer a soft child: kept only if content follows.
    pub fn push_soft(&mut self, child: StackChild)
        ensures
            final(self)@ == old(self)@.push_soft(child@),
    {
        self.last.soft(child);
    }

    /// Push a hard child.
    pub fn push_hard(&mut self, child: StackChild)
        ensures
            final(self)@ == old(self)@.push_hard(child@),
    {
        let ghost before = self@;
        self.last.hard();
        self.children.push(child);
        assert(self@.children =~= before.children.push(child@));
    }

    /// Add a finished paragraph, if there is one, as content.
    fn add_par(&mut self, par: Option<StackChild>)
        ensures
            final(self)@ == old(self)@.add(opt_view(par)),
    {
        add_block(&mut self.children, &mut self.last, par);
    }

    /// Close the open paragraph and open a fresh one for the given state.
    pub fn parbreak(&mut self, state: &State)
        ensures
            final(self)@ == old(self)@.parbreak(state@),
    {
        let mut par = ParBuilder::new(state);
        std::mem::swap(&mut self.par, &mut par);
        let built = par.build();
        self.add_par(built);
    }

    /// Finish the stack, closing the open paragraph.
    pub fn build(self) -> (r: StackNode)
        ensures
            r@ == self@.build(),
    {
        let StackBuilder { dirs, mut children, par, mut last } = self;
        let built = par.build();
        add_block(&mut children, &mut last, built);
        StackNode { dirs, children }
    }
}

/// Page geometry and whether the page was begun by an explicit page break.
#[derive(Clone, Copy, Debug)]
pub struct PageBuilder {
    pub size: Size,
    pub padding: Sides<Linear>,
    pub hard: bool,
}

impl PageBuilder {
    /// A page builder for the page settings of the given state.
    pub open spec fn fresh(state: StateView, hard: bool) -> PageBuilder {
        PageBuilder { size: state.page.size, padding: state.page.margins, hard }
    }

    /// The page run that finishing this page with the given stack yields:
    /// one if the stack has children, or if the page is hard and is to be kept.
    pub open spec fn run(self, child: StackNodeView, keep: bool) -> Option<PageRunView> {
        if child.children.len() > 0 || (keep && self.hard) {
            Some(PageRunView { size: self.size, padding: self.padding, child })
        } else {
            None
        }
    }

    /// Create a page builder for the page settings of the given state.
    pub fn new(state: &State, hard: bool) -> (r: Self)
        ensures
            r == Self::fresh(state@, hard),
    {
        PageBuilder { size: state.page.size, padding: state.page.margins(), hard }
    }

    /// Finish the page with the given stack.
    pub fn build(self, child: StackNode, keep: bool) -> (r: Option<PageRun>)
        ensures
            opt_view(r) == self.run(child@, keep),
    {
        if child.children.len() > 0 || (keep && self.hard) {
            Some(PageRun { size: self.size, child: PadNode { padding: self.padding, child } })
        } else {
            None
        }
    }
}

} // verus!
