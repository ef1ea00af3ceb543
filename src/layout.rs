//! The layout tree that execution produces.
use vstd::prelude::*;

use crate::geom::{Align, Dir, Gen, Linear, Sides, Size};
use crate::state::FontProps;

verus! {

/// A run of text with uniform properties.
#[derive(Debug)]
pub struct TextNode {
    pub text: String,
    pub props: FontProps,
}

/// A node that can stand anywhere in the tree.
#[derive(Debug)]
pub enum AnyNode {
    Stack(StackNode),
    Pad(PadNode),
}

/// A child of a paragraph.
#[derive(Debug)]
pub enum ParChild {
    /// Inline spacing.
    Spacing(i64),
    /// A run of text, with its cross-axis alignment.
    Text(TextNode, Align),
    /// A forced line break.
    Linebreak,
    /// Any other inline node, with its cross-axis alignment.
    Any(AnyNode, Align),
}

/// A paragraph: inline children laid out into lines.
#[derive(Debug)]
pub struct ParNode {
    pub dir: Dir,
    pub line_spacing: i64,
    pub children: Vec<ParChild>,
}

/// A child of a stack.
#[derive(Debug)]
pub enum StackChild {
    /// Block spacing.
    Spacing(i64),
    /// A paragraph, with its alignments.
    Par(ParNode, Gen<Align>),
    /// Any other block node, with its alignments.
    Any(AnyNode, Gen<Align>),
}

/// Block-level children stacked along the main axis.
#[derive(Debug)]
pub struct StackNode {
    pub dirs: Gen<Dir>,
    pub children: Vec<StackChild>,
}

/// A stack surrounded by padding.
#[derive(Debug)]
pub struct PadNode {
    pub padding: Sides<Linear>,
    pub child: StackNode,
}

/// A finished page.
#[derive(Debug)]
pub struct PageRun {
    pub size: Size,
    pub child: PadNode,
}

/// The finished page runs of a document.
#[derive(Debug)]
pub struct Tree {
    pub runs: Vec<PageRun>,
}

/// The plain content of a [`ParChild`].
pub enum ParChildView {
    Spacing(i64),
    Text(Seq<char>, FontProps, Align),
    Linebreak,
    Any(AnyNode, Align),
}

/// The plain content of a [`ParNode`].
pub struct ParNodeView {
    pub dir: Dir,
    pub line_spacing: i64,
    pub children: Seq<ParChildView>,
}

/// The plain content of a [`StackChild`].
pub enum StackChildView {
    Spacing(i64),
    Par(ParNodeView, Gen<Align>),
    Any(AnyNode, Gen<Align>),
}

/// The plain content of a [`StackNode`].
pub struct StackNodeView {
    pub dirs: Gen<Dir>,
    pub children: Seq<StackChildView>,
}

/// The plain content of a [`PageRun`].
pub struct PageRunView {
    pub size: Size,
    pub padding: Sides<Linear>,
    pub child: StackNodeView,
}

impl View for ParChild {
    type V = ParChildView;

    open spec fn view(&self) -> ParChildView {
        match self {
            ParChild::Spacing(amount) => ParChildView::Spacing(*amount),
            ParChild::Text(node, align) => ParChildView::Text(node.text@, node.props, *align),
            ParChild::Linebreak => ParChildView::Linebreak,
            ParChild::Any(node, align) => ParChildView::Any(*node, *align),
        }
    }
}

impl View for ParNode {
    type V = ParNodeView;

    open spec fn view(&self) -> ParNodeView {
        ParNodeView {
            dir: self.dir,
            line_spacing: self.line_spacing,
            children: self.children@.map_values(|c: ParChild| c@),
        }
    }
}

impl View for StackChild {
    type V = StackChildView;

    open spec fn view(&self) -> StackChildView {
        match self {
            StackChild::Spacing(amount) => StackChildView::Spacing(*amount),
            StackChild::Par(par, aligns) => StackChildView::Par(par@, *aligns),
            StackChild::Any(node, aligns) => StackChildView::Any(*node, *aligns),
        }
    }
}

impl View for StackNode {
    type V = StackNodeView;

    open spec fn view(&self) -> StackNodeView {
        StackNodeView { dirs: self.dirs, children: self.children@.map_values(|c: StackChild| c@) }
    }
}

impl View for PageRun {
    type V = PageRunView;

    open spec fn view(&self) -> PageRunView {
        PageRunView { size: self.size, padding: self.child.padding, child: self.child.child@ }
    }
}

impl View for Tree {
    type V = Seq<PageRunView>;

    open spec fn view(&self) -> Seq<PageRunView> {
        self.runs@.map_values(|r: PageRun| r@)
    }
}

impl StackChildView {
    /// Whether this child is spacing.
    pub open spec fn is_spacing(self) -> bool {
        self is Spacing
    }
}

} // verus!
