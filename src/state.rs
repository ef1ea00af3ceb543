//! The formatting state threaded through execution.
use vstd::prelude::*;

use crate::geom::{Align, Dir, Gen, Linear, Sides, Size};

verus! {

/// A generic font family class.
#[derive(Clone, Copy, Debug, PartialEq, Eq, Structural)]
pub enum FontFamily {
    Serif,
    SansSerif,
    Monospace,
}

/// Font settings: a family preference list, a size and style flags.
#[derive(Clone, Debug)]
pub struct FontState {
    pub families: Vec<FontFamily>,
    pub size: u32,
    pub strong: bool,
    pub emph: bool,
}

/// Resolved text properties, as text runs carry them.
#[derive(Clone, Copy, Debug, PartialEq, Eq, Structural)]
pub struct FontProps {
    pub family: FontFamily,
    pub size: u32,
    pub strong: bool,
    pub emph: bool,
}

/// Paragraph settings, each relative to the font size.
#[derive(Clone, Copy, Debug, PartialEq, Eq, Structural)]
pub struct ParState {
    pub spacing: Linear,
    pub leading: Linear,
    pub word_spacing: Linear,
}

/// Language settings.
#[derive(Clone, Copy, Debug, PartialEq, Eq, Structural)]
pub struct LangState {
    pub dir: Dir,
}

/// Page settings.
#[derive(Clone, Copy, Debug, PartialEq, Eq)]
pub struct PageState {
    pub size: Size,
    pub margins: Sides<Linear>,
}

/// The complete formatting state.
#[derive(Clone, Debug)]
pub struct State {
    pub font: FontState,
    pub par: ParState,
    pub aligns: Gen<Align>,
    pub lang: LangState,
    pub page: PageState,
}

/// The plain content of a [`FontState`].
pub struct FontStateView {
    pub families: Seq<FontFamily>,
    pub size: u32,
    pub strong: bool,
    pub emph: bool,
}

/// The plain content of a [`State`].
pub struct StateView {
    pub font: FontStateView,
    pub par: ParState,
    pub aligns: Gen<Align>,
    pub lang: LangState,
    pub page: PageState,
}

impl View for FontState {
    type V = FontStateView;

    open spec fn view(&self) -> FontStateView {
        FontStateView {
            families: self.families@,
            size: self.size,
            strong: self.strong,
            emph: self.emph,
        }
    }
}

impl View for State {
    type V = StateView;

    open spec fn view(&self) -> StateView {
        StateView {
            font: self.font@,
            par: self.par,
            aligns: self.aligns,
            lang: self.lang,
            page: self.page,
        }
    }
}

impl FontStateView {
    /// The family that text is set in: the first of the list, serif if the
    /// list is empty.
    pub open spec fn primary(self) -> FontFamily {
        if self.families.len() > 0 {
            self.families[0]
        } else {
            FontFamily::Serif
        }
    }

    /// The text properties that this font state resolves to.
    pub open spec fn props(self) -> FontProps {
        FontProps { family: self.primary(), size: self.size, strong: self.strong, emph: self.emph }
    }
}

impl FontState {
    /// The font size.
    pub fn resolve_size(&self) -> (r: u32)
        ensures
            r == self.size,
    {
        self.size
    }

    /// The text properties that text set in this state carries.
    pub fn resolve_props(&self) -> (r: FontProps)
        ensures
            r == self@.props(),
    {
        let family = if self.families.len() > 0 {
            self.families[0]
        } else {
            FontFamily::Serif
        };
        FontProps { family, size: self.size, strong: self.strong, emph: self.emph }
    }

    /// An independent copy of this font state.
    pub fn snapshot(&self) -> (r: FontState)
        ensures
            r@ == self@,
    {
        let mut families: Vec<FontFamily> = Vec::new();
        let mut i: usize = 0;
        while i < self.families.len()
            invariant
                i <= self.families@.len(),
                families@ == self.families@.take(i as int),
            decreases self.families@.len() - i,
        {
            families.push(self.families[i]);
            i += 1;
            assert(families@ =~= self.families@.take(i as int));
        }
        assert(families@ =~= self.families@);
        FontState { families, size: self.size, strong: self.strong, emph: self.emph }
    }
}

impl PageState {
    /// The margins of the page.
    pub fn margins(&self) -> (r: Sides<Linear>)
        ensures
            r == self.margins,
    {
        self.margins
    }
}

impl State {
    /// An independent copy of this state.
    pub fn snapshot(&self) -> (r: State)
        ensures
            r@ == self@,
    {
        State {
            font: self.font.snapshot(),
            par: self.par,
            aligns: self.aligns,
            lang: self.lang,
            page: self.page,
        }
    }
}

} // verus!
