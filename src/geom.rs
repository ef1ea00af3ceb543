//! Geometry value types.
use vstd::prelude::*;

verus! {

/// Alignment along an axis.
#[derive(Clone, Copy, Debug, PartialEq, Eq, Structural)]
pub enum Align {
    Start,
    Center,
    End,
}

/// A layouting direction.
#[derive(Clone, Copy, Debug, PartialEq, Eq, Structural)]
pub enum Dir {
    LTR,
    RTL,
    TTB,
    BTT,
}

/// A pair of values for the main (block) and cross (inline) axes.
#[derive(Clone, Copy, Debug, PartialEq, Eq)]
pub struct Gen<T> {
    pub main: T,
    pub cross: T,
}

impl<T> Gen<T> {
    /// Create a new instance from the two components.
    pub fn new(main: T, cross: T) -> (r: Self)
        ensures
            r.cross == cross,
            r.main == main,
    {
        Gen { main, cross }
    }
}

/// One of the two generic axes.
#[derive(Clone, Copy, Debug, PartialEq, Eq, Structural)]
pub enum GenAxis {
    Cross,
    Main,
}

/// A size in two dimensions, in abstract length units.
#[derive(Clone, Copy, Debug, PartialEq, Eq, Structural)]
pub struct Size {
    pub width: i64,
    pub height: i64,
}

/// Thousandths by which the relative part of a [`Linear`] is counted.
pub const REL_SCALE: u64 = 1000;

/// A length made of a part relative to a base (in thousandths of the base)
/// and an absolute part.
#[derive(Clone, Copy, Debug, PartialEq, Eq, Structural)]
pub struct Linear {
    pub rel: u32,
    pub abs: i32,
}

/// The length that a linear value stands for, given its base.
pub open spec fn resolve_linear(l: Linear, base: u32) -> int {
    (l.rel as int * base as int) / (REL_SCALE as int) + l.abs as int
}

impl Linear {
    /// Resolve this linear value relative to `base`.
    pub fn resolve(&self, base: u32) -> (r: i64)
        ensures
            r as int == resolve_linear(*self, base),
    {
        assert(self.rel as int * base as int <= 0xffff_ffff * 0xffff_ffff) by (nonlinear_arith)
            requires
                self.rel <= 0xffff_ffff,
                base <= 0xffff_ffff,
        ;
        let prod: u64 = self.rel as u64 * base as u64;
        let scaled: u64 = prod / REL_SCALE;
        scaled as i64 + self.abs as i64
    }
}

/// A value for each of the four sides of a rectangle.
#[derive(Clone, Copy, Debug, PartialEq, Eq)]
pub struct Sides<T> {
    pub left: T,
    pub top: T,
    pub right: T,
    pub bottom: T,
}

} // verus!
