use vstd::prelude::*;

use crate::layout::geometry::Rect;
use crate::layout::saturating::{max_size, min_size, sat_add};

verus! {

/// How a node sizes itself along one axis: a fixed extent, an extent that
/// greedily absorbs available space, or one that expands only when no greedy
/// sibling wants the space. The payload is the minimum content extent the
/// node needs even when it is not expanded.
#[derive(Clone, Copy, Debug, PartialEq, Eq, Structural)]
pub enum Sizing {
    Greedy(usize),
    Static(usize),
    Flexible(usize),
}

impl Sizing {
    /// The minimum content extent, regardless of the mode.
    pub open spec fn spec_min_content_size(&self) -> usize {
        match *self {
            Sizing::Static(sz) => sz,
            Sizing::Greedy(sz) => sz,
            Sizing::Flexible(sz) => sz,
        }
    }

    /// The minimum extent grown by `n` and clamped to `constraint`, keeping
    /// the mode. When the grown extent does not fit the machine word the
    /// original minimum is kept (still clamped), so the minimum never wraps.
    pub open spec fn spec_grown_min(self, n: usize, constraint: usize) -> usize {
        let sz = self.spec_min_content_size();
        let grown = if sz + n > usize::MAX {
            sz
        } else {
            sat_add(sz, n)
        };
        min_size(grown, constraint)
    }

    /// The same mode with the minimum extent grown by `n` and clamped to
    /// `constraint`, per [`Sizing::spec_grown_min`].
    pub open spec fn spec_clamped_add_constrained(self, n: usize, constraint: usize) -> Sizing {
        match self {
            Sizing::Static(_) => Sizing::Static(self.spec_grown_min(n, constraint)),
            Sizing::Greedy(_) => Sizing::Greedy(self.spec_grown_min(n, constraint)),
            Sizing::Flexible(_) => Sizing::Flexible(self.spec_grown_min(n, constraint)),
        }
    }

    /// Accumulation of a sibling's sizing into a running stack total under an
    /// outer constraint: a `Static` total takes on the sibling's mode with the
    /// total added (clamped to the constraint); a `Greedy` or `Flexible` total
    /// keeps its mode and absorbs the sibling's minimum extent.
    pub open spec fn spec_accumulate(self, other: Sizing, constraint: usize) -> Sizing {
        match self {
            Sizing::Static(n) => other.spec_clamped_add_constrained(n, constraint),
            Sizing::Greedy(n) => Sizing::Greedy(sat_add(n, other.spec_min_content_size())),
            Sizing::Flexible(n) => Sizing::Flexible(sat_add(n, other.spec_min_content_size())),
        }
    }

    pub fn clamped_accumulate_constrained(&mut self, other: &Sizing, constraint: usize)
        ensures
            *final(self) == old(self).spec_accumulate(*other, constraint),
    {
        *self = match *self {
            Sizing::Static(n) => {
                let mut result = *other;
                result.clamped_add_constrained(n, constraint);
                result
            },
            Sizing::Greedy(n) => Sizing::Greedy(
                n.saturating_add(other.min_content_size()),
            ),
            Sizing::Flexible(n) => Sizing::Flexible(
                n.saturating_add(other.min_content_size()),
            ),
        }
    }

    pub fn clamped_add(&mut self, n: usize)
        ensures
            *final(self) == old(self).spec_clamped_add_constrained(n, usize::MAX),
    {
        self.clamped_add_constrained(n, usize::MAX)
    }

    pub fn clamped_add_constrained(&mut self, n: usize, constraint: usize)
        ensures
            *final(self) == old(self).spec_clamped_add_constrained(n, constraint),
    {
        let sz = self.min_content_size();
        let grown = match sz.checked_add(n) {
            Some(g) => g,
            None => sz,
        };
        let clamped = if grown <= constraint {
            grown
        } else {
            constraint
        };
        *self = match *self {
            Sizing::Static(_) => Sizing::Static(clamped),
            Sizing::Greedy(_) => Sizing::Greedy(clamped),
            Sizing::Flexible(_) => Sizing::Flexible(clamped),
        };
    }

    pub fn min_content_size(&self) -> (r: usize)
        ensures
            r == self.spec_min_content_size(),
    {
        match self {
            Sizing::Static(sz) | Sizing::Greedy(sz) | Sizing::Flexible(sz) => *sz,
        }
    }
}

/// The per-axis sizing pair of a measured node.
#[derive(Clone, Copy, Debug, PartialEq, Eq, Structural)]
pub struct ItemSizing {
    pub horizontal: Sizing,
    pub vertical: Sizing,
}

/// The concrete extent a sizing takes inside an available extent: a fixed
/// sizing yields exactly its extent; an expandable one grows to the available
/// extent but never below its minimum.
pub open spec fn spec_fit_extent(s: Sizing, available: usize) -> usize {
    match s {
        Sizing::Static(n) => n,
        Sizing::Greedy(n) => max_size(available, n),
        Sizing::Flexible(n) => max_size(available, n),
    }
}

impl ItemSizing {
    /// The rectangle this sizing takes inside `bounds`: the same origin, each
    /// extent fitted by [`spec_fit_extent`].
    pub open spec fn spec_fit_into(self, bounds: Rect) -> Rect {
        Rect {
            x: bounds.x,
            y: bounds.y,
            width: spec_fit_extent(self.horizontal, bounds.width),
            height: spec_fit_extent(self.vertical, bounds.height),
        }
    }

    pub fn new(horizontal: Sizing, vertical: Sizing) -> (r: Self)
        ensures
            r == (ItemSizing { horizontal, vertical }),
    {
        ItemSizing { horizontal, vertical }
    }

    pub fn fit_into(&self, bounds: &Rect) -> (r: Rect)
        ensures
            r == self.spec_fit_into(*bounds),
    {
        let width = match self.horizontal {
            Sizing::Greedy(n) | Sizing::Flexible(n) => if bounds.width >= n {
                bounds.width
            } else {
                n
            },
            Sizing::Static(n) => n,
        };
        let height = match self.vertical {
            Sizing::Greedy(n) | Sizing::Flexible(n) => if bounds.height >= n {
                bounds.height
            } else {
                n
            },
            Sizing::Static(n) => n,
        };
        Rect::new(bounds.x, bounds.y, width, height)
    }
}

} // verus!
