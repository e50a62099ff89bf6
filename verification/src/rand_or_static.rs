//! [`RandOrStatic`]: a quantity that is either fixed or drawn at random from
//! a half-open range when it is resolved.

use vstd::prelude::*;

use crate::rng;

verus! {

/// A random value or a static value
#[derive(Debug, Clone, Copy, PartialEq, Eq, Hash)]
pub enum RandOrStatic {
    /// A random value in the given range, [start, end).
    Rand { start: usize, end: usize },
    /// A static value, as given.
    Static { value: usize },
}

impl RandOrStatic {
    /// A quantity specification is well formed when a random range is not
    /// inverted. An inverted range is a configuration defect, and resolving
    /// it is refused rather than clamped.
    pub open spec fn wf(self) -> bool {
        match self {
            RandOrStatic::Rand { start, end } => start <= end,
            RandOrStatic::Static { .. } => true,
        }
    }

    /// The counts this quantity can resolve to: exactly the stored value for
    /// a static quantity; any value of the range for a random one, where an
    /// empty range yields zero rather than a sampling fault.
    pub open spec fn resolves_to(self, n: int) -> bool {
        match self {
            RandOrStatic::Rand { start, end } => if start < end {
                start <= n < end
            } else {
                n == 0
            },
            RandOrStatic::Static { value } => n == value,
        }
    }

    /// Report whether this quantity specification is well formed, so that a
    /// caller holding arbitrary configuration data can refuse a defective one
    /// before resolving it.
    pub fn is_well_formed(&self) -> (r: bool)
        ensures
            r == self.wf(),
    {
        match self {
            RandOrStatic::Rand { start, end } => start <= end,
            RandOrStatic::Static { .. } => true,
        }
    }

    /// Resolve this quantity to a concrete count, drawing from `rng` once
    /// for a non-empty random range and not at all otherwise.
    pub fn generate_num(self, rng: &mut rand::rngs::SmallRng) -> (n: usize)
        requires
            self.wf(),
        ensures
            self.resolves_to(n as int),
    {
        match self {
            RandOrStatic::Rand { start, end } => {
                if start < end {
                    rng::gen_range(rng, start, end)
                } else {
                    0
                }
            },
            RandOrStatic::Static { value } => value,
        }
    }
}

impl core::convert::From<core::ops::Range<usize>> for RandOrStatic {
    /// A range becomes a random quantity over that range.
    fn from(range: core::ops::Range<usize>) -> (r: Self) {
        RandOrStatic::Rand { start: range.start, end: range.end }
    }
}

impl vstd::std_specs::convert::FromSpecImpl<core::ops::Range<usize>> for RandOrStatic {
    open spec fn obeys_from_spec() -> bool {
        true
    }

    open spec fn from_spec(range: core::ops::Range<usize>) -> Self {
        RandOrStatic::Rand { start: range.start, end: range.end }
    }
}

impl core::convert::From<(usize, usize)> for RandOrStatic {
    /// A pair becomes a random quantity over the half-open range it spans.
    fn from(bounds: (usize, usize)) -> (r: Self) {
        RandOrStatic::Rand { start: bounds.0, end: bounds.1 }
    }
}

impl vstd::std_specs::convert::FromSpecImpl<(usize, usize)> for RandOrStatic {
    open spec fn obeys_from_spec() -> bool {
        true
    }

    open spec fn from_spec(bounds: (usize, usize)) -> Self {
        RandOrStatic::Rand { start: bounds.0, end: bounds.1 }
    }
}

impl core::convert::From<usize> for RandOrStatic {
    /// A bare number becomes a static quantity.
    fn from(value: usize) -> (r: Self) {
        RandOrStatic::Static { value }
    }
}

impl vstd::std_specs::convert::FromSpecImpl<usize> for RandOrStatic {
    open spec fn obeys_from_spec() -> bool {
        true
    }

    open spec fn from_spec(value: usize) -> Self {
        RandOrStatic::Static { value }
    }
}

} // verus!
