use core::ops::Range;
use vstd::prelude::*;

use crate::error::CopyError;

verus! {

/// One endpoint of a range of indices.
#[derive(Clone, Copy, Debug, PartialEq, Eq, Structural)]
pub enum RangeBound {
    /// The range reaches up to and including this index.
    Included(usize),
    /// The range reaches up to this index and leaves it out.
    Excluded(usize),
    /// The range reaches as far as the buffer does.
    Unbounded,
}

impl RangeBound {
    /// The first index of a range that has this bound as its lower end, or
    /// `None` where that index is larger than every `usize`.
    pub open spec fn first_index(self) -> Option<int> {
        match self {
            RangeBound::Included(n) => Some(n as int),
            RangeBound::Excluded(n) => if n < usize::MAX {
                Some(n + 1)
            } else {
                None
            },
            RangeBound::Unbounded => Some(0),
        }
    }

    /// The index one past the last of a range that has this bound as its
    /// upper end, in a buffer of `len` elements, or `None` where that index is
    /// larger than every `usize`.
    pub open spec fn end_index(self, len: int) -> Option<int> {
        match self {
            RangeBound::Included(n) => if n < usize::MAX {
                Some(n + 1)
            } else {
                None
            },
            RangeBound::Excluded(n) => Some(n as int),
            RangeBound::Unbounded => Some(len),
        }
    }

    /// Computes [`RangeBound::first_index`].
    pub fn resolve_start(self) -> (r: Result<usize, CopyError>)
        ensures
            match self.first_index() {
                Some(i) => r == Ok::<usize, CopyError>(i as usize) && i <= usize::MAX,
                None => r == Err::<usize, CopyError>(CopyError::BoundOverflow),
            },
    {
        match self {
            RangeBound::Included(n) => Ok(n),
            RangeBound::Excluded(n) => match n.checked_add(1) {
                Some(m) => Ok(m),
                None => Err(CopyError::BoundOverflow),
            },
            RangeBound::Unbounded => Ok(0),
        }
    }

    /// Computes [`RangeBound::end_index`] for a buffer of `len` elements.
    pub fn resolve_end(self, len: usize) -> (r: Result<usize, CopyError>)
        ensures
            match self.end_index(len as int) {
                Some(i) => r == Ok::<usize, CopyError>(i as usize) && i <= usize::MAX,
                None => r == Err::<usize, CopyError>(CopyError::BoundOverflow),
            },
    {
        match self {
            RangeBound::Included(n) => match n.checked_add(1) {
                Some(m) => Ok(m),
                None => Err(CopyError::BoundOverflow),
            },
            RangeBound::Excluded(n) => Ok(n),
            RangeBound::Unbounded => Ok(len),
        }
    }
}

/// A description of the source range of a copy by its two endpoints.
pub trait SourceRange {
    /// The lower endpoint.
    spec fn lower(&self) -> RangeBound;

    /// The upper endpoint.
    spec fn upper(&self) -> RangeBound;

    /// Returns the lower endpoint.
    fn start_bound(&self) -> (b: RangeBound)
        ensures
            b == self.lower(),
    ;

    /// Returns the upper endpoint.
    fn end_bound(&self) -> (b: RangeBound)
        ensures
            b == self.upper(),
    ;
}

/// `start..end`: from `start`, up to `end` and without it.
impl SourceRange for Range<usize> {
    open spec fn lower(&self) -> RangeBound {
        RangeBound::Included(self.start)
    }

    open spec fn upper(&self) -> RangeBound {
        RangeBound::Excluded(self.end)
    }

    fn start_bound(&self) -> (b: RangeBound) {
        RangeBound::Included(self.start)
    }

    fn end_bound(&self) -> (b: RangeBound) {
        RangeBound::Excluded(self.end)
    }
}

/// A pair of endpoints, the lower one first.
impl SourceRange for (RangeBound, RangeBound) {
    open spec fn lower(&self) -> RangeBound {
        self.0
    }

    open spec fn upper(&self) -> RangeBound {
        self.1
    }

    fn start_bound(&self) -> (b: RangeBound) {
        self.0
    }

    fn end_bound(&self) -> (b: RangeBound) {
        self.1
    }
}

} // verus!
