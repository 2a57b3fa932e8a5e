use vstd::prelude::*;

use crate::bounds::RangeBound;
use crate::bounds::SourceRange;
use crate::error::CopyError;

verus! {

/// The half-open interval `[start, end)` that the two endpoints stand for in
/// a buffer of `len` elements, as the pair `(start, end)`, or `None` where an
/// endpoint names an index larger than every `usize`.
pub open spec fn resolved_range(len: int, lower: RangeBound, upper: RangeBound) -> Option<
    (int, int),
> {
    match (lower.first_index(), upper.end_index(len)) {
        (Some(start), Some(end)) => Some((start, end)),
        _ => None,
    }
}

/// What is wrong with copying `[start, end)` to `dest` in a buffer of `len`
/// elements, or `None` where nothing is.
///
/// The source range is judged before the destination, and its orientation
/// before its extent.
pub open spec fn window_fault(len: int, start: int, end: int, dest: int) -> Option<CopyError> {
    if start > end {
        Some(CopyError::InvertedRange)
    } else if end > len {
        Some(CopyError::SourceOutOfBounds)
    } else if dest + (end - start) > len {
        Some(CopyError::DestOutOfBounds)
    } else {
        None
    }
}

/// Why a request to copy the range between `lower` and `upper` to `dest` is
/// turned down in a buffer of `len` elements, or `None` where it is granted.
pub open spec fn rejection(len: int, lower: RangeBound, upper: RangeBound, dest: int) -> Option<
    CopyError,
> {
    match resolved_range(len, lower, upper) {
        Some((start, end)) => window_fault(len, start, end, dest),
        None => Some(CopyError::BoundOverflow),
    }
}

/// Checks that `[start, end)` is a range of a buffer of `len` elements and
/// that as many elements fit at `dest`. Returns the number of elements in the
/// range.
pub fn check_window(len: usize, start: usize, end: usize, dest: usize) -> (r: Result<
    usize,
    CopyError,
>)
    ensures
        match window_fault(len as int, start as int, end as int, dest as int) {
            Some(e) => r == Err::<usize, CopyError>(e),
            None => r == Ok::<usize, CopyError>((end - start) as usize),
        },
{
    if start > end {
        return Err(CopyError::InvertedRange);
    }
    if end > len {
        return Err(CopyError::SourceOutOfBounds);
    }
    let count: usize = end - start;
    if dest > len - count {
        return Err(CopyError::DestOutOfBounds);
    }
    Ok(count)
}

/// Resolves the endpoints of `src` in a buffer of `len` elements and checks
/// the resulting range and the destination window against the buffer. Returns
/// the first index of the range and the number of elements in it.
pub fn validate<R: SourceRange>(len: usize, src: &R, dest: usize) -> (r: Result<
    (usize, usize),
    CopyError,
>)
    ensures
        match rejection(len as int, src.lower(), src.upper(), dest as int) {
            Some(e) => r == Err::<(usize, usize), CopyError>(e),
            None => {
                let (start, end) = resolved_range(len as int, src.lower(), src.upper()).unwrap();
                r == Ok::<(usize, usize), CopyError>((start as usize, (end - start) as usize))
            },
        },
{
    let start: usize = match src.start_bound().resolve_start() {
        Ok(start) => start,
        Err(e) => {
            return Err(e);
        },
    };
    let end: usize = match src.end_bound().resolve_end(len) {
        Ok(end) => end,
        Err(e) => {
            return Err(e);
        },
    };
    match check_window(len, start, end, dest) {
        Ok(count) => Ok((start, count)),
        Err(e) => Err(e),
    }
}

} // verus!
