//! Overlap-tolerant copying of a range of elements to another place in the
//! same slice.
//!
//! [`copy_in_place`] moves the elements of a source range to a destination
//! index of the same slice, as if all of them were read before the first is
//! written. [`try_copy_in_place`] does the same for a request that may be
//! invalid, and says what is wrong with one that is.
//!
//! ```
//! use copy_in_place::copy_in_place;
//! use copy_in_place::try_copy_in_place;
//! use copy_in_place::CopyError;
//!
//! let mut digits = [0, 1, 2, 3, 4, 5, 6, 7];
//! copy_in_place(&mut digits, 0..5, 2);
//! assert_eq!(digits, [0, 1, 0, 1, 2, 3, 4, 7]);
//! assert_eq!(try_copy_in_place(&mut digits, 0..5, 4), Err(CopyError::DestOutOfBounds));
//! ```

use vstd::prelude::*;

pub mod bounds;
pub mod error;
pub mod laws;
pub mod relocate;
pub mod window;

pub use crate::bounds::RangeBound;
pub use crate::bounds::SourceRange;
pub use crate::error::CopyError;
use crate::relocate::copy_elements;
use crate::relocate::relocated;
use crate::window::rejection;
use crate::window::resolved_range;
use crate::window::validate;

verus! {

/// Copies the elements of the range `src` to the part of the same slice that
/// starts at `dest` and has the same length. The two parts may overlap.
///
/// The range must resolve to indices that `usize` holds, must not end before
/// it starts, and neither it nor the destination may reach past the end of
/// the slice.
pub fn copy_in_place<T: Copy, R: SourceRange>(slice: &mut [T], src: R, dest: usize)
    requires
        rejection(old(slice)@.len() as int, src.lower(), src.upper(), dest as int) is None,
    ensures
        ({
            let (start, end) = resolved_range(
                old(slice)@.len() as int,
                src.lower(),
                src.upper(),
            ).unwrap();
            let count = end - start;
            &&& final(slice)@ == relocated(old(slice)@, start, dest as int, count)
            &&& final(slice)@.len() == old(slice)@.len()
            &&& forall|i: int|
                dest <= i < dest + count ==> final(slice)@[i] == old(slice)@[start + (i - dest)]
            &&& forall|i: int|
                0 <= i < old(slice)@.len() && !(dest <= i < dest + count)
                    ==> final(slice)@[i] == old(slice)@[i]
            &&& count == 0 || dest == start ==> final(slice)@ == old(slice)@
        }),
{
    if let Ok((start, count)) = validate(slice.len(), &src, dest) {
        copy_elements(slice, start, dest, count);
        proof {
            crate::laws::lemma_relocated_elements(
                old(slice)@,
                start as int,
                dest as int,
                count as int,
            );
            if count == 0 {
                crate::laws::lemma_empty_range_unchanged(old(slice)@, start as int, dest as int);
            }
            if start == dest {
                crate::laws::lemma_same_place_unchanged(old(slice)@, start as int, count as int);
            }
        }
    }
}

/// Copies as [`copy_in_place`] does where the request is valid, and
/// otherwise leaves the slice as it is and returns what is wrong with the
/// request.
pub fn try_copy_in_place<T: Copy, R: SourceRange>(slice: &mut [T], src: R, dest: usize) -> (r:
    Result<(), CopyError>)
    ensures
        match rejection(old(slice)@.len() as int, src.lower(), src.upper(), dest as int) {
            Some(e) => r == Err::<(), CopyError>(e) && final(slice)@ == old(slice)@,
            None => {
                let (start, end) = resolved_range(
                    old(slice)@.len() as int,
                    src.lower(),
                    src.upper(),
                ).unwrap();
                r == Ok::<(), CopyError>(()) && final(slice)@ == relocated(
                    old(slice)@,
                    start,
                    dest as int,
                    end - start,
                )
            },
        },
{
    match validate(slice.len(), &src, dest) {
        Ok((start, count)) => {
            copy_elements(slice, start, dest, count);
            Ok(())
        },
        Err(e) => Err(e),
    }
}

} // verus!
