use vstd::prelude::*;

use crate::bounds::RangeBound;
use crate::error::CopyError;
use crate::relocate::relocated;
use crate::relocate::windows_fit;
use crate::window::rejection;
use crate::window::resolved_range;

verus! {

/// A copy changes the destination window and nothing else: the window holds
/// what the source window held before, whether or not the two overlap, and
/// every other element is as it was.
pub proof fn lemma_relocated_elements<T>(s: Seq<T>, src: int, dest: int, count: int)
    requires
        windows_fit(s.len() as int, src, dest, count),
    ensures
        relocated(s, src, dest, count).len() == s.len(),
        forall|i: int|
            dest <= i < dest + count ==> relocated(s, src, dest, count)[i] == s[src + (i - dest)],
        forall|i: int|
            0 <= i < s.len() && !(dest <= i < dest + count) ==> relocated(s, src, dest, count)[i]
                == s[i],
{
}

/// Copying an empty range changes nothing, wherever in the buffer it is
/// copied to, the position just past the last element included.
pub proof fn lemma_empty_range_unchanged<T>(s: Seq<T>, src: int, dest: int)
    requires
        windows_fit(s.len() as int, src, dest, 0),
    ensures
        relocated(s, src, dest, 0) == s,
{
    assert(relocated(s, src, dest, 0) =~= s);
}

/// Copying a range onto itself changes nothing.
pub proof fn lemma_same_place_unchanged<T>(s: Seq<T>, src: int, count: int)
    requires
        windows_fit(s.len() as int, src, src, count),
    ensures
        relocated(s, src, src, count) == s,
{
    assert(relocated(s, src, src, count) =~= s);
}

/// The sequence `s` after the elements of `values` have been written into it
/// one by one, the first of them at index `at`.
pub open spec fn overwritten<T>(s: Seq<T>, at: int, values: Seq<T>) -> Seq<T>
    decreases values.len(),
{
    if values.len() == 0 {
        s
    } else {
        overwritten(s.update(at, values[0]), at + 1, values.drop_first())
    }
}

/// A copy gives what one gets by first setting the source window aside and
/// then writing the elements set aside into the destination window one by
/// one.
pub proof fn lemma_relocated_is_snapshot_written<T>(s: Seq<T>, src: int, dest: int, count: int)
    requires
        windows_fit(s.len() as int, src, dest, count),
    ensures
        relocated(s, src, dest, count) == overwritten(s, dest, s.subrange(src, src + count)),
{
    lemma_overwritten(s, dest, s.subrange(src, src + count));
    assert(relocated(s, src, dest, count) =~= overwritten(s, dest, s.subrange(src, src + count)));
}

/// Writing `values` into `s` from index `at` on replaces that stretch of `s`
/// and leaves the rest.
proof fn lemma_overwritten<T>(s: Seq<T>, at: int, values: Seq<T>)
    requires
        0 <= at,
        at + values.len() <= s.len(),
    ensures
        overwritten(s, at, values) == s.subrange(0, at) + values + s.subrange(
            at + values.len(),
            s.len() as int,
        ),
    decreases values.len(),
{
    if values.len() == 0 {
        assert(s =~= s.subrange(0, at) + values + s.subrange(at + values.len(), s.len() as int));
    } else {
        let next = s.update(at, values[0]);
        lemma_overwritten(next, at + 1, values.drop_first());
        assert(next.subrange(0, at + 1) + values.drop_first() + next.subrange(
            at + 1 + values.drop_first().len(),
            next.len() as int,
        ) =~= s.subrange(0, at) + values + s.subrange(at + values.len(), s.len() as int));
    }
}

/// A request is granted exactly when its endpoints resolve to a range
/// `[start, end)` that does not end before it starts and lies in the buffer,
/// as the destination window of the same length does.
pub proof fn lemma_granted_request(len: int, lower: RangeBound, upper: RangeBound, dest: int)
    requires
        0 <= len,
        0 <= dest,
    ensures
        rejection(len, lower, upper, dest) is None <==> ({
            &&& resolved_range(len, lower, upper) matches Some((start, end))
            &&& windows_fit(len, start, dest, end - start)
        }),
{
}

/// For a range given as `start..end`, the request is turned down for an
/// inverted range first, then for a range that leaves the buffer, then for a
/// destination window that leaves it, and granted otherwise.
pub proof fn lemma_half_open_rejection(len: int, start: usize, end: usize, dest: usize)
    requires
        0 <= len,
    ensures
        start > end ==> rejection(
            len,
            RangeBound::Included(start),
            RangeBound::Excluded(end),
            dest as int,
        ) == Some(CopyError::InvertedRange),
        start <= end && end > len ==> rejection(
            len,
            RangeBound::Included(start),
            RangeBound::Excluded(end),
            dest as int,
        ) == Some(CopyError::SourceOutOfBounds),
        start <= end <= len && dest + (end - start) > len ==> rejection(
            len,
            RangeBound::Included(start),
            RangeBound::Excluded(end),
            dest as int,
        ) == Some(CopyError::DestOutOfBounds),
        start <= end <= len && dest + (end - start) <= len ==> rejection(
            len,
            RangeBound::Included(start),
            RangeBound::Excluded(end),
            dest as int,
        ) is None,
{
}

} // verus!
