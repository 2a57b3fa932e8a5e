use vstd::prelude::*;

verus! {

/// The sequence `s` after the `count` elements from index `src` on have been
/// written over the `count` elements from index `dest` on: all of them are
/// read before the first is written.
pub open spec fn relocated<T>(s: Seq<T>, src: int, dest: int, count: int) -> Seq<T> {
    s.subrange(0, dest) + s.subrange(src, src + count) + s.subrange(dest + count, s.len() as int)
}

/// Whether `count` elements can be read from index `src` on, and as many
/// written from index `dest` on, in a buffer of `len` elements.
pub open spec fn windows_fit(len: int, src: int, dest: int, count: int) -> bool {
    &&& 0 <= src
    &&& 0 <= dest
    &&& 0 <= count
    &&& src + count <= len
    &&& dest + count <= len
}

/// Copies from the lowest index up, which reads every element before it is
/// overwritten as long as the destination does not lie after the source.
fn copy_ascending<T: Copy>(slice: &mut [T], src: usize, dest: usize, count: usize)
    requires
        windows_fit(old(slice)@.len() as int, src as int, dest as int, count as int),
        dest <= src,
    ensures
        final(slice)@ == relocated(old(slice)@, src as int, dest as int, count as int),
{
    let len: usize = slice.len();
    let mut i: usize = 0;
    while i < count
        invariant
            i <= count,
            dest <= src,
            src + count <= len,
            slice@.len() == len == old(slice)@.len(),
            forall|k: int| dest <= k < dest + i ==> slice@[k] == old(slice)@[src + (k - dest)],
            forall|k: int|
                0 <= k < slice@.len() && !(dest <= k < dest + i) ==> slice@[k] == old(slice)@[k],
        decreases count - i,
    {
        let value = slice[src + i];
        slice[dest + i] = value;
        i += 1;
    }
    assert(slice@ =~= relocated(old(slice)@, src as int, dest as int, count as int));
}

/// Copies from the highest index down, which reads every element before it
/// is overwritten as long as the destination does not lie before the source.
fn copy_descending<T: Copy>(slice: &mut [T], src: usize, dest: usize, count: usize)
    requires
        windows_fit(old(slice)@.len() as int, src as int, dest as int, count as int),
        src <= dest,
    ensures
        final(slice)@ == relocated(old(slice)@, src as int, dest as int, count as int),
{
    let len: usize = slice.len();
    let mut i: usize = count;
    while i > 0
        invariant
            i <= count,
            src <= dest,
            dest + count <= len,
            slice@.len() == len == old(slice)@.len(),
            forall|k: int|
                dest + i <= k < dest + count ==> slice@[k] == old(slice)@[src + (k - dest)],
            forall|k: int|
                0 <= k < slice@.len() && !(dest + i <= k < dest + count)
                    ==> slice@[k] == old(slice)@[k],
        decreases i,
    {
        i -= 1;
        let value = slice[src + i];
        slice[dest + i] = value;
    }
    assert(slice@ =~= relocated(old(slice)@, src as int, dest as int, count as int));
}

/// Copies `count` elements from index `src` on to index `dest` on. The two
/// windows may overlap in any way.
pub fn copy_elements<T: Copy>(slice: &mut [T], src: usize, dest: usize, count: usize)
    requires
        windows_fit(old(slice)@.len() as int, src as int, dest as int, count as int),
    ensures
        final(slice)@ == relocated(old(slice)@, src as int, dest as int, count as int),
{
    if dest <= src {
        copy_ascending(slice, src, dest, count);
    } else {
        copy_descending(slice, src, dest, count);
    }
}

} // verus!
