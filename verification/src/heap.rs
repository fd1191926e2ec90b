//! The block layout behind the C allocator: every allocation is a block
//! that starts with a header, one alignment unit wide, which records the
//! size that the caller asked for, followed by the caller's bytes.
use vstd::prelude::*;

verus! {

/// The alignment of every block, and the width of its header.
pub const MAX_ALIGN: usize = 16;

/// Whether a block for `size` caller bytes has a valid layout: its size,
/// rounded up to the alignment, stays within `isize::MAX`.
pub open spec fn block_fits(size: int) -> bool {
    size + MAX_ALIGN + (MAX_ALIGN - 1) <= isize::MAX
}

/// The size of the block for `size` caller bytes (`malloc`, `realloc`,
/// `free`): the header and the bytes; `None` when that block has no valid
/// layout.
pub fn block_size(size: usize) -> (r: Option<usize>)
    ensures
        block_fits(size as int) ==> r == Some((size + MAX_ALIGN) as usize),
        !block_fits(size as int) ==> r is None,
{
    if size <= (isize::MAX as usize) - (2 * MAX_ALIGN - 1) {
        Some(size + MAX_ALIGN)
    } else {
        None
    }
}

/// The caller bytes of an array of `nmemb` elements of `size` bytes
/// (`calloc`); `None` when the product overflows or its block has no valid
/// layout.
pub fn array_bytes(nmemb: usize, size: usize) -> (r: Option<usize>)
    ensures
        block_fits(nmemb * size) ==> r == Some((nmemb * size) as usize),
        !block_fits(nmemb * size) ==> r is None,
{
    match nmemb.checked_mul(size) {
        None => None,
        Some(total) => if total <= (isize::MAX as usize) - (2 * MAX_ALIGN - 1) {
            Some(total)
        } else {
            None
        },
    }
}

} // verus!
