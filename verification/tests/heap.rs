use basisu_c_sys::heap::{array_bytes, block_size, MAX_ALIGN};

#[test]
fn blocks_have_a_header() {
    assert_eq!(block_size(10), Some(10 + MAX_ALIGN));
    assert_eq!(block_size(0), Some(16));
    assert_eq!(array_bytes(10, 10), Some(100));
}

#[test]
fn oversized_blocks_have_no_layout() {
    assert_eq!(block_size(usize::MAX), None);
    assert_eq!(block_size(isize::MAX as usize - 30), None);
    assert_eq!(block_size(isize::MAX as usize - 31), Some(isize::MAX as usize - 15));
    assert_eq!(array_bytes(usize::MAX, 2), None);
    assert_eq!(array_bytes(1 << 40, 1 << 30), None);
}
