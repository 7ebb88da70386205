use vicki_render::RenderError;
use vicki_render::arena::BufferBuilder;

#[test]
fn append_offsets_aligned_and_monotonic() {
    let mut b = BufferBuilder::new(64);
    let o1 = b.append(&[1u8, 2, 3], 1).unwrap();
    assert_eq!(o1, 0);
    let o2 = b.append(&[4u8, 5, 6, 7, 8], 4).unwrap();
    assert_eq!(o2, 4);
    assert_eq!(o2 % 4, 0);
    let o3 = b.append(&[9u8, 10], 8).unwrap();
    assert_eq!(o3, 16);
    assert_eq!(o3 % 8, 0);
    assert!(o1 <= o2 && o2 <= o3);
    assert_eq!(b.written_bytes(), 18);
}

#[test]
fn append_empty_returns_zero_without_advancing() {
    let mut b = BufferBuilder::new(16);
    b.append(&[1u8, 2, 3], 1).unwrap();
    let off = b.append(&[], 8).unwrap();
    assert_eq!(off, 0);
    assert_eq!(b.written_bytes(), 3);
    assert_eq!(b.data, vec![1u8, 2, 3]);
}

#[test]
fn append_rejects_non_power_of_two_alignment() {
    let mut b = BufferBuilder::new(16);
    assert_eq!(b.append(&[1u8], 3), Err(RenderError::AlignmentNotPowerOfTwo));
    assert_eq!(b.append(&[1u8], 0), Err(RenderError::AlignmentNotPowerOfTwo));
    assert_eq!(b.append(&[1u8], 6), Err(RenderError::AlignmentNotPowerOfTwo));
    assert_eq!(b.written_bytes(), 0);
}

#[test]
fn append_over_capacity_rejected_and_preserves_contents() {
    let mut b = BufferBuilder::new(8);
    let off = b.append(&[1u8, 2, 3, 4], 4).unwrap();
    assert_eq!(off, 0);
    let r = b.append(&[9u8, 9, 9, 9, 9], 4);
    assert_eq!(r, Err(RenderError::ArenaCapacityExceeded));
    assert_eq!(b.written_bytes(), 4);
    assert_eq!(b.data, vec![1u8, 2, 3, 4]);
    // A fitting append still works afterwards.
    let off2 = b.append(&[5u8, 6, 7, 8], 4).unwrap();
    assert_eq!(off2, 4);
    assert_eq!(b.data, vec![1u8, 2, 3, 4, 5, 6, 7, 8]);
}

#[test]
fn append_pads_alignment_gap_with_zeros() {
    let mut b = BufferBuilder::new(16);
    b.append(&[7u8], 1).unwrap();
    let off = b.append(&[9u8, 9], 4).unwrap();
    assert_eq!(off, 4);
    assert_eq!(b.data, vec![7u8, 0, 0, 0, 9, 9]);
}

#[test]
fn append_exact_fit_is_accepted() {
    let mut b = BufferBuilder::new(4);
    let off = b.append(&[1u8, 2, 3, 4], 2).unwrap();
    assert_eq!(off, 0);
    assert_eq!(b.written_bytes(), 4);
    assert_eq!(b.append(&[1u8], 1), Err(RenderError::ArenaCapacityExceeded));
}
