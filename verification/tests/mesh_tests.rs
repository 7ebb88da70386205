use vicki_render::mesh::max_index;
use vicki_render::mesh::u32s_to_le_bytes;

#[test]
fn u32_indices_serialize_little_endian() {
    let bytes = u32s_to_le_bytes(&vec![0x0403_0201u32, 0xAABB_CCDDu32]);
    assert_eq!(bytes, vec![0x01u8, 0x02, 0x03, 0x04, 0xDD, 0xCC, 0xBB, 0xAA]);
}

#[test]
fn u32_serialization_of_empty_stream_is_empty() {
    let bytes = u32s_to_le_bytes(&Vec::new());
    assert_eq!(bytes.len(), 0);
}

#[test]
fn max_index_finds_largest() {
    assert_eq!(max_index(&vec![3u32, 7, 2]), 7);
    assert_eq!(max_index(&vec![5u32]), 5);
    assert_eq!(max_index(&vec![0u32, 0, 0]), 0);
    assert_eq!(max_index(&vec![1u32, u32::MAX, 4]), u32::MAX);
}
