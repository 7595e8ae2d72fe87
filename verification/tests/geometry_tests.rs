use gl_quad::geometry::{
    decode_words, encode_words, index_bytes, index_data, vertex_bytes, vertex_data,
    ATTRIBUTE_OFFSET, BYTES_PER_FLOAT, COMPONENTS_PER_VERTEX, HALF_BITS, INDEX_COUNT,
    NEG_HALF_BITS, VERTEX_COUNT, VERTEX_STRIDE, ZERO_BITS,
};

#[test]
fn attribute_layout_is_three_floats_tightly_packed() {
    assert_eq!(VERTEX_STRIDE, COMPONENTS_PER_VERTEX * BYTES_PER_FLOAT);
    assert_eq!(VERTEX_STRIDE as usize, 3 * std::mem::size_of::<f32>());
    assert_eq!(ATTRIBUTE_OFFSET, 0);
    let bytes = vertex_bytes();
    assert_eq!(bytes.len(), (VERTEX_COUNT * VERTEX_STRIDE) as usize);
}

#[test]
fn vertex_bit_patterns_are_the_quad_corners() {
    assert_eq!(HALF_BITS, 0.5f32.to_bits());
    assert_eq!(NEG_HALF_BITS, (-0.5f32).to_bits());
    assert_eq!(ZERO_BITS, 0.0f32.to_bits());
    let words = vertex_data();
    let expected: Vec<u32> = [
        [0.5f32, 0.5, 0.0],
        [0.5, -0.5, 0.0],
        [-0.5, -0.5, 0.0],
        [-0.5, 0.5, 0.0],
    ]
    .iter()
    .flatten()
    .map(|c| c.to_bits())
    .collect();
    assert_eq!(words, expected);
}

#[test]
fn index_data_is_the_two_triangles() {
    assert_eq!(index_data(), vec![0, 1, 3, 1, 2, 3]);
    assert_eq!(INDEX_COUNT as usize, index_data().len());
}

#[test]
fn index_bytes_match_in_memory_image() {
    let triangles: [[u32; 3]; 2] = [[0, 1, 3], [1, 2, 3]];
    let expected: &[u8] = bytemuck::cast_slice(&triangles);
    assert_eq!(index_bytes().as_slice(), expected);
}

#[test]
fn vertex_bytes_match_in_memory_image() {
    let vertices: [[f32; 3]; 4] = [
        [0.5, 0.5, 0.0],
        [0.5, -0.5, 0.0],
        [-0.5, -0.5, 0.0],
        [-0.5, 0.5, 0.0],
    ];
    let expected: &[u8] = bytemuck::cast_slice(&vertices);
    assert_eq!(vertex_bytes().as_slice(), expected);
}

#[test]
fn index_upload_round_trips() {
    let words = index_data();
    let bytes = encode_words(&words);
    let back = decode_words(&bytes).expect("a whole number of words");
    assert_eq!(back, words);
}

#[test]
fn arbitrary_words_round_trip() {
    let words: Vec<u32> = vec![0, 1, 0xFF, 0x1234_5678, u32::MAX, 0xDEAD_BEEF];
    let bytes = encode_words(&words);
    assert_eq!(bytes.len(), 4 * words.len());
    assert_eq!(decode_words(&bytes), Some(words));
}

#[test]
fn ragged_bytes_are_rejected() {
    let bytes = vec![1u8, 2, 3];
    assert_eq!(decode_words(&bytes), None);
    let bytes = vec![1u8, 2, 3, 4, 5];
    assert_eq!(decode_words(&bytes), None);
}

#[test]
fn encoding_is_little_endian() {
    let words = vec![0x0403_0201u32];
    assert_eq!(encode_words(&words), vec![0x01, 0x02, 0x03, 0x04]);
    assert_eq!(encode_words(&words), 0x0403_0201u32.to_le_bytes().to_vec());
}
