use vct::load_gltf::align_vector;

#[test]
fn bytes_are_padded_to_the_alignment() {
    let mut bytes: Vec<u8> = vec![1, 2, 3];
    align_vector(&mut bytes, 256, 0);
    assert_eq!(bytes.len(), 256);
    assert_eq!(&bytes[..3], &[1, 2, 3]);
    assert!(bytes[3..].iter().all(|byte| *byte == 0));
    align_vector(&mut bytes, 256, 9);
    assert_eq!(bytes.len(), 256);
    bytes.push(7);
    align_vector(&mut bytes, 256, 9);
    assert_eq!(bytes.len(), 512);
    assert_eq!(bytes[256], 7);
    assert!(bytes[257..].iter().all(|byte| *byte == 9));
}

#[test]
fn indices_are_padded_in_elements() {
    let mut indices: Vec<u32> = vec![5; 70];
    align_vector(&mut indices, 256, 0);
    assert_eq!(indices.len(), 128);
    assert_eq!((indices.len() * 4) % 256, 0);
    assert!(indices[..70].iter().all(|index| *index == 5));
    assert!(indices[70..].iter().all(|index| *index == 0));
}

#[test]
fn empty_and_aligned_vectors_stay() {
    let mut empty: Vec<u32> = vec![];
    align_vector(&mut empty, 256, 1);
    assert!(empty.is_empty());
    let mut full: Vec<u32> = vec![3; 64];
    align_vector(&mut full, 256, 1);
    assert_eq!(full, vec![3; 64]);
    let mut single: Vec<u32> = vec![3];
    align_vector(&mut single, 4, 1);
    assert_eq!(single, vec![3]);
}

#[test]
fn primitives_start_aligned_and_are_rebased() {
    let mut indices: Vec<u32> = Vec::new();
    let first = vct::load_gltf::append_primitive(&mut indices, &vec![0, 1, 2, 2, 1, 3], 0, 40, 16);
    assert_eq!(first.index, 0..6);
    assert_eq!(first.material, 40);
    assert_eq!(indices, vec![0, 1, 2, 2, 1, 3]);

    let second = vct::load_gltf::append_primitive(&mut indices, &vec![0, 1, 2], 4, 41, 16);
    assert_eq!(second.index, 8..11);
    assert_eq!(second.material, 41);
    assert_eq!(indices, vec![0, 1, 2, 2, 1, 3, 0, 0, 4, 5, 6]);

    let third = vct::load_gltf::append_primitive(&mut indices, &vec![], 7, 42, 16);
    assert_eq!(third.index, 12..12);
    assert_eq!(indices.len(), 12);
    assert_eq!(indices[11], 0);
}
