use giza_benchmark::proof_file::{decode_proof_file, encode_proof_file};

#[test]
fn layout_of_a_proof_file() {
    let bytes = encode_proof_file(&[1, 2, 3], &[9, 9]);
    assert_eq!(bytes, vec![3, 0, 0, 0, 1, 2, 3, 9, 9]);
}

#[test]
fn length_field_is_little_endian() {
    let proof = vec![7u8; 0x0102];
    let bytes = encode_proof_file(&proof, &[]);
    assert_eq!(&bytes[0..4], &[0x02, 0x01, 0, 0]);
    assert_eq!(bytes.len(), 4 + 0x0102);
}

#[test]
fn proof_file_round_trip() {
    let proof: Vec<u8> = (0..=255).collect();
    let inputs = vec![5u8, 6, 7, 8, 9];
    let bytes = encode_proof_file(&proof, &inputs);
    let (p, q) = decode_proof_file(&bytes).unwrap();
    assert_eq!(p, &proof[..]);
    assert_eq!(q, &inputs[..]);
}

#[test]
fn round_trip_with_empty_public_inputs() {
    let bytes = encode_proof_file(&[1, 2, 3, 4], &[]);
    let (p, q) = decode_proof_file(&bytes).unwrap();
    assert_eq!(p, &[1, 2, 3, 4]);
    assert!(q.is_empty());
}

#[test]
fn too_short_file_is_refused() {
    assert_eq!(decode_proof_file(&[]), None);
    assert_eq!(decode_proof_file(&[0, 0, 0, 0, 1, 2, 3]), None);
    let tiny = encode_proof_file(&[1], &[2]);
    assert_eq!(decode_proof_file(&tiny), None);
}

#[test]
fn truncated_proof_is_refused() {
    assert_eq!(decode_proof_file(&[9, 0, 0, 0, 1, 2, 3, 4, 5]), None);
}

#[test]
fn everything_after_the_proof_is_public_input() {
    let (p, q) = decode_proof_file(&[2, 0, 0, 0, 10, 11, 12, 13]).unwrap();
    assert_eq!(p, &[10, 11]);
    assert_eq!(q, &[12, 13]);
}

#[test]
fn readable_file_is_its_own_layout() {
    let bytes = vec![1, 0, 0, 0, 42, 1, 2, 3];
    let (p, q) = decode_proof_file(&bytes).unwrap();
    assert_eq!(encode_proof_file(p, q), bytes);
}
