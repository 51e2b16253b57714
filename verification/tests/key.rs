use module_cache::key::{FunctionBodyData, Module, Sha256Hasher};

fn sample_module(exports: Vec<u64>) -> Module {
    Module {
        sections: vec![b"\x00asm\x01\x00\x00\x00".to_vec()],
        exports,
        start_func: None,
    }
}

fn sample_bodies() -> Vec<FunctionBodyData> {
    vec![FunctionBodyData { data: vec![0x0b], module_offset: 0 }]
}

#[test]
fn digest_of_nothing_written_is_sha256_of_empty_input() {
    let hash = Sha256Hasher::new().result();
    assert_eq!(
        hash,
        [
            227, 176, 196, 66, 152, 252, 28, 20, 154, 251, 244, 200, 153, 111, 185, 36, 39, 174,
            65, 228, 100, 155, 147, 76, 164, 149, 153, 27, 120, 82, 184, 85
        ]
    );
}

#[test]
fn digest_of_sample_module() {
    let hash = Sha256Hasher::digest(&sample_module(vec![]), &sample_bodies());
    assert_eq!(
        hash,
        [
            169, 124, 49, 253, 116, 23, 166, 50, 164, 224, 201, 103, 22, 81, 166, 199, 61, 140,
            149, 195, 216, 250, 95, 5, 131, 18, 215, 217, 117, 174, 29, 124
        ]
    );
}

#[test]
fn digest_is_the_same_on_every_call() {
    let first = Sha256Hasher::digest(&sample_module(vec![7, 3, 5]), &sample_bodies());
    let second = Sha256Hasher::digest(&sample_module(vec![7, 3, 5]), &sample_bodies());
    assert_eq!(first, second);
}

#[test]
fn digest_ignores_the_order_of_exports() {
    let a = Sha256Hasher::digest(&sample_module(vec![7, 3, 5]), &sample_bodies());
    let b = Sha256Hasher::digest(&sample_module(vec![5, 7, 3]), &sample_bodies());
    assert_eq!(a, b);
}

#[test]
fn digest_ignores_the_start_function() {
    let mut module = sample_module(vec![1]);
    let a = Sha256Hasher::digest(&module, &sample_bodies());
    module.start_func = Some(4);
    let b = Sha256Hasher::digest(&module, &sample_bodies());
    assert_eq!(a, b);
}

#[test]
fn digest_changes_with_a_function_body() {
    let a = Sha256Hasher::digest(&sample_module(vec![]), &sample_bodies());
    let other = vec![FunctionBodyData { data: vec![0x0c], module_offset: 0 }];
    let b = Sha256Hasher::digest(&sample_module(vec![]), &other);
    assert_ne!(a, b);
}

#[test]
fn digest_changes_with_a_body_offset() {
    let a = Sha256Hasher::digest(&sample_module(vec![]), &sample_bodies());
    let other = vec![FunctionBodyData { data: vec![0x0b], module_offset: 1 }];
    let b = Sha256Hasher::digest(&sample_module(vec![]), &other);
    assert_ne!(a, b);
}

#[test]
fn digest_changes_with_a_section() {
    let a = Sha256Hasher::digest(&sample_module(vec![]), &sample_bodies());
    let mut module = sample_module(vec![]);
    module.sections.push(vec![]);
    let b = Sha256Hasher::digest(&module, &sample_bodies());
    assert_ne!(a, b);
}

#[test]
fn digest_changes_with_the_exports() {
    let a = Sha256Hasher::digest(&sample_module(vec![3, 5]), &sample_bodies());
    let b = Sha256Hasher::digest(&sample_module(vec![3, 5, 5]), &sample_bodies());
    assert_ne!(a, b);
}

#[test]
fn digest_tells_where_one_body_ends() {
    let split = vec![
        FunctionBodyData { data: vec![1, 2], module_offset: 0 },
        FunctionBodyData { data: vec![3], module_offset: 0 },
    ];
    let other = vec![
        FunctionBodyData { data: vec![1], module_offset: 0 },
        FunctionBodyData { data: vec![2, 3], module_offset: 0 },
    ];
    let a = Sha256Hasher::digest(&sample_module(vec![]), &split);
    let b = Sha256Hasher::digest(&sample_module(vec![]), &other);
    assert_ne!(a, b);
}

#[test]
fn hasher_writes_numbers_lowest_byte_first() {
    let mut by_number = Sha256Hasher::new();
    by_number.write_u64(0x0102);
    let mut by_bytes = Sha256Hasher::new();
    by_bytes.write(&[2, 1, 0, 0, 0, 0, 0, 0]);
    assert_eq!(by_number.result(), by_bytes.result());
}

#[test]
fn hasher_writes_a_chunk_behind_its_length() {
    let mut by_chunk = Sha256Hasher::new();
    by_chunk.write_chunk(&[9, 8, 7]);
    let mut by_bytes = Sha256Hasher::new();
    by_bytes.write(&[3, 0, 0, 0, 0, 0, 0, 0, 9, 8, 7]);
    assert_eq!(by_chunk.result(), by_bytes.result());
}

#[test]
fn hash_for_cache_writes_lists_behind_their_lengths() {
    let module = Module { sections: vec![vec![0xaa, 0xbb]], exports: vec![9, 4], start_func: Some(1) };
    let bodies = vec![FunctionBodyData { data: vec![0x0b], module_offset: 0x0102 }];
    let mut by_module = Sha256Hasher::new();
    module.hash_for_cache(&bodies, &mut by_module);
    let mut by_hand = Sha256Hasher::new();
    by_hand.write(&[1, 0, 0, 0, 0, 0, 0, 0]);
    by_hand.write(&[2, 0, 0, 0, 0, 0, 0, 0, 0xaa, 0xbb]);
    by_hand.write(&[2, 0, 0, 0, 0, 0, 0, 0]);
    by_hand.write(&[4, 0, 0, 0, 0, 0, 0, 0]);
    by_hand.write(&[9, 0, 0, 0, 0, 0, 0, 0]);
    by_hand.write(&[1, 0, 0, 0, 0, 0, 0, 0]);
    by_hand.write(&[1, 0, 0, 0, 0, 0, 0, 0, 0x0b]);
    by_hand.write(&[2, 1, 0, 0, 0, 0, 0, 0]);
    assert_eq!(by_module.result(), by_hand.result());
}

#[test]
fn hash_for_cache_adds_to_what_was_written() {
    let module = sample_module(vec![2, 1]);
    let mut one = Sha256Hasher::new();
    one.write(&[7]);
    module.hash_for_cache(&sample_bodies(), &mut one);
    let mut other = Sha256Hasher::new();
    module.hash_for_cache(&sample_bodies(), &mut other);
    assert_ne!(one.result(), other.result());
}

#[test]
fn digest_of_an_empty_module() {
    let module = Module { sections: vec![], exports: vec![], start_func: None };
    let hash = Sha256Hasher::digest(&module, &vec![]);
    let mut by_hand = Sha256Hasher::new();
    by_hand.write(&[0; 24]);
    assert_eq!(hash, by_hand.result());
}
