use sha2::{Digest, Sha256};
use validator_services::attestation::{AttestationData, Checkpoint};
use validator_services::kzg::{KzgCommitment, SszDecodeError};
use validator_services::store::Address;
use validator_services::tree_hash::{bytes_tree_hash_root, int_to_hash256, Hash256, TreeHash, TreeHashType};

fn sha(a: &[u8], b: &[u8]) -> [u8; 32] {
    let mut data = a.to_vec();
    data.extend_from_slice(b);
    Sha256::digest(&data).into()
}

fn chunk(n: u64) -> [u8; 32] {
    let mut c = [0u8; 32];
    c[0..8].copy_from_slice(&n.to_le_bytes());
    c
}

#[test]
fn bool() {
    let mut true_bytes: Vec<u8> = vec![1];
    true_bytes.append(&mut vec![0; 31]);

    let false_bytes: Vec<u8> = vec![0; 32];

    assert_eq!(true.tree_hash_root().as_bytes(), true_bytes.as_slice());
    assert_eq!(false.tree_hash_root().as_bytes(), false_bytes.as_slice());
}

#[test]
fn int_to_bytes() {
    assert_eq!(int_to_hash256(0).as_bytes(), &[0; 32]);
    assert_eq!(
        int_to_hash256(1).as_bytes(),
        &[
            1, 0, 0, 0, 0, 0, 0, 0, 0, 0, 0, 0, 0, 0, 0, 0, 0, 0, 0, 0, 0, 0, 0, 0, 0, 0, 0, 0,
            0, 0, 0, 0
        ]
    );
    assert_eq!(
        int_to_hash256(u64::max_value()).as_bytes(),
        &[
            255, 255, 255, 255, 255, 255, 255, 255, 0, 0, 0, 0, 0, 0, 0, 0, 0, 0, 0, 0, 0, 0,
            0, 0, 0, 0, 0, 0, 0, 0, 0, 0
        ]
    );
}

#[test]
fn integer_roots_are_little_endian_chunks() {
    assert_eq!(0x0102u16.tree_hash_root().as_bytes(), &chunk(0x0102));
    assert_eq!(0xdeadbeefu32.tree_hash_root().as_bytes(), &chunk(0xdeadbeef));
    assert_eq!(7u8.tree_hash_root().as_bytes(), &chunk(7));
    assert_eq!(0x0102030405060708u64.tree_hash_root().as_bytes()[0..8], [8, 7, 6, 5, 4, 3, 2, 1]);
}

#[test]
fn packed_encodings_and_factors() {
    assert_eq!(0x0102u16.tree_hash_packed_encoding(), vec![2, 1]);
    assert_eq!(0x01020304u32.tree_hash_packed_encoding(), vec![4, 3, 2, 1]);
    assert_eq!(5u64.tree_hash_packed_encoding(), vec![5, 0, 0, 0, 0, 0, 0, 0]);
    assert_eq!(true.tree_hash_packed_encoding(), vec![1]);
    assert_eq!(u8::tree_hash_packing_factor(), 32);
    assert_eq!(u16::tree_hash_packing_factor(), 16);
    assert_eq!(u32::tree_hash_packing_factor(), 8);
    assert_eq!(u64::tree_hash_packing_factor(), 4);
    assert_eq!(bool::tree_hash_packing_factor(), 32);
    assert_eq!(u64::tree_hash_type(), TreeHashType::Basic);
    assert_eq!(<[u8; 4]>::tree_hash_type(), TreeHashType::Vector);
}

#[test]
fn short_arrays_are_padded() {
    let root = [1u8, 2, 3].tree_hash_root();
    let mut expected = [0u8; 32];
    expected[0..3].copy_from_slice(&[1, 2, 3]);
    assert_eq!(root.as_bytes(), &expected);
    assert_eq!([9u8; 32].tree_hash_root().as_bytes(), &[9u8; 32]);
    assert_eq!([0u8; 0].tree_hash_root().as_bytes(), &[0u8; 32]);
}

#[test]
fn long_arrays_are_merkleized() {
    let mut a = [0u8; 33];
    a[0] = 1;
    a[32] = 2;
    let mut c1 = [0u8; 32];
    c1[0] = 2;
    let mut c0 = [0u8; 32];
    c0[0] = 1;
    assert_eq!(a.tree_hash_root().as_bytes(), &sha(&c0, &c1));

    let b = [5u8; 65];
    let full = [5u8; 32];
    let mut last = [0u8; 32];
    last[0] = 5;
    let left = sha(&full, &full);
    let right = sha(&last, &[0u8; 32]);
    assert_eq!(bytes_tree_hash_root(&b).as_bytes(), &sha(&left, &right));
}

#[test]
fn hash_and_address_roots() {
    let h = Hash256 { bytes: [3u8; 32] };
    assert_eq!(h.tree_hash_root(), h);
    let addr = Address { bytes: [7u8; 20] };
    let mut expected = [0u8; 32];
    expected[0..20].copy_from_slice(&[7u8; 20]);
    assert_eq!(addr.tree_hash_root().as_bytes(), &expected);
    assert_eq!(addr.tree_hash_packed_encoding(), expected.to_vec());
}

#[test]
fn attestation_data_root_is_container_root() {
    let source = Checkpoint { epoch: 2, root: Hash256 { bytes: [4u8; 32] } };
    let target = Checkpoint { epoch: 3, root: Hash256 { bytes: [5u8; 32] } };
    let data = AttestationData {
        slot: 100,
        index: 3,
        beacon_block_root: Hash256 { bytes: [6u8; 32] },
        source,
        target,
    };
    let source_root = sha(&chunk(2), &[4u8; 32]);
    let target_root = sha(&chunk(3), &[5u8; 32]);
    assert_eq!(source.tree_hash_root().as_bytes(), &source_root);
    let zero = [0u8; 32];
    let l1 = sha(&chunk(100), &chunk(3));
    let l2 = sha(&[6u8; 32], &source_root);
    let l3 = sha(&target_root, &zero);
    let l4 = sha(&zero, &zero);
    let expected = sha(&sha(&l1, &l2), &sha(&l3, &l4));
    assert_eq!(data.tree_hash_root().as_bytes(), &expected);
}

#[test]
fn kzg_commitment_encodings() {
    let mut bytes = [0u8; 48];
    bytes[0] = 0xab;
    bytes[47] = 0x01;
    let c = KzgCommitment::from_bytes(bytes);
    let hex = c.to_hex_string();
    assert!(hex.starts_with("0xab00"));
    assert!(hex.ends_with("0001"));
    assert_eq!(hex.len(), 2 + 96);
    assert_eq!(c.into_bytes(), bytes);
    assert_eq!(KzgCommitment::default_commitment().0, [0u8; 48]);
    assert_eq!(KzgCommitment::default(), KzgCommitment([0u8; 48]));
    assert_eq!(KzgCommitment::from(bytes), c);
    let back: [u8; 48] = c.into();
    assert_eq!(back, bytes);

    let mut buf = vec![9u8];
    c.ssz_append(&mut buf);
    assert_eq!(buf.len(), 49);
    assert_eq!(&buf[1..], &bytes[..]);
    assert_eq!(KzgCommitment::ssz_fixed_len(), 48);
    assert!(KzgCommitment::is_ssz_fixed_len());
    assert_eq!(c.ssz_bytes_len(), 48);

    assert_eq!(KzgCommitment::from_ssz_bytes(&bytes), Ok(c));
    assert_eq!(
        KzgCommitment::from_ssz_bytes(&bytes[0..47]),
        Err(SszDecodeError::InvalidByteLength { len: 47, expected: 48 })
    );

    let mut c0 = [0u8; 32];
    c0.copy_from_slice(&bytes[0..32]);
    let mut c1 = [0u8; 32];
    c1[0..16].copy_from_slice(&bytes[32..48]);
    assert_eq!(c.tree_hash_root().as_bytes(), &sha(&c0, &c1));
}
