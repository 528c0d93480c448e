use secure_blob_store::record::{assemble_record, split_record};
use secure_blob_store::{KEY_SIZE, NONCE_SIZE, TAG_SIZE};

#[test]
fn sizes_are_those_of_aes_256_gcm() {
    assert_eq!(NONCE_SIZE, 12);
    assert_eq!(KEY_SIZE, 32);
    assert_eq!(TAG_SIZE, 16);
}

#[test]
fn assemble_puts_the_nonce_first() {
    let nonce = [1u8, 2, 3, 4, 5, 6, 7, 8, 9, 10, 11, 12];
    let sealed = [0xaau8, 0xbb, 0xcc];
    let record = assemble_record(&nonce, &sealed);
    assert_eq!(
        record,
        vec![1u8, 2, 3, 4, 5, 6, 7, 8, 9, 10, 11, 12, 0xaa, 0xbb, 0xcc]
    );
}

#[test]
fn assemble_with_nothing_sealed_is_the_nonce() {
    let nonce = [9u8; 12];
    let record = assemble_record(&nonce, &[]);
    assert_eq!(record, vec![9u8; 12]);
}

#[test]
fn split_refuses_fewer_than_twelve_bytes() {
    assert!(split_record(&[]).is_none());
    assert!(split_record(&[0u8; 1]).is_none());
    assert!(split_record(&[0u8; 11]).is_none());
}

#[test]
fn split_of_exactly_twelve_bytes_leaves_nothing_sealed() {
    let bytes = [7u8; 12];
    let (nonce, sealed) = split_record(&bytes).unwrap();
    assert_eq!(nonce, &[7u8; 12][..]);
    assert!(sealed.is_empty());
}

#[test]
fn split_cuts_after_the_twelfth_byte() {
    let bytes: Vec<u8> = (0u8..40).collect();
    let (nonce, sealed) = split_record(&bytes).unwrap();
    let expected_nonce: Vec<u8> = (0u8..12).collect();
    let expected_sealed: Vec<u8> = (12u8..40).collect();
    assert_eq!(nonce, &expected_nonce[..]);
    assert_eq!(sealed, &expected_sealed[..]);
}

#[test]
fn split_undoes_assemble() {
    let nonce = [0x5au8; 12];
    let sealed: Vec<u8> = (100u8..150).collect();
    let record = assemble_record(&nonce, &sealed);
    let (n, s) = split_record(&record).unwrap();
    assert_eq!(n, &nonce[..]);
    assert_eq!(s, &sealed[..]);
}

#[test]
fn records_with_different_nonces_differ_in_their_prefix() {
    let sealed = [1u8, 2, 3];
    let mut other = [0u8; 12];
    other[11] = 1;
    let a = assemble_record(&[0u8; 12], &sealed);
    let b = assemble_record(&other, &sealed);
    assert_ne!(a, b);
    assert_ne!(a[..12], b[..12]);
    assert_eq!(a[12..], b[12..]);
}
