use sha2::Digest;
use symphony::host::{decode_host_input, dry_run_requested, validate_hash};

fn hex_of(bytes: &[u8]) -> String {
    let mut s = String::new();
    for b in bytes {
        s.push_str(&format!("{:02x}", b));
    }
    s
}

#[test]
fn matching_hash_loads() {
    let library: Vec<u8> = b"pretend this is a shared library".to_vec();
    let digest = sha2::Sha256::digest(&library);
    let expected = hex_of(&digest);
    assert!(validate_hash(&library, &expected).is_ok());
}

#[test]
fn any_bypasses_the_check() {
    let library: Vec<u8> = b"modified library contents".to_vec();
    assert!(validate_hash(&library, "any").is_ok());
}

#[test]
fn any_other_value_is_a_mismatch() {
    let library: Vec<u8> = b"pretend this is a shared library".to_vec();
    let err = validate_hash(&library, "deadbeef").unwrap_err();
    assert_eq!(err, "Hash mismatch");
    let err = validate_hash(&library, "ANY").unwrap_err();
    assert_eq!(err, "Hash mismatch");
}

#[test]
fn modified_bytes_fail_their_old_hash() {
    let library: Vec<u8> = b"original build".to_vec();
    let expected = hex_of(&sha2::Sha256::digest(&library));
    let mut modified = library.clone();
    modified[0] ^= 1;
    assert!(validate_hash(&library, &expected).is_ok());
    assert!(validate_hash(&modified, &expected).is_err());
    assert!(validate_hash(&modified, "any").is_ok());
}

#[test]
fn uppercase_hex_is_not_accepted() {
    let library: Vec<u8> = b"case matters on the wire".to_vec();
    let expected = hex_of(&sha2::Sha256::digest(&library));
    assert!(validate_hash(&library, &expected.to_uppercase()).is_err());
}

#[test]
fn non_utf8_input_is_refused() {
    assert!(decode_host_input(&vec![0xff, 0xfe, 0x00]).is_none());
    assert!(decode_host_input(&vec![0xc3, 0x28]).is_none());
}

#[test]
fn utf8_input_decodes() {
    let decoded = decode_host_input(&b"{\"localEntity\":\"//symphony/1DA/2/0\"}".to_vec());
    assert_eq!(decoded.as_deref(), Some("{\"localEntity\":\"//symphony/1DA/2/0\"}"));
}

#[test]
fn dry_run_flag_is_any_nonzero_value() {
    assert!(!dry_run_requested(0));
    assert!(dry_run_requested(1));
    assert!(dry_run_requested(-1));
    assert!(dry_run_requested(7));
}

#[test]
fn sha256_matches_the_published_test_vector() {
    // FIPS 180-2 example: SHA-256("abc")
    let library: Vec<u8> = b"abc".to_vec();
    let expected = "ba7816bf8f01cfea414140de5dae2223b00361a396177a9cb410ff61f20015ad";
    assert!(validate_hash(&library, expected).is_ok());
    assert!(validate_hash(&b"abd".to_vec(), expected).is_err());
}
