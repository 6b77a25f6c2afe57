use gmssl_rs::{sm3_pbkdf2, GmsslError, Sm3, Sm3Hmac};
use hmac::Mac;

fn reference_hmac(key: &[u8], data: &[u8]) -> Vec<u8> {
    let mut m = <hmac::Hmac<sm3::Sm3> as Mac>::new_from_slice(key).unwrap();
    m.update(data);
    m.finalize().into_bytes().to_vec()
}

fn reference_pbkdf2(password: &[u8], salt: &[u8], iterations: u32, len: usize) -> Vec<u8> {
    let mut out = vec![0u8; len];
    pbkdf2::pbkdf2_hmac::<sm3::Sm3>(password, salt, iterations, &mut out);
    out
}

#[test]
fn hmac_one_shot_is_32_bytes() {
    let mac = Sm3Hmac::mac(b"key", b"message");
    assert_eq!(mac.len(), 32);
}

#[test]
fn hmac_matches_reference_for_key_lengths() {
    let data: Vec<u8> = (0..150u32).map(|i| (i * 13) as u8).collect();
    for klen in [0usize, 1, 16, 32, 63, 64, 65, 100, 200] {
        let key: Vec<u8> = (0..klen).map(|i| (i * 7 + 1) as u8).collect();
        assert_eq!(Sm3Hmac::mac(&key, &data).to_vec(), reference_hmac(&key, &data), "key {}", klen);
    }
}

#[test]
fn hmac_streaming_matches_one_shot() {
    let mut h = Sm3Hmac::new(b"key");
    h.update(b"mes");
    h.update(b"sage");
    assert_eq!(h.finish(), Sm3Hmac::mac(b"key", b"message"));
}

#[test]
fn hmac_long_key_equals_its_digest() {
    let key = [0x5au8; 100];
    let short = Sm3::digest(&key);
    assert_eq!(Sm3Hmac::mac(&key, b"data"), Sm3Hmac::mac(&short, b"data"));
}

#[test]
fn hmac_reset_takes_new_key() {
    let mut h = Sm3Hmac::new(b"first key");
    h.update(b"ignored");
    h.reset(b"key");
    h.update(b"message");
    assert_eq!(h.finish(), Sm3Hmac::mac(b"key", b"message"));
}

#[test]
fn hmac_finish_keeps_state() {
    let mut h = Sm3Hmac::new(b"key");
    h.update(b"message");
    let a = h.finish();
    let b = h.finish();
    assert_eq!(a, b);
}

#[test]
fn pbkdf2_readme_example() {
    let mut key = [0u8; 32];
    sm3_pbkdf2(b"password", b"salt", 10000, &mut key).unwrap();
    assert_eq!(key.to_vec(), reference_pbkdf2(b"password", b"salt", 10000, 32));
}

#[test]
fn pbkdf2_multi_block_output_matches_reference() {
    let mut key = [0u8; 70];
    sm3_pbkdf2(b"pw", b"NaCl-salt", 10001, &mut key).unwrap();
    assert_eq!(key.to_vec(), reference_pbkdf2(b"pw", b"NaCl-salt", 10001, 70));
}

#[test]
fn pbkdf2_shorter_output_is_prefix() {
    let mut long = [0u8; 40];
    let mut short = [0u8; 5];
    sm3_pbkdf2(b"password", b"salt", 10000, &mut long).unwrap();
    sm3_pbkdf2(b"password", b"salt", 10000, &mut short).unwrap();
    assert_eq!(&long[..5], &short[..]);
}

#[test]
fn pbkdf2_rejects_too_few_iterations() {
    let mut key = [7u8; 16];
    let r = sm3_pbkdf2(b"password", b"salt", 9999, &mut key);
    assert!(matches!(r, Err(GmsslError::LibraryError("sm3_pbkdf2"))));
    assert_eq!(key, [7u8; 16]);
}

#[test]
fn pbkdf2_rejects_too_many_iterations() {
    let mut key = [0u8; 16];
    let r = sm3_pbkdf2(b"password", b"salt", 16777216, &mut key);
    assert!(matches!(r, Err(GmsslError::LibraryError("sm3_pbkdf2"))));
}

#[test]
fn pbkdf2_rejects_long_salt() {
    let mut key = [0u8; 16];
    let salt = [1u8; 65];
    let r = sm3_pbkdf2(b"password", &salt, 10000, &mut key);
    assert!(matches!(r, Err(GmsslError::LibraryError("sm3_pbkdf2"))));
}

#[test]
fn pbkdf2_accepts_64_byte_salt() {
    let mut key = [0u8; 8];
    let salt = [1u8; 64];
    sm3_pbkdf2(b"password", &salt, 10000, &mut key).unwrap();
    assert_eq!(key.to_vec(), reference_pbkdf2(b"password", &salt, 10000, 8));
}

#[test]
fn pbkdf2_rejects_empty_output() {
    let mut key: [u8; 0] = [];
    let r = sm3_pbkdf2(b"password", b"salt", 10000, &mut key);
    assert!(matches!(r, Err(GmsslError::LibraryError("sm3_pbkdf2"))));
}
