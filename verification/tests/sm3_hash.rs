use gmssl_rs::Sm3;
use sm3::Digest;

fn hex(bytes: &[u8]) -> String {
    let mut s = String::new();
    for b in bytes {
        s.push_str(&format!("{:02x}", b));
    }
    s
}

fn reference_sm3(data: &[u8]) -> Vec<u8> {
    let mut h = sm3::Sm3::new();
    h.update(data);
    h.finalize().to_vec()
}

fn pattern(len: usize) -> Vec<u8> {
    (0..len).map(|i| (i * 31 + 7) as u8).collect()
}

#[test]
fn sm3_standard_vector_abc() {
    let d = Sm3::digest(b"abc");
    assert_eq!(
        hex(&d),
        "66c7f0f462eeedd9d1f2d46bdc10e4e24167c4875cf2f7a2297da02b8f4ba8e0"
    );
}

#[test]
fn sm3_standard_vector_64_bytes() {
    let msg = b"abcdabcdabcdabcdabcdabcdabcdabcdabcdabcdabcdabcdabcdabcdabcdabcd";
    assert_eq!(msg.len(), 64);
    let d = Sm3::digest(msg);
    assert_eq!(
        hex(&d),
        "debe9ff92275b8a138604889c18e5a4d6fdb70e5387e5765293dcba39c0c5732"
    );
}

#[test]
fn sm3_empty_message() {
    let d = Sm3::digest(b"");
    assert_eq!(
        hex(&d),
        "1ab21d8355cfa17f8e61194831e81a8f22bec8c728fefb747ed035eb5082aa2b"
    );
}

#[test]
fn sm3_digest_is_32_bytes() {
    let hash = Sm3::digest(b"hello world");
    assert_eq!(hash.len(), 32);
}

#[test]
fn sm3_streaming_matches_one_shot() {
    let mut sm3 = Sm3::new();
    sm3.update(b"hello ");
    sm3.update(b"world");
    let hash = sm3.finish();
    assert_eq!(hash, Sm3::digest(b"hello world"));
}

#[test]
fn sm3_matches_reference_at_block_boundaries() {
    for len in [0usize, 1, 3, 54, 55, 56, 57, 63, 64, 65, 119, 120, 127, 128, 129, 1000] {
        let data = pattern(len);
        assert_eq!(Sm3::digest(&data).to_vec(), reference_sm3(&data), "length {}", len);
    }
}

#[test]
fn sm3_chunking_does_not_change_digest() {
    let data = pattern(300);
    let whole = Sm3::digest(&data);
    for chunk in [1usize, 7, 63, 64, 65, 200] {
        let mut h = Sm3::new();
        for piece in data.chunks(chunk) {
            h.update(piece);
        }
        assert_eq!(h.finish(), whole, "chunk size {}", chunk);
    }
}

#[test]
fn sm3_finish_keeps_state() {
    let mut h = Sm3::new();
    h.update(b"abc");
    let first = h.finish();
    let second = h.finish();
    assert_eq!(first, second);
    h.update(b"def");
    assert_eq!(h.finish(), Sm3::digest(b"abcdef"));
}

#[test]
fn sm3_reset_starts_over() {
    let mut h = Sm3::new();
    h.update(b"something else");
    h.reset();
    h.update(b"abc");
    assert_eq!(h.finish(), Sm3::digest(b"abc"));
}

#[test]
fn sm3_default_is_new() {
    let mut h = Sm3::default();
    h.update(b"abc");
    assert_eq!(h.finish(), Sm3::digest(b"abc"));
}
