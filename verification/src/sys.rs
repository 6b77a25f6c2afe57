//! Plain-data context and key types of the GmSSL algorithms, with their fields
//! in the order of the C headers, and the size constants they use.
//!
//! The SM3 contexts are the state of the verified hash, HMAC and PBKDF2 code of
//! this crate; the other types describe the layout of the remaining algorithm
//! states and carry no behaviour of their own.
#![allow(non_camel_case_types, non_snake_case)]

use vstd::prelude::*;

verus! {

// ---------------------------------------------------------------------------
// SM3 hash
// ---------------------------------------------------------------------------
/// Size of an SM3 digest in bytes.
pub const SM3_DIGEST_SIZE: usize = 32;

/// Size of an SM3 message block in bytes.
pub const SM3_BLOCK_SIZE: usize = 64;

/// Number of 32-bit words of the SM3 chaining state.
pub const SM3_STATE_WORDS: usize = 8;

/// Size of an HMAC-SM3 tag in bytes.
pub const SM3_HMAC_SIZE: usize = 32;

/// Smallest iteration count that PBKDF2-HMAC-SM3 accepts.
pub const SM3_PBKDF2_MIN_ITER: usize = 10000;

/// Largest iteration count that PBKDF2-HMAC-SM3 accepts (2^24 - 1).
pub const SM3_PBKDF2_MAX_ITER: usize = 16777215;

/// Largest salt, in bytes, that PBKDF2-HMAC-SM3 accepts.
pub const SM3_PBKDF2_MAX_SALT_SIZE: usize = 64;

/// Salt size, in bytes, recommended for PBKDF2-HMAC-SM3.
pub const SM3_PBKDF2_DEFAULT_SALT_SIZE: usize = 8;

/// Streaming SM3 state: chaining value, number of compressed blocks (modulo
/// 2^64), the partial block and the number of bytes buffered in it.
#[derive(Debug)]
pub struct SM3_CTX {
    pub digest: [u32; 8],
    pub nblocks: u64,
    pub block: [u8; 64],
    pub num: usize,
}

/// HMAC-SM3 state: the inner hash and the key block (key XOR ipad).
#[derive(Debug)]
pub struct SM3_HMAC_CTX {
    pub sm3_ctx: SM3_CTX,
    pub key: [u8; 64],
}

/// State of the SM3 key derivation function.
#[derive(Debug)]
pub struct SM3_KDF_CTX {
    pub sm3_ctx: SM3_CTX,
    pub outlen: usize,
}

// ---------------------------------------------------------------------------
// SM4 block cipher
// ---------------------------------------------------------------------------
/// Size of an SM4 key in bytes.
pub const SM4_KEY_SIZE: usize = 16;

/// Size of an SM4 block in bytes.
pub const SM4_BLOCK_SIZE: usize = 16;

/// Number of SM4 rounds.
pub const SM4_NUM_ROUNDS: usize = 32;

/// Largest IV, in bytes, of SM4-GCM.
pub const SM4_GCM_MAX_IV_SIZE: usize = 64;

/// Smallest IV, in bytes, of SM4-GCM.
pub const SM4_GCM_MIN_IV_SIZE: usize = 1;

/// Recommended IV size, in bytes, of SM4-GCM.
pub const SM4_GCM_DEFAULT_IV_SIZE: usize = 12;

/// Smallest additional authenticated data, in bytes, of SM4-GCM.
pub const SM4_GCM_MIN_AAD_SIZE: usize = 0;

/// Largest additional authenticated data, in bytes, of SM4-GCM.
pub const SM4_GCM_MAX_AAD_SIZE: usize = 16777216;

/// Smallest plaintext, in bytes, of SM4-GCM.
pub const SM4_GCM_MIN_PLAINTEXT_SIZE: usize = 0;

/// Largest tag, in bytes, of SM4-GCM.
pub const SM4_GCM_MAX_TAG_SIZE: usize = 16;

/// Smallest tag, in bytes, of SM4-GCM.
pub const SM4_GCM_MIN_TAG_SIZE: usize = 12;

/// Default tag size, in bytes, of SM4-GCM.
pub const SM4_GCM_DEFAULT_TAG_SIZE: usize = 16;

/// Expanded SM4 round keys.
#[derive(Debug)]
pub struct SM4_KEY {
    pub rk: [u32; 32],
}

/// Streaming SM4-CBC state.
#[derive(Debug)]
pub struct SM4_CBC_CTX {
    pub sm4_key: SM4_KEY,
    pub iv: [u8; 16],
    pub block: [u8; 16],
    pub block_nbytes: usize,
}

/// Streaming SM4-CTR state.
#[derive(Debug)]
pub struct SM4_CTR_CTX {
    pub sm4_key: SM4_KEY,
    pub ctr: [u8; 16],
    pub block: [u8; 16],
    pub block_nbytes: usize,
}

/// GHASH state, opaque.
pub struct GHASH_CTX {
    _private: [u8; 272],
}

/// Streaming SM4-GCM state.
pub struct SM4_GCM_CTX {
    pub enc_ctx: SM4_CTR_CTX,
    pub mac_ctx: GHASH_CTX,
    pub Y: [u8; 16],
    pub taglen: usize,
    pub mac: [u8; 16],
    pub maclen: usize,
    pub encedlen: u64,
}

// ---------------------------------------------------------------------------
// SM2 public key cryptography
// ---------------------------------------------------------------------------
/// Length of the default SM2 signer identity.
pub const SM2_DEFAULT_ID_LENGTH: usize = 16;

/// Largest SM2 identity, in bits.
pub const SM2_MAX_ID_BITS: usize = 65535;

/// Largest SM2 identity, in bytes.
pub const SM2_MAX_ID_LENGTH: usize = 8191;

/// Smallest DER-encoded SM2 signature, in bytes.
pub const SM2_MIN_SIGNATURE_SIZE: usize = 8;

/// Largest DER-encoded SM2 signature, in bytes.
pub const SM2_MAX_SIGNATURE_SIZE: usize = 72;

/// Smallest SM2 plaintext, in bytes.
pub const SM2_MIN_PLAINTEXT_SIZE: usize = 1;

/// Largest SM2 plaintext, in bytes.
pub const SM2_MAX_PLAINTEXT_SIZE: usize = 255;

/// Smallest SM2 ciphertext, in bytes.
pub const SM2_MIN_CIPHERTEXT_SIZE: usize = 45;

/// Largest SM2 ciphertext, in bytes.
pub const SM2_MAX_CIPHERTEXT_SIZE: usize = 366;

/// Number of precomputed values of an SM2 signing context.
pub const SM2_SIGN_PRE_COMP_COUNT: usize = 32;

/// Number of precomputed values of an SM2 encryption context.
pub const SM2_ENC_PRE_COMP_NUM: usize = 8;

/// A point on the SM2 curve in Jacobian coordinates, each a 256-bit integer
/// in four 64-bit limbs.
#[derive(Debug, Copy, Clone)]
pub struct SM2_Z256_POINT {
    pub X: [u64; 4],
    pub Y: [u64; 4],
    pub Z: [u64; 4],
}

/// An SM2 key pair.
#[derive(Debug)]
pub struct SM2_KEY {
    pub public_key: SM2_Z256_POINT,
    pub private_key: [u64; 4],
}

/// An SM2 signature `(r, s)`.
#[derive(Debug)]
pub struct SM2_SIGNATURE {
    pub r: [u8; 32],
    pub s: [u8; 32],
}

/// An SM2 point in affine byte form.
pub struct SM2_POINT {
    pub x: [u8; 32],
    pub y: [u8; 32],
}

/// An SM2 ciphertext `(C1, C3, C2)`.
pub struct SM2_CIPHERTEXT {
    pub point: SM2_POINT,
    pub hash: [u8; 32],
    pub ciphertext_size: u8,
    pub ciphertext: [u8; 255],
}

/// A precomputed `(k, x1 mod n)` pair for SM2 signing.
pub struct SM2_SIGN_PRE_COMP {
    pub k: [u64; 4],
    pub x1_modn: [u64; 4],
}

/// Streaming SM2 signing state.
pub struct SM2_SIGN_CTX {
    pub sm3_ctx: SM3_CTX,
    pub saved_sm3_ctx: SM3_CTX,
    pub key: SM2_KEY,
    pub fast_sign_private: [u64; 4],
    pub pre_comp: [SM2_SIGN_PRE_COMP; 32],
    pub num_pre_comp: u32,
    pub public_point_table: [SM2_Z256_POINT; 16],
}

/// Streaming SM2 verification state.
pub struct SM2_VERIFY_CTX {
    pub sm3_ctx: SM3_CTX,
    pub saved_sm3_ctx: SM3_CTX,
    pub key: SM2_KEY,
    pub public_point_table: [SM2_Z256_POINT; 16],
}

/// A precomputed `(k, C1)` pair for SM2 encryption.
pub struct SM2_ENC_PRE_COMP {
    pub k: [u64; 4],
    pub C1: SM2_POINT,
}

/// SM2 encryption state.
pub struct SM2_ENC_CTX {
    pub pre_comp: [SM2_ENC_PRE_COMP; 8],
    pub pre_comp_num: usize,
    pub buf: [u8; 255],
    pub buf_size: usize,
}

/// SM2 decryption state.
pub struct SM2_DEC_CTX {
    pub buf: [u8; 366],
    pub buf_size: usize,
}

// ---------------------------------------------------------------------------
// SM9 identity-based cryptography
// ---------------------------------------------------------------------------
/// SM9 hash identifier for signing keys.
pub const SM9_HID_SIGN: u8 = 0x01;

/// SM9 hash identifier for encryption keys.
pub const SM9_HID_ENC: u8 = 0x03;

/// Largest SM9 identity, in bytes.
pub const SM9_MAX_ID_SIZE: usize = 8191;

/// Largest SM9 signature, in bytes.
pub const SM9_MAX_SIGNATURE_SIZE: usize = 104;

/// Largest SM9 plaintext, in bytes.
pub const SM9_MAX_PLAINTEXT_SIZE: usize = 255;

/// Largest SM9 ciphertext, in bytes.
pub const SM9_MAX_CIPHERTEXT_SIZE: usize = 367;

/// Size of an SM9 signature, in bytes.
pub const SM9_SIGNATURE_SIZE: usize = 104;

/// A point on the SM9 twisted curve.
pub struct SM9_Z256_TWIST_POINT {
    pub X: [u64; 4],
    pub Y: [u64; 4],
    pub Z: [u64; 4],
}

/// SM9 signing master key.
pub struct SM9_SIGN_MASTER_KEY {
    pub Ppubs: SM9_Z256_TWIST_POINT,
    pub ks: [u64; 4],
}

/// SM9 user signing key.
pub struct SM9_SIGN_KEY {
    pub Ppubs: SM9_Z256_TWIST_POINT,
    pub ds: SM2_Z256_POINT,
}

/// SM9 signature `(h, S)`.
pub struct SM9_SIGNATURE {
    pub h: [u64; 4],
    pub S: SM2_Z256_POINT,
}

/// SM9 encryption master key.
pub struct SM9_ENC_MASTER_KEY {
    pub Ppube: SM2_Z256_POINT,
    pub ke: [u64; 4],
}

/// SM9 user encryption key.
pub struct SM9_ENC_KEY {
    pub Ppube: SM2_Z256_POINT,
    pub de: SM9_Z256_TWIST_POINT,
}

/// Streaming SM9 signing state.
pub struct SM9_SIGN_CTX {
    pub sm3_ctx: SM3_CTX,
}

// ---------------------------------------------------------------------------
// X.509
// ---------------------------------------------------------------------------
/// An X.509 public or private key of any supported algorithm, opaque.
pub struct X509_KEY {
    data: [u8; 8192],
}

// ---------------------------------------------------------------------------
// ZUC stream cipher
// ---------------------------------------------------------------------------
/// Size of a ZUC key in bytes.
pub const ZUC_KEY_SIZE: usize = 16;

/// Size of a ZUC IV in bytes.
pub const ZUC_IV_SIZE: usize = 16;

/// Size of a ZUC MAC in bytes.
pub const ZUC_MAC_SIZE: usize = 4;

/// Size of a ZUC-256 key in bytes.
pub const ZUC256_KEY_SIZE: usize = 32;

/// Size of a ZUC-256 IV in bytes.
pub const ZUC256_IV_SIZE: usize = 23;

/// Size of a 32-bit ZUC-256 MAC in bytes.
pub const ZUC256_MAC32_SIZE: usize = 4;

/// Size of a 64-bit ZUC-256 MAC in bytes.
pub const ZUC256_MAC64_SIZE: usize = 8;

/// Size of a 128-bit ZUC-256 MAC in bytes.
pub const ZUC256_MAC128_SIZE: usize = 16;

/// ZUC keystream generator state.
#[derive(Debug)]
pub struct ZUC_STATE {
    pub LFSR: [u32; 16],
    pub R1: u32,
    pub R2: u32,
}

/// ZUC MAC (128-EIA3) state.
#[derive(Debug)]
pub struct ZUC_MAC_CTX {
    pub LFSR: [u32; 16],
    pub R1: u32,
    pub R2: u32,
    pub T: u32,
    pub K0: u32,
    pub buf: [u8; 4],
    pub buflen: usize,
}

/// ZUC-256 MAC state.
#[derive(Debug)]
pub struct ZUC256_MAC_CTX {
    pub LFSR: [u32; 16],
    pub R1: u32,
    pub R2: u32,
    pub T: [u32; 4],
    pub K0: [u32; 4],
    pub buf: [u8; 4],
    pub buflen: usize,
    pub macbits: i32,
}

/// Streaming ZUC encryption state.
#[derive(Debug)]
pub struct ZUC_CTX {
    pub zuc_state: ZUC_STATE,
    pub block: [u8; 4],
    pub block_nbytes: usize,
}

} // verus!
