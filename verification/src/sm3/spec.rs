//! The SM3 hash function as GM/T 0004-2012 defines it, and HMAC-SM3 and
//! PBKDF2-HMAC-SM3 on top of it, as spec functions.
use vstd::prelude::*;

verus! {

// ---------------------------------------------------------------------------
// Word operations
// ---------------------------------------------------------------------------
/// Left rotation of a 32-bit word by `n` bits (`n < 32`).
pub open spec fn rotl(x: u32, n: u32) -> u32
    recommends
        n < 32,
{
    if n == 0 {
        x
    } else {
        (x << n) | (x >> ((32 - n) as u32))
    }
}

/// The initial chaining value IV.
pub open spec fn sm3_iv() -> Seq<u32> {
    seq![
        0x7380166fu32,
        0x4914b2b9u32,
        0x172442d7u32,
        0xda8a0600u32,
        0xa96f30bcu32,
        0x163138aau32,
        0xe38dee4du32,
        0xb0fb0e4eu32,
    ]
}

/// The round constant T_j.
pub open spec fn t_const(j: int) -> u32 {
    if j < 16 {
        0x79cc4519u32
    } else {
        0x7a879d8au32
    }
}

/// The boolean function FF_j.
pub open spec fn ff(j: int, x: u32, y: u32, z: u32) -> u32 {
    if j < 16 {
        x ^ y ^ z
    } else {
        (x & y) | (x & z) | (y & z)
    }
}

/// The boolean function GG_j.
pub open spec fn gg(j: int, x: u32, y: u32, z: u32) -> u32 {
    if j < 16 {
        x ^ y ^ z
    } else {
        (x & y) | (!x & z)
    }
}

/// The permutation P0.
pub open spec fn p0(x: u32) -> u32 {
    x ^ rotl(x, 9) ^ rotl(x, 17)
}

/// The permutation P1.
pub open spec fn p1(x: u32) -> u32 {
    x ^ rotl(x, 15) ^ rotl(x, 23)
}

// ---------------------------------------------------------------------------
// Compression function
// ---------------------------------------------------------------------------
/// The `i`-th big-endian 32-bit word of a byte sequence.
pub open spec fn be_word(b: Seq<u8>, i: int) -> u32 {
    ((b[4 * i] as u32) << 24u32) | ((b[4 * i + 1] as u32) << 16u32) | ((b[4 * i + 2] as u32)
        << 8u32) | (b[4 * i + 3] as u32)
}

/// Message expansion: the word W_j of a 64-byte block (`j < 68`).
pub open spec fn expanded_word(b: Seq<u8>, j: nat) -> u32
    decreases j,
{
    if j < 16 {
        be_word(b, j as int)
    } else {
        p1(
            expanded_word(b, (j - 16) as nat) ^ expanded_word(b, (j - 9) as nat) ^ rotl(
                expanded_word(b, (j - 3) as nat),
                15,
            ),
        ) ^ rotl(expanded_word(b, (j - 13) as nat), 7) ^ expanded_word(b, (j - 6) as nat)
    }
}

/// One round of the compression function on the registers `A..H`, with
/// `w = W_j` and `w1 = W'_j = W_j ^ W_{j+4}`.
pub open spec fn round(s: Seq<u32>, j: int, w: u32, w1: u32) -> Seq<u32> {
    let a12 = rotl(s[0], 12);
    let ss1 = rotl(a12.wrapping_add(s[4]).wrapping_add(rotl(t_const(j), (j % 32) as u32)), 7);
    let ss2 = ss1 ^ a12;
    let tt1 = ff(j, s[0], s[1], s[2]).wrapping_add(s[3]).wrapping_add(ss2).wrapping_add(w1);
    let tt2 = gg(j, s[4], s[5], s[6]).wrapping_add(s[7]).wrapping_add(ss1).wrapping_add(w);
    seq![tt1, s[0], rotl(s[1], 9), s[2], p0(tt2), s[4], rotl(s[5], 19), s[6]]
}

/// The registers after the first `n` rounds on the block `b`, starting from `v`.
pub open spec fn rounds(v: Seq<u32>, b: Seq<u8>, n: nat) -> Seq<u32>
    decreases n,
{
    if n == 0 {
        v
    } else {
        let j = (n - 1) as nat;
        round(
            rounds(v, b, j),
            j as int,
            expanded_word(b, j),
            expanded_word(b, j) ^ expanded_word(b, j + 4),
        )
    }
}

/// The compression function CF(V, B).
pub open spec fn compress(v: Seq<u32>, b: Seq<u8>) -> Seq<u32> {
    let r = rounds(v, b, 64);
    Seq::new(8, |i: int| v[i] ^ r[i])
}

/// The chaining value after the first `n` 64-byte blocks of `m`.
pub open spec fn chain(m: Seq<u8>, n: nat) -> Seq<u32>
    decreases n,
{
    if n == 0 {
        sm3_iv()
    } else {
        compress(chain(m, (n - 1) as nat), m.subrange(64 * (n - 1), 64 * n as int))
    }
}

// ---------------------------------------------------------------------------
// Padding and the hash
// ---------------------------------------------------------------------------
/// Number of zero bytes between the `0x80` byte and the length field.
pub open spec fn pad_zeros(len: nat) -> nat {
    ((119 - (len % 64)) % 64) as nat
}

/// The message length in bits, modulo 2^64.
pub open spec fn bit_length(len: nat) -> u64 {
    ((len * 8) % 0x1_0000_0000_0000_0000) as u64
}

/// Big-endian bytes of a 64-bit word.
pub open spec fn be_u64(x: u64) -> Seq<u8> {
    Seq::new(8, |i: int| (x >> ((56 - 8 * i) as u64)) as u8)
}

/// Big-endian bytes of a 32-bit word.
pub open spec fn be_u32(x: u32) -> Seq<u8> {
    Seq::new(4, |i: int| (x >> ((24 - 8 * i) as u32)) as u8)
}

/// The padded message: `m`, a `0x80` byte, zeros, and the 64-bit length.
pub open spec fn padded(m: Seq<u8>) -> Seq<u8> {
    m + seq![0x80u8] + Seq::new(pad_zeros(m.len()), |i: int| 0u8) + be_u64(bit_length(m.len()))
}

/// Big-endian bytes of the eight chaining words.
pub open spec fn words_to_bytes(v: Seq<u32>) -> Seq<u8> {
    Seq::new(32, |i: int| (v[i / 4] >> ((24 - 8 * (i % 4)) as u32)) as u8)
}

/// The SM3 digest of `m`.
pub open spec fn sm3(m: Seq<u8>) -> Seq<u8> {
    let p = padded(m);
    words_to_bytes(chain(p, p.len() / 64))
}

// ---------------------------------------------------------------------------
// HMAC-SM3 (RFC 2104 with SM3, block size 64)
// ---------------------------------------------------------------------------
/// The key block K0: the key, or its digest when longer than a block,
/// padded with zeros to 64 bytes.
pub open spec fn hmac_key_block(key: Seq<u8>) -> Seq<u8> {
    let k = if key.len() > 64 {
        sm3(key)
    } else {
        key
    };
    k + Seq::new((64 - k.len()) as nat, |i: int| 0u8)
}

/// Each byte of `k` XOR `pad`.
pub open spec fn xor_pad(k: Seq<u8>, pad: u8) -> Seq<u8> {
    Seq::new(k.len(), |i: int| k[i] ^ pad)
}

/// HMAC-SM3 of `msg` under `key`.
pub open spec fn hmac_sm3(key: Seq<u8>, msg: Seq<u8>) -> Seq<u8> {
    let k0 = hmac_key_block(key);
    sm3(xor_pad(k0, 0x5c) + sm3(xor_pad(k0, 0x36) + msg))
}

// ---------------------------------------------------------------------------
// PBKDF2-HMAC-SM3 (RFC 8018)
// ---------------------------------------------------------------------------
/// Byte-wise XOR of two sequences of equal length.
pub open spec fn xor_bytes(a: Seq<u8>, b: Seq<u8>) -> Seq<u8> {
    Seq::new(a.len(), |i: int| a[i] ^ b[i])
}

/// Whether PBKDF2-HMAC-SM3 accepts a salt of `salt_len` bytes, `iter`
/// iterations and an output of `out_len` bytes.
pub open spec fn pbkdf2_params_ok(salt_len: nat, iter: nat, out_len: nat) -> bool {
    &&& out_len > 0
    &&& salt_len <= 64
    &&& 10000 <= iter <= 16777215
}

/// U_j of the block with index `i` (`j >= 1`).
pub open spec fn pbkdf2_u(pass: Seq<u8>, salt: Seq<u8>, i: u32, j: nat) -> Seq<u8>
    decreases j,
{
    if j <= 1 {
        hmac_sm3(pass, salt + be_u32(i))
    } else {
        hmac_sm3(pass, pbkdf2_u(pass, salt, i, (j - 1) as nat))
    }
}

/// T_i = U_1 XOR ... XOR U_c of the block with index `i` (`c >= 1`).
pub open spec fn pbkdf2_f(pass: Seq<u8>, salt: Seq<u8>, c: nat, i: u32) -> Seq<u8>
    decreases c,
{
    if c <= 1 {
        pbkdf2_u(pass, salt, i, 1)
    } else {
        xor_bytes(pbkdf2_f(pass, salt, (c - 1) as nat, i), pbkdf2_u(pass, salt, i, c))
    }
}

/// The 32-bit index of the block that holds output byte `k`: blocks are
/// numbered from 1, and the counter wraps modulo 2^32.
pub open spec fn pbkdf2_block_index(k: int) -> u32 {
    ((k / 32 + 1) % 0x1_0000_0000) as u32
}

/// The first `len` bytes of T_1 || T_2 || ... with `c` iterations.
pub open spec fn pbkdf2(pass: Seq<u8>, salt: Seq<u8>, c: nat, len: nat) -> Seq<u8> {
    Seq::new(len, |k: int| pbkdf2_f(pass, salt, c, pbkdf2_block_index(k))[k % 32])
}

} // verus!
