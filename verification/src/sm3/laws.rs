//! Properties of SM3, HMAC-SM3 and PBKDF2-HMAC-SM3 over all inputs, stated apart from
//! the definitions they check.
use vstd::prelude::*;

use crate::sm3::spec::{
    be_u32, be_u64, bit_length, chain, hmac_key_block, hmac_sm3, pad_zeros, padded, pbkdf2,
    pbkdf2_block_index, pbkdf2_f, pbkdf2_params_ok, pbkdf2_u, sm3, words_to_bytes, xor_bytes,
};
use crate::sys::{SM3_PBKDF2_MAX_ITER, SM3_PBKDF2_MAX_SALT_SIZE, SM3_PBKDF2_MIN_ITER};

verus! {

/// Feeding a message to a fresh hash context in two pieces and finishing
/// gives the one-shot digest of the whole message: the view of a fresh
/// [`crate::Sm3`] is empty, each `update` appends its data, `finish` returns
/// `sm3` of the view, and `digest` returns `sm3` of its argument.
pub proof fn law_streaming_matches_one_shot(a: Seq<u8>, b: Seq<u8>)
    ensures
        sm3(Seq::<u8>::empty() + a + b) == sm3(a + b),
{
    assert(Seq::<u8>::empty() + a + b =~= a + b);
}

/// A key longer than a block authenticates exactly as its SM3 digest does.
pub proof fn law_hmac_long_key(key: Seq<u8>, msg: Seq<u8>)
    requires
        key.len() > 64,
    ensures
        hmac_sm3(key, msg) == hmac_sm3(sm3(key), msg),
{
    assert(hmac_key_block(key) =~= hmac_key_block(sm3(key)));
}

/// A derived key of `n1` bytes is the first `n1` bytes of a derived key of
/// `n2 >= n1` bytes from the same password, salt and iteration count.
pub proof fn law_pbkdf2_prefix(pass: Seq<u8>, salt: Seq<u8>, c: nat, n1: nat, n2: nat)
    requires
        n1 <= n2,
    ensures
        pbkdf2(pass, salt, c, n1) == pbkdf2(pass, salt, c, n2).subrange(0, n1 as int),
{
    assert(pbkdf2(pass, salt, c, n1) =~= pbkdf2(pass, salt, c, n2).subrange(0, n1 as int));
}

/// Layout of `padded(m)`: length, message, 0x80, zeros, length field.
proof fn lemma_padded_layout(m: Seq<u8>)
    ensures
        padded(m).len() == 64 * ((m.len() + 8) / 64 + 1),
        forall|i: int| 0 <= i < m.len() ==> #[trigger] padded(m)[i] == m[i],
        padded(m)[m.len() as int] == 0x80u8,
        forall|i: int| m.len() < i < padded(m).len() - 8 ==> #[trigger] padded(m)[i] == 0u8,
        forall|j: int|
            0 <= j < 8 ==> #[trigger] padded(m)[padded(m).len() - 8 + j] == be_u64(
                bit_length(m.len()),
            )[j],
{
    let l = m.len();
    let k = pad_zeros(l);
    let q = padded(m);
    assert(l + 1 + k + 8 == 64 * ((l + 8) / 64 + 1));
    assert forall|i: int| 0 <= i < l implies #[trigger] q[i] == m[i] by {}
    assert forall|i: int| l < i < q.len() - 8 implies #[trigger] q[i] == 0u8 by {}
    assert forall|j: int| 0 <= j < 8 implies #[trigger] q[q.len() - 8 + j] == be_u64(
        bit_length(l),
    )[j] by {}
}

/// The bytes of the big-endian length field, as quotients of `x`.
proof fn lemma_be_u64_bytes(x: u64)
    ensures
        be_u64(x)[0] == (x / 0x100_0000_0000_0000) % 256,
        be_u64(x)[1] == (x / 0x1_0000_0000_0000) % 256,
        be_u64(x)[2] == (x / 0x100_0000_0000) % 256,
        be_u64(x)[3] == (x / 0x1_0000_0000) % 256,
        be_u64(x)[4] == (x / 0x100_0000) % 256,
        be_u64(x)[5] == (x / 0x1_0000) % 256,
        be_u64(x)[6] == (x / 0x100) % 256,
        be_u64(x)[7] == x % 256,
{
    assert((x >> 56u64) as u8 == ((x / 0x100_0000_0000_0000u64) % 256) as u8) by (bit_vector);
    assert((x >> 48u64) as u8 == ((x / 0x1_0000_0000_0000u64) % 256) as u8) by (bit_vector);
    assert((x >> 40u64) as u8 == ((x / 0x100_0000_0000u64) % 256) as u8) by (bit_vector);
    assert((x >> 32u64) as u8 == ((x / 0x1_0000_0000u64) % 256) as u8) by (bit_vector);
    assert((x >> 24u64) as u8 == ((x / 0x100_0000u64) % 256) as u8) by (bit_vector);
    assert((x >> 16u64) as u8 == ((x / 0x1_0000u64) % 256) as u8) by (bit_vector);
    assert((x >> 8u64) as u8 == ((x / 0x100u64) % 256) as u8) by (bit_vector);
    assert((x >> 0u64) as u8 == (x % 256) as u8) by (bit_vector);
}

/// The message that SM3 compresses (GM/T 0004-2012, 5.2): the digest of `m` is
/// the big-endian output of the block chaining over any `p` made of `m`, the
/// byte 0x80, zero bytes, and the message length in bits modulo 2^64 as a
/// big-endian 64-bit value (`b`), whose length is the least multiple of 64
/// that holds them.
pub proof fn law_sm3_padding(m: Seq<u8>, p: Seq<u8>, b: int)
    requires
        b == (m.len() * 8) % 0x1_0000_0000_0000_0000,
        p.len() == 64 * ((m.len() + 8) / 64 + 1),
        forall|i: int| 0 <= i < m.len() ==> p[i] == m[i],
        p[m.len() as int] == 0x80u8,
        forall|i: int| m.len() < i < p.len() - 8 ==> p[i] == 0u8,
        p[p.len() - 8] == (b / 0x100_0000_0000_0000) % 256,
        p[p.len() - 7] == (b / 0x1_0000_0000_0000) % 256,
        p[p.len() - 6] == (b / 0x100_0000_0000) % 256,
        p[p.len() - 5] == (b / 0x1_0000_0000) % 256,
        p[p.len() - 4] == (b / 0x100_0000) % 256,
        p[p.len() - 3] == (b / 0x1_0000) % 256,
        p[p.len() - 2] == (b / 0x100) % 256,
        p[p.len() - 1] == b % 256,
    ensures
        sm3(m) == words_to_bytes(chain(p, p.len() / 64)),
{
    let q = padded(m);
    let x: u64 = bit_length(m.len());
    let n = p.len() as int;
    lemma_padded_layout(m);
    lemma_be_u64_bytes(x);
    assert(x == b);
    assert(q.len() == n);
    assert(q[n - 8] == p[n - 8]) by { assert(q[n - 8 + 0] == be_u64(x)[0]); }
    assert(q[n - 7] == p[n - 7]) by { assert(q[n - 8 + 1] == be_u64(x)[1]); }
    assert(q[n - 6] == p[n - 6]) by { assert(q[n - 8 + 2] == be_u64(x)[2]); }
    assert(q[n - 5] == p[n - 5]) by { assert(q[n - 8 + 3] == be_u64(x)[3]); }
    assert(q[n - 4] == p[n - 4]) by { assert(q[n - 8 + 4] == be_u64(x)[4]); }
    assert(q[n - 3] == p[n - 3]) by { assert(q[n - 8 + 5] == be_u64(x)[5]); }
    assert(q[n - 2] == p[n - 2]) by { assert(q[n - 8 + 6] == be_u64(x)[6]); }
    assert(q[n - 1] == p[n - 1]) by { assert(q[n - 8 + 7] == be_u64(x)[7]); }
    assert forall|i: int| 0 <= i < n - 8 implies #[trigger] q[i] == p[i] by {
        if i < m.len() {
            assert(q[i] == m[i]);
        } else if i > m.len() {
            assert(q[i] == 0u8);
        }
    }
    assert(q =~= p);
}

/// HMAC-SM3 under a key of at most one block (RFC 2104): the key is
/// extended with zero bytes to 64 bytes, never hashed first.
pub proof fn law_hmac_short_key(key: Seq<u8>, msg: Seq<u8>)
    requires
        key.len() <= 64,
    ensures
        hmac_sm3(key, msg) == sm3(
            Seq::new(
                64,
                |i: int|
                    (if i < key.len() {
                        key[i]
                    } else {
                        0u8
                    }) ^ 0x5cu8,
            ) + sm3(
                Seq::new(
                    64,
                    |i: int|
                        (if i < key.len() {
                            key[i]
                        } else {
                            0u8
                        }) ^ 0x36u8,
                ) + msg,
            ),
        ),
{
    let k0 = hmac_key_block(key);
    let opad = Seq::new(
        64,
        |i: int|
            (if i < key.len() {
                key[i]
            } else {
                0u8
            }) ^ 0x5cu8,
    );
    let ipad = Seq::new(
        64,
        |i: int|
            (if i < key.len() {
                key[i]
            } else {
                0u8
            }) ^ 0x36u8,
    );
    assert(crate::sm3::spec::xor_pad(k0, 0x5c) =~= opad);
    assert(crate::sm3::spec::xor_pad(k0, 0x36) =~= ipad);
}

/// PBKDF2-HMAC-SM3 accepts exactly a non-empty output, a salt of at most
/// 64 bytes and an iteration count from 10000 to 2^24 - 1, the bounds of the
/// GmSSL header.
pub proof fn law_pbkdf2_accepted_parameters(salt_len: nat, iter: nat, out_len: nat)
    ensures
        pbkdf2_params_ok(salt_len, iter, out_len) <==> (out_len > 0 && salt_len
            <= SM3_PBKDF2_MAX_SALT_SIZE && SM3_PBKDF2_MIN_ITER <= iter <= SM3_PBKDF2_MAX_ITER),
        SM3_PBKDF2_MAX_SALT_SIZE == 64,
        SM3_PBKDF2_MIN_ITER == 10000,
        SM3_PBKDF2_MAX_ITER == 16777216 - 1,
{
}

proof fn lemma_be_u32_one_two()
    ensures
        be_u32(1) == seq![0u8, 0u8, 0u8, 1u8],
        be_u32(2) == seq![0u8, 0u8, 0u8, 2u8],
{
    assert(be_u32(1) =~= seq![0u8, 0u8, 0u8, 1u8]) by {
        assert((1u32 >> 24u32) as u8 == 0u8) by (bit_vector);
        assert((1u32 >> 16u32) as u8 == 0u8) by (bit_vector);
        assert((1u32 >> 8u32) as u8 == 0u8) by (bit_vector);
        assert((1u32 >> 0u32) as u8 == 1u8) by (bit_vector);
    }
    assert(be_u32(2) =~= seq![0u8, 0u8, 0u8, 2u8]) by {
        assert((2u32 >> 24u32) as u8 == 0u8) by (bit_vector);
        assert((2u32 >> 16u32) as u8 == 0u8) by (bit_vector);
        assert((2u32 >> 8u32) as u8 == 0u8) by (bit_vector);
        assert((2u32 >> 0u32) as u8 == 2u8) by (bit_vector);
    }
}

/// With one iteration, the first 32 output bytes are HMAC-SM3 of the salt
/// followed by the big-endian block index 1, and the next 32 are HMAC-SM3 of
/// the salt followed by the index 2 (RFC 8018, 5.2).
pub proof fn law_pbkdf2_one_iteration(pass: Seq<u8>, salt: Seq<u8>, len: nat, k: int)
    requires
        0 <= k < len,
        k < 64,
    ensures
        k < 32 ==> pbkdf2(pass, salt, 1, len)[k] == hmac_sm3(
            pass,
            salt + seq![0u8, 0u8, 0u8, 1u8],
        )[k],
        k >= 32 ==> pbkdf2(pass, salt, 1, len)[k] == hmac_sm3(
            pass,
            salt + seq![0u8, 0u8, 0u8, 2u8],
        )[k - 32],
{
    let i: u32 = pbkdf2_block_index(k);
    lemma_be_u32_one_two();
    if k < 32 {
        assert(i == 1);
    } else {
        assert(i == 2);
    }
}

/// With two iterations, each of the first 32 output bytes is U1 XOR U2, where
/// U1 is HMAC-SM3 of the salt and the block index 1 and U2 is HMAC-SM3 of U1.
pub proof fn law_pbkdf2_two_iterations(pass: Seq<u8>, salt: Seq<u8>, len: nat, k: int)
    requires
        0 <= k < len,
        k < 32,
    ensures
        ({
            let u1 = hmac_sm3(pass, salt + seq![0u8, 0u8, 0u8, 1u8]);
            pbkdf2(pass, salt, 2, len)[k] == u1[k] ^ hmac_sm3(pass, u1)[k]
        }),
{
    lemma_be_u32_one_two();
    let u1 = hmac_sm3(pass, salt + seq![0u8, 0u8, 0u8, 1u8]);
    assert(pbkdf2_block_index(k) == 1);
    assert(pbkdf2_u(pass, salt, 1, 1) == u1);
    assert(pbkdf2_u(pass, salt, 1, 2) == hmac_sm3(pass, u1));
    assert(pbkdf2_f(pass, salt, 1, 1) == u1);
    assert(u1.len() == 32);
    assert(pbkdf2_f(pass, salt, 2, 1) == xor_bytes(u1, hmac_sm3(pass, u1)));
}

} // verus!
