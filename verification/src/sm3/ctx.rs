//! The streaming SM3 state machine on an `SM3_CTX`: init, update, finish.
use vstd::prelude::*;

use crate::sm3::compress::compress_block;
use crate::sm3::spec::{be_u64, bit_length, chain, compress, pad_zeros, padded, sm3, sm3_iv, words_to_bytes};
use crate::sys::SM3_CTX;

verus! {

/// `ctx` is the state of SM3 after absorbing exactly the bytes `m`: the chaining
/// value covers the full blocks of `m`, the block buffer holds the rest.
pub open spec fn absorbed(ctx: SM3_CTX, m: Seq<u8>) -> bool {
    let nb = m.len() / 64;
    &&& ctx.num == m.len() % 64
    &&& ctx.nblocks == (nb % 0x1_0000_0000_0000_0000) as u64
    &&& ctx.digest@ == chain(m, nb)
    &&& forall|i: int| 0 <= i < ctx.num ==> #[trigger] ctx.block@[i] == m[64 * nb + i]
}

/// The chaining value after `n` blocks depends only on the first `64 * n` bytes.
pub proof fn lemma_chain_prefix(m1: Seq<u8>, m2: Seq<u8>, n: nat)
    requires
        m1.len() >= 64 * n,
        m2.len() >= 64 * n,
        forall|i: int| 0 <= i < 64 * n ==> m1[i] == m2[i],
    ensures
        chain(m1, n) == chain(m2, n),
    decreases n,
{
    if n > 0 {
        lemma_chain_prefix(m1, m2, (n - 1) as nat);
        assert(m1.subrange(64 * (n - 1), 64 * n as int) =~= m2.subrange(
            64 * (n - 1),
            64 * n as int,
        ));
    }
}

proof fn lemma_block_count(len: nat)
    ensures
        len / 64 * 64 + len % 64 == len,
        len % 64 < 64,
{
}

/// A fresh state, which has absorbed nothing.
pub fn sm3_init() -> (ctx: SM3_CTX)
    ensures
        absorbed(ctx, Seq::empty()),
{
    let digest: [u32; 8] = [
        0x7380166fu32,
        0x4914b2b9u32,
        0x172442d7u32,
        0xda8a0600u32,
        0xa96f30bcu32,
        0x163138aau32,
        0xe38dee4du32,
        0xb0fb0e4eu32,
    ];
    let ctx = SM3_CTX { digest, nblocks: 0, block: [0u8; 64], num: 0 };
    assert(ctx.digest@ =~= sm3_iv());
    ctx
}

/// Copies a state.
pub fn sm3_ctx_copy(ctx: &SM3_CTX) -> (r: SM3_CTX)
    ensures
        r == *ctx,
{
    SM3_CTX { digest: ctx.digest, nblocks: ctx.nblocks, block: ctx.block, num: ctx.num }
}

fn absorb_byte(ctx: &mut SM3_CTX, Ghost(m): Ghost<Seq<u8>>, byte: u8)
    requires
        absorbed(*old(ctx), m),
    ensures
        absorbed(*final(ctx), m.push(byte)),
{
    let ghost m1 = m.push(byte);
    let ghost nb: nat = m.len() / 64;
    proof {
        lemma_block_count(m.len());
        lemma_block_count(m1.len());
    }
    let n = ctx.num;
    ctx.block[n] = byte;
    if n + 1 == 64 {
        proof {
            assert(m1.len() == 64 * (nb + 1));
            assert(m1.len() / 64 == nb + 1);
            lemma_chain_prefix(m, m1, nb);
            assert(ctx.block@ =~= m1.subrange(64 * nb as int, 64 * (nb + 1) as int));
            vstd::arithmetic::div_mod::lemma_add_mod_noop(
                nb as int,
                1,
                0x1_0000_0000_0000_0000,
            );
            vstd::arithmetic::div_mod::lemma_small_mod(1, 0x1_0000_0000_0000_0000);
        }
        compress_block(&mut ctx.digest, &ctx.block);
        ctx.nblocks = ctx.nblocks.wrapping_add(1);
        ctx.num = 0;
    } else {
        ctx.num = n + 1;
        proof {
            assert(m1.len() / 64 == nb);
            lemma_chain_prefix(m, m1, nb);
        }
    }
}

/// Absorbs `data` into the state.
pub fn sm3_update(ctx: &mut SM3_CTX, Ghost(m): Ghost<Seq<u8>>, data: &[u8])
    requires
        absorbed(*old(ctx), m),
    ensures
        absorbed(*final(ctx), m + data@),
{
    let mut i: usize = 0;
    while i < data.len()
        invariant
            i <= data.len(),
            absorbed(*ctx, m + data@.subrange(0, i as int)),
        decreases data.len() - i,
    {
        absorb_byte(ctx, Ghost(m + data@.subrange(0, i as int)), data[i]);
        assert((m + data@.subrange(0, i as int)).push(data[i as int]) =~= m + data@.subrange(
            0,
            i + 1,
        ));
        i = i + 1;
    }
    assert(data@.subrange(0, data.len() as int) =~= data@);
}

proof fn lemma_bit_length(x: u64, nb: int, r: int)
    requires
        0 <= nb,
        0 <= r < 64,
        x == (nb % 0x1_0000_0000_0000_0000) as u64,
    ensures
        x.wrapping_mul(512).wrapping_add((r * 8) as u64) == bit_length((64 * nb + r) as nat),
{
    let mm: int = 0x1_0000_0000_0000_0000;
    let y = (x as int * 512) % mm;
    assert(x.wrapping_mul(512) == y as u64);
    vstd::arithmetic::div_mod::lemma_mul_mod_noop_right(512, nb, mm);
    assert(512 * (nb % mm) == (nb % mm) * 512) by (nonlinear_arith);
    assert(y == (512 * nb) % mm);
    vstd::arithmetic::div_mod::lemma_add_mod_noop(512 * nb, 8 * r, mm);
    vstd::arithmetic::div_mod::lemma_small_mod((8 * r) as nat, mm as nat);
    // (512 * nb) % mm is a multiple of 512, so adding 8 * r < 512 does not wrap.
    assert(y % 512 == 0) by {
        vstd::arithmetic::div_mod::lemma_mod_mod(512 * nb, 512, 0x80_0000_0000_0000);
        vstd::arithmetic::div_mod::lemma_mod_multiples_basic(nb, 512);
        assert(512 * 0x80_0000_0000_0000 == mm);
    }
    assert(y + 8 * r < mm);
    vstd::arithmetic::div_mod::lemma_small_mod((y + 8 * r) as nat, mm as nat);
    assert((64 * nb + r) * 8 == 512 * nb + 8 * r);
}

/// The digest of everything absorbed; the state itself is left as it is.
pub fn sm3_finish(ctx: &SM3_CTX, Ghost(m): Ghost<Seq<u8>>) -> (dgst: [u8; 32])
    requires
        absorbed(*ctx, m),
    ensures
        dgst@ == sm3(m),
{
    let ghost nb: int = (m.len() / 64) as int;
    let ghost p = padded(m);
    let ghost k = pad_zeros(m.len());
    let ghost lenb = be_u64(bit_length(m.len()));
    proof {
        lemma_block_count(m.len());
        assert(p.len() == m.len() + 1 + k + 8);
        assert forall|i: int| 0 <= i < m.len() implies p[i] == m[i] by {}
        assert forall|i: int| 0 <= i < k implies #[trigger] p[m.len() + 1 + i] == 0u8 by {}
        assert(p[m.len() as int] == 0x80u8);
        assert forall|i: int| 0 <= i < 8 implies #[trigger] p[m.len() + 1 + k + i] == lenb[i] by {}
    }
    let mut v = ctx.digest;
    let mut blk = ctx.block;
    let num = ctx.num;
    blk[num] = 0x80u8;
    let mut i: usize = num + 1;
    if num + 9 <= 64 {
        while i < 56
            invariant
                num < 56,
                num + 1 <= i <= 56,
                blk@.len() == 64,
                blk@[num as int] == 0x80u8,
                forall|t: int| 0 <= t < num ==> #[trigger] blk@[t] == ctx.block@[t],
                forall|t: int| num < t < i ==> #[trigger] blk@[t] == 0u8,
            decreases 56 - i,
        {
            blk[i] = 0u8;
            i = i + 1;
        }
    } else {
        while i < 64
            invariant
                56 <= num < 64,
                num + 1 <= i <= 64,
                blk@.len() == 64,
                blk@[num as int] == 0x80u8,
                forall|t: int| 0 <= t < num ==> #[trigger] blk@[t] == ctx.block@[t],
                forall|t: int| num < t < i ==> #[trigger] blk@[t] == 0u8,
            decreases 64 - i,
        {
            blk[i] = 0u8;
            i = i + 1;
        }
        proof {
            assert(k == 119 - num);
            assert(p.len() == 64 * nb + 128);
            lemma_chain_prefix(m, p, nb as nat);
            assert(blk@ =~= p.subrange(64 * nb, 64 * (nb + 1)));
            assert(chain(p, (nb + 1) as nat) == compress(chain(p, nb as nat), p.subrange(
                64 * nb,
                64 * (nb + 1),
            )));
        }
        compress_block(&mut v, &blk);
        i = 0;
        while i < 56
            invariant
                i <= 56,
                blk@.len() == 64,
                forall|t: int| 0 <= t < i ==> #[trigger] blk@[t] == 0u8,
            decreases 56 - i,
        {
            blk[i] = 0u8;
            i = i + 1;
        }
    }
    let bitlen: u64 = ctx.nblocks.wrapping_mul(512).wrapping_add((num as u64) * 8);
    proof {
        lemma_bit_length(ctx.nblocks, nb, num as int);
        assert(bitlen == bit_length(m.len()));
    }
    blk[56] = (bitlen >> 56u64) as u8;
    blk[57] = (bitlen >> 48u64) as u8;
    blk[58] = (bitlen >> 40u64) as u8;
    blk[59] = (bitlen >> 32u64) as u8;
    blk[60] = (bitlen >> 24u64) as u8;
    blk[61] = (bitlen >> 16u64) as u8;
    blk[62] = (bitlen >> 8u64) as u8;
    blk[63] = bitlen as u8;
    proof {
        let nlast: nat = p.len() / 64;
        assert(lenb[0] == (bitlen >> 56u64) as u8);
        assert(lenb[7] == (bitlen >> 0u64) as u8);
        assert(bitlen >> 0u64 == bitlen) by (bit_vector);
        if num + 9 <= 64 {
            assert(k == 55 - num);
            assert(p.len() == 64 * nb + 64);
            assert(nlast == nb + 1);
            lemma_chain_prefix(m, p, nb as nat);
        } else {
            assert(nlast == nb + 2);
        }
        assert(blk@ =~= p.subrange(64 * (nlast - 1), 64 * nlast as int));
        assert(chain(p, nlast) == compress(chain(p, (nlast - 1) as nat), p.subrange(
            64 * (nlast - 1),
            64 * nlast as int,
        )));
    }
    compress_block(&mut v, &blk);
    let mut dgst = [0u8; 32];
    let mut j: usize = 0;
    while j < 8
        invariant
            j <= 8,
            dgst@.len() == 32,
            forall|t: int| 0 <= t < 4 * j ==> #[trigger] dgst@[t] == words_to_bytes(v@)[t],
        decreases 8 - j,
    {
        let x = v[j];
        dgst[4 * j] = (x >> 24u32) as u8;
        dgst[4 * j + 1] = (x >> 16u32) as u8;
        dgst[4 * j + 2] = (x >> 8u32) as u8;
        dgst[4 * j + 3] = x as u8;
        proof {
            assert(x >> 0u32 == x) by (bit_vector);
            assert forall|t: int| 4 * j <= t < 4 * j + 4 implies #[trigger] dgst@[t]
                == words_to_bytes(v@)[t] by {
                assert(t / 4 == j);
            }
        }
        j = j + 1;
    }
    assert(dgst@ =~= words_to_bytes(v@));
    dgst
}

} // verus!
