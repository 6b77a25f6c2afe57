//! The SM3 compression function on a 64-byte block.
use vstd::prelude::*;

use crate::sm3::spec::{compress, expanded_word, ff, gg, p0, p1, rotl, rounds, t_const};

verus! {

fn rotl_u32(x: u32, n: u32) -> (r: u32)
    requires
        n < 32,
    ensures
        r == rotl(x, n),
{
    if n == 0 {
        x
    } else {
        (x << n) | (x >> (32 - n))
    }
}

fn p0_u32(x: u32) -> (r: u32)
    ensures
        r == p0(x),
{
    x ^ rotl_u32(x, 9) ^ rotl_u32(x, 17)
}

fn p1_u32(x: u32) -> (r: u32)
    ensures
        r == p1(x),
{
    x ^ rotl_u32(x, 15) ^ rotl_u32(x, 23)
}

fn ff_u32(j: usize, x: u32, y: u32, z: u32) -> (r: u32)
    ensures
        r == ff(j as int, x, y, z),
{
    if j < 16 {
        x ^ y ^ z
    } else {
        (x & y) | (x & z) | (y & z)
    }
}

fn gg_u32(j: usize, x: u32, y: u32, z: u32) -> (r: u32)
    ensures
        r == gg(j as int, x, y, z),
{
    if j < 16 {
        x ^ y ^ z
    } else {
        (x & y) | (!x & z)
    }
}

fn t_u32(j: usize) -> (r: u32)
    ensures
        r == t_const(j as int),
{
    if j < 16 {
        0x79cc4519u32
    } else {
        0x7a879d8au32
    }
}

/// The message expansion W_0..W_67 of a block.
fn expand(b: &[u8; 64]) -> (w: [u32; 68])
    ensures
        forall|k: int| 0 <= k < 68 ==> #[trigger] w@[k] == expanded_word(b@, k as nat),
{
    let mut w = [0u32; 68];
    let mut j: usize = 0;
    while j < 16
        invariant
            j <= 16,
            w@.len() == 68,
            forall|k: int| 0 <= k < j ==> #[trigger] w@[k] == expanded_word(b@, k as nat),
        decreases 16 - j,
    {
        let x = ((b[4 * j] as u32) << 24u32) | ((b[4 * j + 1] as u32) << 16u32) | ((b[4 * j
            + 2] as u32) << 8u32) | (b[4 * j + 3] as u32);
        assert(x == expanded_word(b@, j as nat));
        w[j] = x;
        j = j + 1;
    }
    while j < 68
        invariant
            16 <= j <= 68,
            w@.len() == 68,
            forall|k: int| 0 <= k < j ==> #[trigger] w@[k] == expanded_word(b@, k as nat),
        decreases 68 - j,
    {
        let x = p1_u32(w[j - 16] ^ w[j - 9] ^ rotl_u32(w[j - 3], 15)) ^ rotl_u32(w[j - 13], 7)
            ^ w[j - 6];
        assert(x == expanded_word(b@, j as nat)) by {
            assert(w@[j - 16] == expanded_word(b@, (j - 16) as nat));
            assert(w@[j - 9] == expanded_word(b@, (j - 9) as nat));
            assert(w@[j - 3] == expanded_word(b@, (j - 3) as nat));
            assert(w@[j - 13] == expanded_word(b@, (j - 13) as nat));
            assert(w@[j - 6] == expanded_word(b@, (j - 6) as nat));
        }
        w[j] = x;
        j = j + 1;
    }
    w
}

/// Replaces the chaining value `v` by CF(`v`, `b`).
pub fn compress_block(v: &mut [u32; 8], b: &[u8; 64])
    ensures
        final(v)@ == compress(old(v)@, b@),
{
    let w = expand(b);
    let ghost v0 = v@;
    let mut a = v[0];
    let mut bb = v[1];
    let mut c = v[2];
    let mut d = v[3];
    let mut e = v[4];
    let mut f = v[5];
    let mut g = v[6];
    let mut h = v[7];
    assert(seq![a, bb, c, d, e, f, g, h] =~= rounds(v0, b@, 0));
    let mut j: usize = 0;
    while j < 64
        invariant
            j <= 64,
            forall|k: int| 0 <= k < 68 ==> #[trigger] w@[k] == expanded_word(b@, k as nat),
            seq![a, bb, c, d, e, f, g, h] == rounds(v0, b@, j as nat),
        decreases 64 - j,
    {
        let ghost s = rounds(v0, b@, j as nat);
        let wj = w[j];
        let wj1 = w[j] ^ w[j + 4];
        let a12 = rotl_u32(a, 12);
        let ss1 = rotl_u32(
            a12.wrapping_add(e).wrapping_add(rotl_u32(t_u32(j), (j % 32) as u32)),
            7,
        );
        let ss2 = ss1 ^ a12;
        let tt1 = ff_u32(j, a, bb, c).wrapping_add(d).wrapping_add(ss2).wrapping_add(wj1);
        let tt2 = gg_u32(j, e, f, g).wrapping_add(h).wrapping_add(ss1).wrapping_add(wj);
        d = c;
        c = rotl_u32(bb, 9);
        bb = a;
        a = tt1;
        h = g;
        g = rotl_u32(f, 19);
        f = e;
        e = p0_u32(tt2);
        proof {
            assert(s =~= seq![s[0], s[1], s[2], s[3], s[4], s[5], s[6], s[7]]);
            assert(w@[j as int] == expanded_word(b@, j as nat));
            assert(w@[j + 4] == expanded_word(b@, (j + 4) as nat));
        }
        j = j + 1;
    }
    v[0] = v[0] ^ a;
    v[1] = v[1] ^ bb;
    v[2] = v[2] ^ c;
    v[3] = v[3] ^ d;
    v[4] = v[4] ^ e;
    v[5] = v[5] ^ f;
    v[6] = v[6] ^ g;
    v[7] = v[7] ^ h;
    assert(v@ =~= compress(v0, b@));
}

} // verus!
