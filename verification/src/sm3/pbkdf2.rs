//! PBKDF2-HMAC-SM3 key derivation (RFC 8018).
use vstd::prelude::*;

use crate::error::{ok_or_library_error, GmsslError};
use crate::sm3::hmac::Sm3Hmac;
use crate::sm3::spec::{
    be_u32, pbkdf2, pbkdf2_block_index, pbkdf2_f, pbkdf2_params_ok, pbkdf2_u,
    xor_bytes,
};
use crate::sys::{SM3_PBKDF2_MAX_ITER, SM3_PBKDF2_MAX_SALT_SIZE, SM3_PBKDF2_MIN_ITER};

verus! {

/// The block T_`idx` of the derived key, from a context keyed with the
/// password that has absorbed nothing yet.
fn pbkdf2_block(template: &Sm3Hmac, salt: &[u8], iterations: usize, idx: u32) -> (t: [u8; 32])
    requires
        template.wf(),
        template.message() == Seq::<u8>::empty(),
        iterations >= 1,
    ensures
        t@ == pbkdf2_f(template.key(), salt@, iterations as nat, idx),
{
    let ghost p = template.key();
    let mut h = template.duplicate();
    h.update(salt);
    let ib: [u8; 4] = [(idx >> 24u32) as u8, (idx >> 16u32) as u8, (idx >> 8u32) as u8, idx as u8];
    proof {
        assert(idx >> 0u32 == idx) by (bit_vector);
        assert(ib@ =~= be_u32(idx));
    }
    h.update(&ib);
    let mut u = h.finish();
    assert(Seq::<u8>::empty() + salt@ + ib@ =~= salt@ + be_u32(idx));
    let mut t = u;
    let mut j: usize = 1;
    while j < iterations
        invariant
            1 <= j <= iterations,
            template.wf(),
            template.key() == p,
            template.message() == Seq::<u8>::empty(),
            u@ == pbkdf2_u(p, salt@, idx, j as nat),
            t@ == pbkdf2_f(p, salt@, j as nat, idx),
        decreases iterations - j,
    {
        let mut h2 = template.duplicate();
        h2.update(&u);
        let ghost prev = u@;
        u = h2.finish();
        assert(Seq::<u8>::empty() + prev =~= prev);
        assert(u@ == pbkdf2_u(p, salt@, idx, (j + 1) as nat));
        let ghost t0 = t@;
        let mut k: usize = 0;
        while k < 32
            invariant
                k <= 32,
                t@.len() == 32,
                u@.len() == 32,
                t0.len() == 32,
                forall|s: int| 0 <= s < k ==> #[trigger] t@[s] == t0[s] ^ u@[s],
                forall|s: int| k <= s < 32 ==> #[trigger] t@[s] == t0[s],
            decreases 32 - k,
        {
            t[k] = t[k] ^ u[k];
            k = k + 1;
        }
        assert(t@ =~= xor_bytes(t0, u@));
        j = j + 1;
    }
    t
}

/// The C-style core of [`sm3_pbkdf2`]: returns 1 after filling `out`, or -1,
/// leaving `out` untouched, when the parameters are out of range.
fn pbkdf2_derive(password: &[u8], salt: &[u8], iterations: usize, out: &mut [u8]) -> (ret: i32)
    ensures
        final(out)@.len() == old(out)@.len(),
        pbkdf2_params_ok(salt@.len(), iterations as nat, old(out)@.len()) ==> (ret == 1
            && final(out)@ == pbkdf2(password@, salt@, iterations as nat, old(out)@.len())),
        !pbkdf2_params_ok(salt@.len(), iterations as nat, old(out)@.len()) ==> (ret == -1
            && final(out)@ == old(out)@),
{
    if out.len() == 0 || salt.len() > SM3_PBKDF2_MAX_SALT_SIZE || iterations
        < SM3_PBKDF2_MIN_ITER || iterations > SM3_PBKDF2_MAX_ITER {
        return -1;
    }
    let ghost len = out@.len();
    let ghost want = pbkdf2(password@, salt@, iterations as nat, len);
    let template = Sm3Hmac::new(password);
    let mut pos: usize = 0;
    let mut idx: u32 = 1;
    while pos < out.len()
        invariant
            out@.len() == len,
            pos <= len,
            want == pbkdf2(password@, salt@, iterations as nat, len),
            pos < len ==> pos % 32 == 0 && idx == pbkdf2_block_index(pos as int),
            template.wf(),
            template.key() == password@,
            template.message() == Seq::<u8>::empty(),
            iterations >= 1,
            forall|k: int| 0 <= k < pos ==> #[trigger] out@[k] == want[k],
        decreases len - pos,
    {
        let t = pbkdf2_block(&template, salt, iterations, idx);
        let n: usize = if out.len() - pos < 32 {
            out.len() - pos
        } else {
            32
        };
        let mut k: usize = 0;
        while k < n
            invariant
                out@.len() == len,
                want == pbkdf2(password@, salt@, iterations as nat, len),
                pos % 32 == 0,
                pos + n <= len,
                n <= 32,
                k <= n,
                t@ == pbkdf2_f(password@, salt@, iterations as nat, idx),
                idx == pbkdf2_block_index(pos as int),
                forall|s: int| 0 <= s < pos + k ==> #[trigger] out@[s] == want[s],
            decreases n - k,
        {
            out[pos + k] = t[k];
            proof {
                let s = pos + k;
                assert(s / 32 == pos / 32);
                assert(s % 32 == k);
                assert(pbkdf2_block_index(s) == idx);
            }
            k = k + 1;
        }
        proof {
            if pos + n < len {
                assert(n == 32);
                vstd::arithmetic::div_mod::lemma_add_mod_noop(
                    pos as int / 32 + 1,
                    1,
                    0x1_0000_0000,
                );
                vstd::arithmetic::div_mod::lemma_small_mod(1, 0x1_0000_0000);
                assert((pos + 32) / 32 == pos / 32 + 1);
            }
        }
        pos = pos + n;
        idx = idx.wrapping_add(1);
    }
    assert(out@ =~= want);
    1
}

/// SM3 PBKDF2 key derivation.
///
/// Derives a key from a password and salt using PBKDF2-HMAC-SM3.
///
/// # Arguments
/// * `password` - The password bytes.
/// * `salt` - The salt bytes (max 64 bytes).
/// * `iterations` - Number of iterations (min 10000).
/// * `out` - Output buffer to fill with derived key material.
pub fn sm3_pbkdf2(password: &[u8], salt: &[u8], iterations: usize, out: &mut [u8]) -> (r: Result<
    (),
    GmsslError,
>)
    ensures
        final(out)@.len() == old(out)@.len(),
        pbkdf2_params_ok(salt@.len(), iterations as nat, old(out)@.len()) <==> r is Ok,
        (old(out)@.len() > 0 && salt@.len() <= SM3_PBKDF2_MAX_SALT_SIZE && SM3_PBKDF2_MIN_ITER
            <= iterations <= SM3_PBKDF2_MAX_ITER) <==> r is Ok,
        r is Ok ==> final(out)@ == pbkdf2(password@, salt@, iterations as nat, old(out)@.len()),
        r is Err ==> final(out)@ == old(out)@ && (r matches Err(GmsslError::LibraryError(n))
            && n@ == "sm3_pbkdf2"@),
{
    let ret = pbkdf2_derive(password, salt, iterations, out);
    ok_or_library_error(ret, "sm3_pbkdf2")
}

} // verus!
