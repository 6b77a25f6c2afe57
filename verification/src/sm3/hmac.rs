//! HMAC-SM3 (RFC 2104 with SM3).
use vstd::prelude::*;

use crate::sm3::ctx::{absorbed, sm3_ctx_copy, sm3_finish, sm3_init, sm3_update};
use crate::sm3::spec::{hmac_key_block, hmac_sm3, sm3, xor_pad};
use crate::sm3::Sm3;
use crate::sys::{SM3_HMAC_CTX, SM3_HMAC_SIZE};

verus! {

/// SM3 HMAC context.
///
/// It holds the key it was made with and the message fed in since.
pub struct Sm3Hmac {
    ctx: SM3_HMAC_CTX,
    key_bytes: Ghost<Seq<u8>>,
    msg: Ghost<Seq<u8>>,
}

/// The key block XOR ipad of `key`.
fn inner_key_block(key: &[u8]) -> (kb: [u8; 64])
    ensures
        kb@ == xor_pad(hmac_key_block(key@), 0x36),
{
    let mut kb = [0u8; 64];
    let ghost k = if key@.len() > 64 {
        sm3(key@)
    } else {
        key@
    };
    let mut n: usize = 0;
    if key.len() > 64 {
        let d = Sm3::digest(key);
        while n < 32
            invariant
                n <= 32,
                kb@.len() == 64,
                k == d@,
                k.len() == 32,
                forall|t: int| 0 <= t < n ==> #[trigger] kb@[t] == k[t],
                forall|t: int| n <= t < 64 ==> #[trigger] kb@[t] == 0u8,
            decreases 32 - n,
        {
            kb[n] = d[n];
            n = n + 1;
        }
    } else {
        while n < key.len()
            invariant
                n <= key@.len() <= 64,
                kb@.len() == 64,
                k == key@,
                forall|t: int| 0 <= t < n ==> #[trigger] kb@[t] == k[t],
                forall|t: int| n <= t < 64 ==> #[trigger] kb@[t] == 0u8,
            decreases key.len() - n,
        {
            kb[n] = key[n];
            n = n + 1;
        }
    }
    assert(kb@ =~= hmac_key_block(key@));
    let ghost k0 = kb@;
    let mut i: usize = 0;
    while i < 64
        invariant
            i <= 64,
            kb@.len() == 64,
            k0.len() == 64,
            forall|t: int| 0 <= t < i ==> #[trigger] kb@[t] == k0[t] ^ 0x36u8,
            forall|t: int| i <= t < 64 ==> #[trigger] kb@[t] == k0[t],
        decreases 64 - i,
    {
        kb[i] = kb[i] ^ 0x36u8;
        i = i + 1;
    }
    assert(kb@ =~= xor_pad(k0, 0x36));
    kb
}

impl Sm3Hmac {
    /// The key the context was made with.
    pub closed spec fn key(&self) -> Seq<u8> {
        self.key_bytes@
    }

    /// The message fed in since the context was made.
    pub closed spec fn message(&self) -> Seq<u8> {
        self.msg@
    }

    /// The inner hash has absorbed the key block XOR ipad and the message.
    pub closed spec fn wf(&self) -> bool {
        &&& self.ctx.key@ == xor_pad(hmac_key_block(self.key_bytes@), 0x36)
        &&& absorbed(self.ctx.sm3_ctx, self.ctx.key@ + self.msg@)
    }

    /// Create a new SM3 HMAC context with the given key.
    pub fn new(key: &[u8]) -> (h: Self)
        ensures
            h.wf(),
            h.key() == key@,
            h.message() == Seq::<u8>::empty(),
    {
        let kb = inner_key_block(key);
        let mut c = sm3_init();
        sm3_update(&mut c, Ghost(Seq::empty()), &kb);
        assert(Seq::<u8>::empty() + kb@ =~= kb@ + Seq::<u8>::empty());
        Sm3Hmac {
            ctx: SM3_HMAC_CTX { sm3_ctx: c, key: kb },
            key_bytes: Ghost(key@),
            msg: Ghost(Seq::empty()),
        }
    }

    /// Feed data into the HMAC computation.
    pub fn update(&mut self, data: &[u8])
        requires
            old(self).wf(),
        ensures
            final(self).wf(),
            final(self).key() == old(self).key(),
            final(self).message() == old(self).message() + data@,
    {
        sm3_update(&mut self.ctx.sm3_ctx, Ghost(self.ctx.key@ + self.msg@), data);
        assert(self.ctx.key@ + self.msg@ + data@ =~= self.ctx.key@ + (self.msg@ + data@));
        self.msg = Ghost(self.msg@ + data@);
    }

    /// Finalize and produce the 32-byte MAC of the message fed in so far.
    /// The context keeps its state.
    pub fn finish(&mut self) -> (mac: [u8; SM3_HMAC_SIZE])
        requires
            old(self).wf(),
        ensures
            final(self).wf(),
            final(self).key() == old(self).key(),
            final(self).message() == old(self).message(),
            mac@ == hmac_sm3(old(self).key(), old(self).message()),
    {
        let ghost k0 = hmac_key_block(self.key_bytes@);
        let inner = sm3_finish(&self.ctx.sm3_ctx, Ghost(self.ctx.key@ + self.msg@));
        let mut okey = [0u8; 64];
        let mut i: usize = 0;
        while i < 64
            invariant
                i <= 64,
                okey@.len() == 64,
                k0.len() == 64,
                self.ctx.key@ == xor_pad(k0, 0x36),
                forall|t: int| 0 <= t < i ==> #[trigger] okey@[t] == k0[t] ^ 0x5cu8,
            decreases 64 - i,
        {
            let x = self.ctx.key[i];
            let y = x ^ 0x6au8;
            proof {
                let kt = k0[i as int];
                assert(x == kt ^ 0x36u8);
                assert((kt ^ 0x36u8) ^ 0x6au8 == kt ^ 0x5cu8) by (bit_vector);
            }
            okey[i] = y;
            i = i + 1;
        }
        assert(okey@ =~= xor_pad(k0, 0x5c));
        let mut c = sm3_init();
        sm3_update(&mut c, Ghost(Seq::empty()), &okey);
        assert(Seq::<u8>::empty() + okey@ =~= okey@);
        sm3_update(&mut c, Ghost(okey@), &inner);
        sm3_finish(&c, Ghost(okey@ + inner@))
    }

    /// One-shot HMAC-SM3.
    pub fn mac(key: &[u8], data: &[u8]) -> (mac: [u8; SM3_HMAC_SIZE])
        ensures
            mac@ == hmac_sm3(key@, data@),
    {
        let mut hmac = Sm3Hmac::new(key);
        hmac.update(data);
        assert(Seq::<u8>::empty() + data@ =~= data@);
        hmac.finish()
    }

    /// Reset with a new key.
    pub fn reset(&mut self, key: &[u8])
        ensures
            final(self).wf(),
            final(self).key() == key@,
            final(self).message() == Seq::<u8>::empty(),
    {
        *self = Sm3Hmac::new(key);
    }

    /// A second context in the same state.
    pub(crate) fn duplicate(&self) -> (h: Self)
        ensures
            h.wf() == self.wf(),
            h.key() == self.key(),
            h.message() == self.message(),
    {
        Sm3Hmac {
            ctx: SM3_HMAC_CTX { sm3_ctx: sm3_ctx_copy(&self.ctx.sm3_ctx), key: self.ctx.key },
            key_bytes: Ghost(self.key_bytes@),
            msg: Ghost(self.msg@),
        }
    }
}

} // verus!
