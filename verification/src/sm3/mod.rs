//! SM3 cryptographic hash (GM/T 0004-2012), HMAC-SM3 and PBKDF2-HMAC-SM3.
//!
//! SM3 produces a 256-bit (32-byte) digest. [`Sm3`] follows the
//! init / update / finish pattern; [`Sm3::digest`] hashes in one call.
use vstd::prelude::*;

pub mod spec;
pub mod compress;
pub mod ctx;
pub mod hmac;
pub mod pbkdf2;
pub mod laws;

use crate::sm3::ctx::{absorbed, sm3_finish, sm3_init, sm3_update};
use crate::sm3::spec::sm3;
use crate::sys::{SM3_CTX, SM3_DIGEST_SIZE};

verus! {

/// SM3 streaming hash context.
///
/// Its view is the message absorbed so far.
pub struct Sm3 {
    ctx: SM3_CTX,
    msg: Ghost<Seq<u8>>,
}

impl View for Sm3 {
    type V = Seq<u8>;

    closed spec fn view(&self) -> Seq<u8> {
        self.msg@
    }
}

impl Sm3 {
    /// The context's state is that of SM3 after absorbing its view.
    pub closed spec fn wf(&self) -> bool {
        absorbed(self.ctx, self.msg@)
    }

    /// Create a new SM3 hash context.
    pub fn new() -> (s: Self)
        ensures
            s.wf(),
            s@ == Seq::<u8>::empty(),
    {
        Sm3 { ctx: sm3_init(), msg: Ghost(Seq::empty()) }
    }

    /// Feed data into the hash.
    pub fn update(&mut self, data: &[u8])
        requires
            old(self).wf(),
        ensures
            final(self).wf(),
            final(self)@ == old(self)@ + data@,
    {
        sm3_update(&mut self.ctx, Ghost(self.msg@), data);
        self.msg = Ghost(self.msg@ + data@);
    }

    /// Finalize and produce the 32-byte digest of everything fed in so far.
    /// The context keeps its state.
    pub fn finish(&mut self) -> (dgst: [u8; SM3_DIGEST_SIZE])
        requires
            old(self).wf(),
        ensures
            final(self).wf(),
            final(self)@ == old(self)@,
            dgst@ == sm3(old(self)@),
    {
        sm3_finish(&self.ctx, Ghost(self.msg@))
    }

    /// One-shot hash: compute SM3 digest of `data`.
    pub fn digest(data: &[u8]) -> (dgst: [u8; SM3_DIGEST_SIZE])
        ensures
            dgst@ == sm3(data@),
    {
        let mut sm3 = Sm3::new();
        sm3.update(data);
        proof {
            assert(Seq::<u8>::empty() + data@ =~= data@);
        }
        sm3.finish()
    }

    /// Reset the context to compute a new hash.
    pub fn reset(&mut self)
        ensures
            final(self).wf(),
            final(self)@ == Seq::<u8>::empty(),
    {
        self.ctx = sm3_init();
        self.msg = Ghost(Seq::empty());
    }
}

impl Default for Sm3 {
    fn default() -> (s: Self)
        ensures
            s.wf(),
            s@ == Seq::<u8>::empty(),
    {
        Self::new()
    }
}

} // verus!
