# gmssl-rs

SM3 hashing (GM/T 0004-2012), HMAC-SM3 and PBKDF2-HMAC-SM3, written in Verus
and proved against a specification of the standard, together with the data
types of the GmSSL algorithm contexts.

Layout:

- `src/sm3/spec.rs` — SM3, HMAC-SM3 and PBKDF2-HMAC-SM3 as spec functions.
- `src/sm3/compress.rs`, `src/sm3/ctx.rs` — the compression function and the
  streaming `SM3_CTX` state machine (init / update / finish).
- `src/sm3/mod.rs`, `src/sm3/hmac.rs`, `src/sm3/pbkdf2.rs` — the public API:
  `Sm3`, `Sm3Hmac`, `sm3_pbkdf2`.
- `src/sm3/laws.rs` — properties that relate several calls.
- `src/sys.rs` — the context and key types of the GmSSL algorithms.
- `src/pem_helpers.rs`, `src/error.rs` — result decisions of the PEM/DER
  helpers and the error type.
- `app/` — the `FILE*` plumbing (libc) around the PEM/DER helpers.
- `tests/` — known-answer tests and comparisons with the RustCrypto `sm3`,
  `hmac` and `pbkdf2` crates.
