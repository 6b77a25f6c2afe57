//! SM3 hashing, HMAC-SM3 and PBKDF2-HMAC-SM3, verified against the
//! GM/T 0004-2012 definition, with the data types of the GmSSL algorithms.

pub mod error;
pub mod pem_helpers;
pub mod sys;
pub mod sm3;

pub use crate::error::GmsslError;
pub use crate::sm3::hmac::Sm3Hmac;
pub use crate::sm3::pbkdf2::sm3_pbkdf2;
pub use crate::sm3::Sm3;
