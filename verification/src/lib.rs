//! Certification descriptors for HTTP request and response pairs.
//!
//! A certification records which hashes a certification policy asks for, and
//! encodes them as the path under which the pair is kept in a certification
//! tree. The policy's text, and the hashes of the request and the response
//! under the policy's rules, come from the caller.

pub mod certification;
pub mod digest;
pub mod path;

pub use certification::{
    CertificationView, HttpCertification, HttpCertificationError, SKIP_CEL_EXPRESSION,
};
