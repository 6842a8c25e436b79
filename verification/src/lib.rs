//! A verified MD5 message digest.
//!
//! The crate computes the MD5 digest of an in-memory byte sequence and renders
//! it as a lowercase hexadecimal string. The three stages of the algorithm --
//! padding the trailing partial block, compressing each 64-byte block into the
//! running four-word state, and serializing the final state -- are each proved
//! against a specification-level description of MD5.

pub mod compress;
pub mod digest;
pub mod md5;
pub mod padding;
pub mod tables;

pub use compress::process_chunk;
pub use digest::Digest;
pub use md5::compute_md5;
pub use padding::pre_process;
