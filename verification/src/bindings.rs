//! The calls into other crates. Each is a small function whose contract is
//! taken on trust; everything built on them is proved from those contracts.

pub mod dates;
pub mod hashing;
pub mod identity;
pub mod strength;
pub mod tokens;
