//! The services behind the handlers: credentials, the comment engine, the
//! order of listings and the store's rules.

pub mod comments;
pub mod credentials;
pub mod db;
pub mod listing;
