//! Small shapes shared by the handlers: token claims and paging arguments.

pub mod claims;
pub mod pagination_args;
