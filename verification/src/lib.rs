//! Verified core of a club membership and forum service.
//!
//! - `rules`: what each field of a request may hold, and the check of it.
//! - `models`: the stored records, the requests that travel, and the
//!   conversion of one into the other.
//! - `services`: credentials, the comment engine, the order of listings and
//!   the decisions made around the store.
//! - `routes`: the handlers as decisions, from what was sent and what the
//!   store answered to the answer and the next step.
//! - `utilities`: token claims and paging arguments.
//! - `text`, `numbers`: helpers over characters.
//! - `bindings`: the calls into other crates, whose contracts are taken on
//!   trust.
//!
//! Everything outside `bindings` is proved against its contract.

pub mod bindings;
pub mod models;
pub mod numbers;
pub mod routes;
pub mod rules;
pub mod services;
pub mod text;
pub mod utilities;
