//! The handlers, as decisions: each takes what was sent and what the store
//! answered, and says what to answer and what to do next.

pub mod account;
pub mod admin;
pub mod announcement;
pub mod executive_member;
pub mod forum_post;
pub mod general_member;
pub mod guard;
pub mod reply;
pub mod resource;
pub mod shared;
