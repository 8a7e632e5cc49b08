//! The records of the service and the requests they are made from.

pub mod account;
pub mod admin;
pub mod announcement;
pub mod comment;
pub mod conversion;
pub mod executive_member;
pub mod forum_post;
pub mod general_member;
pub mod id;
pub mod resource;
