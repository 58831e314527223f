//! The requests of the client API and the answers to them, as plain data.

pub mod comment;
pub mod community;
pub mod community_settings;
pub mod post;
pub mod report;
pub mod site;
pub mod user;
