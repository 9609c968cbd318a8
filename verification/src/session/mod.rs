//! What a user asks for, what is made of it, and what the user is told.

pub mod plan;
pub mod probe;
pub mod report;
pub mod request;
