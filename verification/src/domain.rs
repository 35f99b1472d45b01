//! Entities, value types and repository contracts.

pub mod channel;
pub mod page;
pub mod song;
pub mod text;
pub mod url;
pub mod video;
