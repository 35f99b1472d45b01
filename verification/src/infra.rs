//! Storage adapters: what stands behind the repository contracts.

pub mod channel;
pub mod song;
pub mod video;
