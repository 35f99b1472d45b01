//! Channels: the records and the contract of their storage.

pub mod model;
pub mod repository;
