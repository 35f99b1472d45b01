//! Catalog of media entities (channels, videos, songs): validated value
//! types, entity records, repository contracts with their storage adapters,
//! and the error taxonomy handed to the transport layer.

pub mod domain;
pub mod exception;
pub mod handlers;
pub mod infra;
