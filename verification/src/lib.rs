//! Verified core of a websocket/Redis table server: key naming, request
//! handling protocols, connection bookkeeping and configuration.

pub mod keys;
pub mod outside;
pub mod text;
pub mod types;
pub mod store;
pub mod handler;
pub mod connections;
pub mod config;
