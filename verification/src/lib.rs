//! A photo server's library: authentication, the records it keeps, and the
//! answers of its HTTP API.
pub mod api;
pub mod auth;
pub mod config;
pub mod database;
pub mod error;
pub mod features;
pub mod text;
pub mod static_assets;
pub mod user;
