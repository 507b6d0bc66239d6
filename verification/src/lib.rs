//! Session tokens for user accounts: a service that issues and validates one
//! token per user, kept in a remote key-value store while that store can be
//! reached and in process memory while it cannot.

pub mod text;
pub mod token;
pub mod cache;
pub mod backup_auth;
pub mod redis_auth;
pub mod auth;
pub mod models;
pub mod database;
pub mod api;
pub mod laws;
pub mod wire;
