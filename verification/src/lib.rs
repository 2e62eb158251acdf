//! Core of a personal-dashboard backend: credential hashing and verification,
//! signed session tokens, the request-time authentication gate, and the
//! cache-aside layer that fronts every third-party data fetch.
//!
//! Everything here is plain computation with contracts; the HTTP surface, the
//! relational store and the network clients live outside the library and hand
//! in plain values.

pub mod auth;
pub mod cache;
pub mod config;
pub mod error;
pub mod handlers;
pub mod models;
pub mod text;
pub mod widgets;
