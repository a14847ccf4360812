//! Core logic of a small anime / manga / novel / game tracking service:
//! the models of a work and its viewing status, the error type and the
//! HTTP status each error is answered with, password hashing and session
//! tokens, the prompt sent to the recommendation model, and the decisions
//! the request handlers take between their database round trips.
pub mod text;
pub mod models;
pub mod error;
pub mod auth;
pub mod ai;
pub mod db;
pub mod handlers;
pub mod server;
