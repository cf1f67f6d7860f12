//! Verified core of a question-and-answer web service.
//!
//! This crate holds the access-control gateway of the service: credential
//! hashing and verification, issuance and verification of encrypted,
//! integrity-protected session tokens, request-time authorization, per-resource
//! ownership checks, classification of replies from the external moderation
//! provider, and the closed error taxonomy that maps every failure to one
//! transport status and one user-safe message.  The HTTP routing, the SQL
//! store and the outbound HTTP calls live outside this crate and hand plain
//! values in and out.

pub mod account;
pub mod answer;
pub mod authentication;
pub mod config;
pub mod errors;
pub mod hex;
pub mod moderation;
pub mod ownership;
pub mod pagination;
pub mod parse;
pub mod question;
pub mod routes;
pub mod token;
