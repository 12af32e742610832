//! An authentication decision service in the `auth_request` style: a reverse
//! proxy forwards a sub-request for every protected call, and this library
//! answers whether the caller's session is authenticated.
//!
//! The crate verifies the core state machine: credential checking with a
//! peppered Argon2id hash and TOTP, per-session CSRF tokens, adaptive CAPTCHA
//! gating, a sliding-window ban tracker, and the session lifecycle. Outside
//! cryptographic primitives are reached through small trusted wrappers whose
//! contracts name what they compute.

pub mod challenge_manager;
pub mod clock;
pub mod config;
pub mod crypto;
pub mod db;
pub mod encode;
pub mod session;
pub mod entities;
pub mod errors;
pub mod tui;
pub mod user_manager;
pub mod web;
