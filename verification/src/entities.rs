//! The two persisted record kinds: user accounts and ban-tracker rows.

pub mod ban_tracker;
pub mod user;
