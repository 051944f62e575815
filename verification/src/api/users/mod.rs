//! The current user's own records.
pub mod me;
