//! The submission pipeline of an anonymous question page: content
//! sanitization, length validation, a transient store with time-based expiry,
//! and the notification payload sent for each accepted question.

pub mod ask;
pub mod discord;
pub mod sanitize;
pub mod store;
