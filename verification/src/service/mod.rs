//! Changing users, now or after approval.

pub mod changes;
pub mod users;
