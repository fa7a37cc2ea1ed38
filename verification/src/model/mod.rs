//! The records the database readers produce, as the API layer reads them. Timestamps are
//! Unix seconds.

pub mod calendar;
pub mod contacts;
pub mod messages;
pub mod notes;
pub mod page;
pub mod reminders;
