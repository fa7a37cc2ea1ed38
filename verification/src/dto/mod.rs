//! The shapes the API answers with, kept apart from the database records, and the
//! conversions from records to them.

pub mod attachment;
pub mod calendar;
pub mod calendar_convert;
pub mod chat;
pub mod common;
pub mod contacts;
pub mod contacts_convert;
pub mod content;
pub mod convert;
pub mod message;
pub mod note;
pub mod note_convert;
pub mod pagination;
pub mod reminder;
pub mod reminder_convert;
