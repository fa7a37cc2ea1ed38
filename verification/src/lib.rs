//! Request validation, pagination cursors, structured errors and API data transfer objects of
//! a read-mostly HTTP API over Messages, Reminders, Notes, Calendar and Contacts data.
pub mod error_codes;
pub mod error;
pub mod text;
pub mod filters;
pub mod params;
pub mod cursor;
pub mod format;
pub mod eventkit;
pub mod routes;
pub mod health;
pub mod hydrate;
pub mod seqmap;
pub mod dto;
pub mod model;
pub mod contacts;
pub mod floats;
pub mod media;
pub mod extract;
pub mod middleware;
pub mod listing;
pub mod attachment_access;
pub mod reminder_write;
