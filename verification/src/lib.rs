//! A client-side view of a school portal that has no API of its own.
//!
//! The portal hands everything over at login, as one JSON snapshot inside
//! a page. This library decides how to log in, reads the portal's odd
//! encodings, keeps the snapshot in a session, and resolves its daily plans
//! and bell schedule into timetables and answers. It sends nothing itself:
//! the caller carries the requests that the library words.

pub mod calendar;
pub mod deserializers;
pub mod edupage;
pub mod numeral;
pub mod text;
pub mod traits;
pub mod types;
