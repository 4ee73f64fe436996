//! Decoding of weekly school timetables from the pages of a Bakaláři portal,
//! and the decisions of a session with it: what a login's answer means, how
//! long a token is valid, and which subjects the portal knows by which name.

pub mod api;
pub mod auth;
pub mod bakalari;
pub mod calendar;
pub mod config;
pub mod dom;
pub mod json;
pub mod text;
pub mod timetable;

pub use bakalari::{Bakalari, RequestError};
pub use timetable::lesson::Lesson;
pub use timetable::{RawType, Timetable, Type, Which};
