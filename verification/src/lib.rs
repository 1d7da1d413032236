//! Turns a schedule listing and its venue pages into calendar events.
//!
//! The crate holds the rules of the scraper: which parts of a page are read,
//! how a schedule line is taken apart, which entries a venue yields and what
//! the calendar of a venue contains. Fetching pages and writing files is left
//! to the caller, who is told what to do next by [`run::advance`].

pub mod calendar;
pub mod error;
pub mod html;
pub mod index;
pub mod pattern;
pub mod run;
pub mod text;
pub mod timestamp;
pub mod venue;
