//! Verified core of a terminal dashboard for project management.
//!
//! The heart of it is the timeline: `timeline` maps dates to columns and
//! back under scrolling and zooming and centers the view on a date,
//! `zoom` holds the zoom levels, `bars` lays out the bar of a project,
//! and `widgets` works out what the timeline widget draws. Around it
//! stand the records of the service (`models`), the forms in which they
//! are edited (`forms`), the state of the application and what keys and
//! messages do to it (`app`, `keys`, `api`), and what the other views
//! show (`calendar`, `details`, `layout`, `radar`, `particles`, `theme`).
//! `dates` and `text` hold dates as day numbers and helpers on strings.
//!
//! Dates are read, written and taken apart by `chrono`, identifiers are
//! written by `uuid`; the library reaches both through a few functions
//! whose contracts are taken on trust and say so.

pub mod api;
pub mod app;
pub mod bars;
pub mod calendar;
pub mod dates;
pub mod details;
pub mod forms;
pub mod keys;
pub mod layout;
pub mod models;
pub mod particles;
pub mod radar;
pub mod text;
pub mod theme;
pub mod timeline;
pub mod widgets;
pub mod zoom;
