//! Tracking of serialized media entries: scheduling of metadata re-checks,
//! change detection between metadata snapshots, and composition of
//! per-subscriber notification messages.

pub mod changes;
pub mod config;
pub mod dates;
pub mod episode;
pub mod html;
pub mod mime;
pub mod notify;
pub mod orchestrate;
pub mod parse;
pub mod paths;
pub mod schedule;
pub mod search;
pub mod series;
pub mod store;
pub mod text;
