//! Storage of a single application database file: where the file lives on
//! each platform, and the two operations on it, export and replace, written
//! as resumable procedures that ask their host for every file-system step.

pub mod error;
pub mod host;
pub mod laws;
pub mod location;
pub mod model;
pub mod platform;
pub mod progress;
pub mod resolver;
pub mod store;
