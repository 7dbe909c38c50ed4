//! Aggregates the pull requests that need a viewer's attention on a code
//! host: the ones the viewer authored and the ones that request the
//! viewer's review, each annotated with CI health, review state and merge
//! blockers, and deduplicated by identity.
//!
//! The crate makes every decision and performs no I/O: a caller fetches the
//! pages that `aggregate::AttentionRun` asks for and hands them back.

pub mod calendar;
pub mod text;
pub mod timestamp;
pub mod model;
pub mod derive;
pub mod merge;
pub mod paginate;
pub mod aggregate;
pub mod todo;
pub mod session;
pub mod task;
