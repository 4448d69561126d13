//! Verified core of a school-timetable cancellation notifier.
//!
//! The library decides when to announce cancellations (time-window and
//! sleep policies), cross-references timetable entries against subject
//! and teacher tables to compose the announcement text, and builds the
//! JSON-RPC requests that a thin unverified shell sends over HTTP.

pub mod decode;
pub mod message;
pub mod model;
pub mod policy;
pub mod rpc;
pub mod run;
pub mod text;

pub use policy::Announcement;
