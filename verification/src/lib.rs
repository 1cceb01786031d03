//! Verified core of a small collaboration service: channels with threads and
//! append-only posts, a kanban of issues with an event history, versioned
//! artifacts, users with subscriptions and a per-thread unread feed.
//!
//! The database and the HTTP layer live outside this crate; the library holds
//! the records, how they are written to and read back from table rows, the
//! decisions taken between queries, and the laws that tie them together.

pub mod ids;
pub mod time;
pub mod error;
pub mod status;
pub mod records;
pub mod codec;
pub mod issues;
pub mod feed;
pub mod migrate;
pub mod store;
