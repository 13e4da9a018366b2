//! Blog post metadata: views from an analytics backend, comments and
//! reactions from a federated social instance, merged into a time-expiring
//! cache that refreshes itself lazily on read.

pub mod args;
pub mod assoc;
pub mod blog;
pub mod clock;
pub mod errors;
pub mod fediverse;
pub mod laws;
pub mod session;
pub mod umami;
