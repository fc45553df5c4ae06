//! What the library's operations are for, stated of their inputs and results.
pub mod access;
pub mod calls;
pub mod connectors;
pub mod conversion;
pub mod logs;
pub mod messages;
pub mod packs;
pub mod paging;
pub mod paths;
pub mod queries;
pub mod registering;
pub mod replies;
pub mod sources;
pub mod starting;
pub mod substitution;
pub mod texts;
