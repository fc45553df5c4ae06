//! Tables backed by the actions of an Open Connector gateway.
pub mod action_registry;
pub mod arrow_batch;
pub mod config;
pub mod error;
pub mod json_to_arrow;
pub mod packs;
pub mod pagination;
pub mod row_path;
pub mod source_pack;
pub mod table;
