//! The server's decisions: what is logged, who may ask, and what a request
//! may say.
pub mod auth;
pub mod config;
pub mod config_error;
pub mod data_source;
pub mod location;
pub mod logging;
pub mod pipeline_handlers;
pub mod query_audit;
pub mod query_handlers;
pub mod registration;
pub mod response;
pub mod semantics;
pub mod sql_params;
pub mod startup;
