//! The verified core of a SQL gateway: paginated connector tables, JSON to
//! columnar conversion, source packs, request policy and query parameters.
pub mod decimal;
pub mod json;
pub mod json_text;
pub mod laws;
pub mod open_connector;
pub mod order;
pub mod server;
pub mod text;
pub mod text_map;
