//! Source packs that ship with the library.
pub mod feishu;
pub mod loader;
pub mod notion;
pub mod validate;
