//! Verified decision logic of a dynamically loaded sqlite3 binding.
pub mod code;
pub mod text;
pub mod error;
pub mod loader;
pub mod conn;
pub mod harness;
