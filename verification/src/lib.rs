//! Rule-based file organisation: rules, matching, dry-run planning and the
//! pure parts of configuration, storage and the desktop commands.

pub mod json;
pub mod text;
pub mod paths;
pub mod patterns;
pub mod rules;
pub mod matcher;
pub mod model;
pub mod engine;
pub mod hashing;
pub mod config;
pub mod storage;
pub mod desktop;
