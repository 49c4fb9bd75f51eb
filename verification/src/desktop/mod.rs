//! The pure parts of the desktop application's commands.

pub mod templates;
pub mod validation;
pub mod preview;
pub mod settings;
pub mod operations;
pub mod health;
pub mod backup;
pub mod exchange;
