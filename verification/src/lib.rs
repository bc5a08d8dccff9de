//! Decision logic of a desktop companion that follows Cohub conversations.
pub mod api;
pub mod auth;
pub mod errors;
pub mod events;
pub mod json;
pub mod laws;
pub mod settings;
pub mod signal;
pub mod subscription;
pub mod table;
pub mod text;
pub mod ui;
