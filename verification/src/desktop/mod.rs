//! Decisions behind the desktop application's commands.
pub mod analytics;
pub mod settings;
pub mod security;
pub mod session;
pub mod audit_trail;
pub mod auth;
pub mod export;
pub mod backup;
pub mod admin;
