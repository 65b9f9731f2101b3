//! Live-session engine for a real-time meeting assistant.

pub mod ai;
pub mod capture;
mod clock;
pub mod config;
pub mod integrations;
pub mod json;
pub mod session;
pub mod text;
