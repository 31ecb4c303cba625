//! Automatic one-time-password submission for XIVLauncher: reading an authenticator
//! secret, building a TOTP generator from it, watching for a listening launcher,
//! and deciding the course of a run, apart from the system services it drives.
pub mod config;
pub mod generator;
pub mod monitor;
pub mod secret;
pub mod secret_store;
pub mod session;
pub mod text;
pub mod urls;
pub mod xl_send;

pub use secret::OtpSecret;
