pub mod error;
pub mod crypto;
pub mod user;
pub mod lifecycle;
pub mod jwt;
pub mod config;
pub mod greenlight;
pub mod websocket;
