//! A daily shared "sign" game for chat guilds: the per-guild sign lifecycle,
//! the store contract that serialises concurrent requests, the interaction
//! router and the signed-webhook gateway.

pub mod chance;
pub mod clock;
pub mod commands;
pub mod config;
pub mod db;
pub mod discord;
pub mod discord_endpoint_server;
pub mod engine;
pub mod interaction;
pub mod platform;
pub mod signs;
pub mod text;
