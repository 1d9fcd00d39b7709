//! HTTP REST transport for the Animus daemon: the routes of `/api/v1/*`, the
//! JSON-RPC call each one makes over the daemon's control socket, and the
//! `{"ok": ..., "data"|"error": ...}` envelope each one answers with.

pub mod backend;
pub mod config;
pub mod control_client;
pub mod handlers;
pub mod json;
pub mod server;
pub mod text;
