//! Monitor for a single multiplayer game server: poll the public server
//! list, pick the watched server, resolve its map and mode, plan the status
//! image, and track how stale the last poll attempt is.

pub mod decimal;
pub mod driver;
pub mod liveness;
pub mod matcher;
pub mod model;
pub mod poll;
pub mod render;
pub mod strutil;
pub mod tables;
