//! Ingestion of live chat activity into a relational record: event
//! classification, channel and user onboarding, username history and the
//! write path that turns one chat event into committed rows.
pub mod channels;
pub mod classify;
pub mod config;
pub mod db;
pub mod messages;
pub mod models;
pub mod resubs;
pub mod users;
pub mod users_old_names;
pub mod watcher;
