//! Verified core of a game-controller to keyboard mapper: key-name parsing,
//! the per-frame press/release engine, profile bookkeeping, icon-file
//! parsing and the decisions around the Windows task scheduler.
pub mod admin;
pub mod autostart;
pub mod battery;
pub mod engine;
pub mod icon;
pub mod keys;
pub mod profile;
pub mod text;
pub mod ui;
