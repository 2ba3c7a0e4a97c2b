//! Focus-event pipeline of a desktop activity tracker: turns compositor focus
//! records into rate-limited heartbeats for a time-tracking sink.

pub mod backend;
pub mod clock;
pub mod config;
pub mod daemon;
pub mod domain;
pub mod focus;
pub mod heartbeat;
pub mod idle;
pub mod pattern;
pub mod text;
pub mod throttle;
pub mod wakatime;
