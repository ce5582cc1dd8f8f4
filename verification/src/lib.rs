//! Domain model of the UA 571-C remote sentry operator console.
pub mod config;
pub mod demo;
pub mod draw;
pub mod fb;
pub mod fire;
pub mod fire_deny;
pub mod idle;
pub mod keys;
pub mod log;
pub mod options;
pub mod paint;
pub mod sentry;
pub mod session;
pub mod state;
pub mod text;
pub mod web;
pub mod tui;
pub mod pixel;
pub mod wav;
pub mod screen_text;
