//! Core logic of the subtle window manager: geometry, styles, grabs, tags,
//! views, client modes, screen configuration and panel layout.
//!
//! Everything that talks to the X server lives outside this crate; the
//! functions here take the plain values that were read from the server or the
//! configuration and return the decisions and values to send back.

pub mod bits;
pub mod rect;
pub mod spacing;
pub mod config;
pub mod font;
pub mod style;
pub mod client;
pub mod pattern;
pub mod tag;
pub mod icon;
pub mod view;
pub mod panel;
pub mod screen;
pub mod ewmh;
pub mod toggle;
pub mod size;
pub mod gravity;
pub mod arrange;
pub mod tile;
pub mod text;
pub mod grab;
pub mod subtle;
pub mod event;
pub mod drag;
pub mod hints;
pub mod stacking;
pub mod lifecycle;
pub mod logger;
pub mod styles;
pub mod setup;
pub mod laws;
pub mod tray;
pub mod render;
pub mod xbm;
pub mod dispatch;
