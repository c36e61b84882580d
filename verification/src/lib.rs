//! Verified core of a tool that keeps chosen windows out of screen captures.
//!
//! The library builds the machine code that is injected into a target process,
//! decides each step of the injection, decodes the UTF-16 text that window
//! queries return, turns icon bitmaps into RGBA pixels, and keeps track of which
//! windows have already been handled.
pub mod payload;
pub mod text;
pub mod modules;
pub mod icon;
pub mod window;
pub mod injection;
pub mod tracker;
pub mod config;
pub mod tip;
pub mod picker;
