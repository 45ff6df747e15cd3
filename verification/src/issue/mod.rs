//! The issue browser: its records, pages, widgets and key handling.

pub mod actions;
pub mod browser;
pub mod groups;
pub mod model;
pub mod spans;
pub mod state;
pub mod update;
pub mod widgets;
