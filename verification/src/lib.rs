//! Building blocks of terminal applications: a typed state store, key
//! events, a grapheme-aware text editor model, bindings and actions, widgets
//! that say what is to be painted, and the applications made of them: an
//! issue browser and a dashboard. Beside them stand the pieces of the
//! commands around git: versions, arguments, proposals and remotes.
//!
//! Nothing here touches a terminal, a file or a process: the library works
//! on plain values and hands plain values back.

pub mod actions;
pub mod application;
pub mod bindings;
pub mod dashboard;
pub mod editor;
pub mod error;
pub mod events;
pub mod git;
pub mod issue;
pub mod layout;
pub mod paint;
pub mod proposal;
pub mod propose;
pub mod remote;
pub mod store;
pub mod template;
pub mod text;
pub mod theme;
pub mod window;
