//! Launcher core: skill manifests, discovery, fuzzy search, the session
//! state machine and bounded capture of a child's output.

pub mod app;
pub mod config;
pub mod context;
pub mod i18n;
pub mod input;
pub mod search;
pub mod skills;
pub mod state;
pub mod text;
pub mod tips;
pub mod viewer;
