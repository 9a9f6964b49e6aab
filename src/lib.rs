//! Finds version-controlled working directories beneath a root that hold
//! uncommitted modifications.
//!
//! The library holds the decisions: which strategy a command line selects,
//! which walked entries are repository markers, how a marker's directory is
//! displayed, how each strategy decides from what the version-control store
//! reports, and how a run's findings become output lines and an exit code.

pub mod args;
pub mod driver;
pub mod kind;
pub mod path;
pub mod policy;
mod store;
pub mod strategy;
mod text;

pub use args::{Args, UsageError};
pub use driver::{Action, Tally};
pub use kind::{InvalidKind, SearchKind};
pub use path::{display_name, format_dir_entry, is_git};
pub use policy::{DiffPolicy, StatusPolicy};
pub use strategy::{has_modifications, mods, mods_by_status, mods_with_index, CheckError};
