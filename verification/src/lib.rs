//! Keeps a Codex installation that was built from a source checkout up to date.

pub mod agent;
pub mod attempt;
pub mod attempt_laws;
pub mod checkout;
pub mod command;
pub mod disk;
pub mod failure;
pub mod install_laws;
pub mod install_steps;
pub mod installer;
pub mod io;
pub mod json;
pub mod layout;
pub mod lock;
pub mod logs_recovery;
pub mod notice;
pub mod os_text;
pub mod package;
pub mod packaging;
pub mod path;
pub mod readiness;
pub mod retention;
pub mod source_update;
pub mod staging;
pub mod state_init;
pub mod state_tasks;
pub mod symlink;
pub mod text;
pub mod transport;
pub mod update_action;
pub mod version;
