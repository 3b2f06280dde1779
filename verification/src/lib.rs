//! A pre-commit safety check for git submodules.
//!
//! The crate resolves the hook's settings from their layered sources,
//! inspects the submodules of a repository, decides whether the operator has
//! to confirm the commit, and maps the way a run ended to an exit code.

pub mod check_submodules;
pub mod config;
pub mod confirmation;
pub mod outcome;
pub mod repository;
pub mod styling;
