//! The calls into `git2`. Nothing is proved of them: what a call returns
//! depends on what is on disk, so none of them promises anything about its
//! result, and the callers are verified for every value of it.

use std::path::PathBuf;
use vstd::prelude::*;

verus! {

#[verifier::external_type_specification]
#[verifier::external_body]
pub struct ExPathBuf(std::path::PathBuf);

#[verifier::external_type_specification]
#[verifier::external_body]
pub struct ExRepository(git2::Repository);

#[verifier::external_type_specification]
#[verifier::external_body]
pub struct ExSubmodule<'repo>(git2::Submodule<'repo>);

#[verifier::external_type_specification]
#[verifier::external_body]
pub struct ExSubmoduleStatus(git2::SubmoduleStatus);

#[verifier::external_type_specification]
#[verifier::external_body]
pub struct ExConfig(git2::Config);

#[verifier::external_type_specification]
#[verifier::external_body]
pub struct ExGitError(git2::Error);

/// `std::path::PathBuf::from`: the path that `text` spells.
#[verifier::external_body]
pub(crate) fn path_from(text: &str) -> (path: PathBuf) {
    PathBuf::from(text)
}

/// `git2::Repository::open`: the repository at `path`, or the error with
/// which it could not be opened.
#[verifier::external_body]
pub(crate) fn open_repository(path: &PathBuf) -> (opened: Result<
    git2::Repository,
    git2::Error,
>) {
    git2::Repository::open(path)
}

/// `git2::Repository::submodules`: the submodules of the repository, or the
/// error with which they could not be listed.
#[verifier::external_body]
pub(crate) fn list_submodules<'repo>(repo: &'repo git2::Repository) -> (listed: Result<
    Vec<git2::Submodule<'repo>>,
    git2::Error,
>) {
    repo.submodules()
}

/// `git2::Submodule::name`: the submodule's name, or the error that says
/// that the name is no valid text.
#[verifier::external_body]
pub(crate) fn submodule_name(submodule: &git2::Submodule<'_>) -> (name: Result<
    String,
    git2::Error,
>) {
    submodule.name().map(String::from)
}

/// `git2::Repository::submodule_status` under the ignore rule `None`, which
/// reports every change: the status of the submodule called `name`,
/// or the error with which the lookup failed.
#[verifier::external_body]
pub(crate) fn submodule_status(repo: &git2::Repository, name: &str) -> (status: Result<
    git2::SubmoduleStatus,
    git2::Error,
>) {
    repo.submodule_status(name, git2::SubmoduleIgnore::None)
}

/// `git2::SubmoduleStatus::is_wd_modified`: whether the status says that the
/// submodule's checked-out commit differs from the one in the index.
#[verifier::external_body]
pub(crate) fn status_is_wd_modified(status: &git2::SubmoduleStatus) -> (modified: bool) {
    status.is_wd_modified()
}

/// `git2::SubmoduleStatus::is_index_modified`: whether the status says that
/// the submodule's commit in the index differs from the one in `HEAD`.
#[verifier::external_body]
pub(crate) fn status_is_index_modified(status: &git2::SubmoduleStatus) -> (modified: bool) {
    status.is_index_modified()
}

/// `git2::Config::open_default`: the global, XDG and system configuration
/// as one store, or the error with which it could not be opened.
#[verifier::external_body]
pub(crate) fn open_default_config() -> (opened: Result<git2::Config, git2::Error>) {
    git2::Config::open_default()
}

/// `git2::Repository::config`: the configuration of the repository, or the
/// error with which it could not be read.
#[verifier::external_body]
pub(crate) fn repository_config(repo: &git2::Repository) -> (opened: Result<
    git2::Config,
    git2::Error,
>) {
    repo.config()
}

/// `git2::Config::get_string`: the text stored under `key`, or the error
/// that says that there is none or that it is no valid text.
#[verifier::external_body]
pub(crate) fn config_string(config: &git2::Config, key: &str) -> (text: Result<
    String,
    git2::Error,
>) {
    config.get_string(key)
}

} // verus!
