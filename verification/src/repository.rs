//! Locating and opening a repository.

use vstd::prelude::*;
use vstd::string::StringExecFns;
use crate::error::ConfigError;

verus! {

/// An open repository of the underlying git library.
#[verifier::external_type_specification]
#[verifier::external_body]
pub struct ExRepository(git2::Repository);

/// Where a repository lies on disk.
#[derive(Clone, Debug)]
pub struct RepoPath {
    /// Path of the repository, or of a directory below its work tree.
    pub path: String,
}

impl RepoPath {
    /// The path handed to the git library when the repository is opened.
    pub fn gitpath(&self) -> (p: &str)
        ensures
            p@ == self.path@,
    {
        self.path.as_str()
    }
}

impl<'a> From<&'a str> for RepoPath {
    /// The repository path made of the characters of `p`.
    fn from(p: &'a str) -> (r: RepoPath)
        ensures
            r.path@ == p@,
    {
        RepoPath { path: String::from_str(p) }
    }
}

/// A path cannot be built in specifications, so the conversion is described
/// by the `ensures` of `from` and not by `from_spec`.
impl<'a> vstd::std_specs::convert::FromSpecImpl<&'a str> for RepoPath {
    open spec fn obeys_from_spec() -> bool {
        false
    }

    open spec fn from_spec(p: &'a str) -> RepoPath {
        arbitrary()
    }
}

/// Calls `git2::Repository::open_ext` on `path` with no flags and no ceiling
/// directories. Whether a repository is found depends on what is on disk, so
/// nothing is claimed of the result.
#[verifier::external_body]
fn open_repository(path: &str) -> (r: Result<git2::Repository, git2::Error>) {
    git2::Repository::open_ext(
        path,
        git2::RepositoryOpenFlags::empty(),
        Vec::<&std::path::Path>::new(),
    )
}

/// Turns what the git library returned for an opening into the library's
/// own result: an opened repository is passed on, and a failure becomes the
/// store-access error that carries it.
pub fn repo_of_opening(outcome: Result<git2::Repository, git2::Error>) -> (r: Result<
    git2::Repository,
    ConfigError,
>)
    ensures
        match outcome {
            Ok(repository) => r == Ok::<git2::Repository, ConfigError>(repository),
            Err(e) => r == Err::<git2::Repository, ConfigError>(ConfigError::StoreAccess(e)),
        },
{
    match outcome {
        Ok(repository) => Ok(repository),
        Err(e) => Err(ConfigError::StoreAccess(e)),
    }
}

/// Opens the repository at `repo_path`.
///
/// Fails only with [`ConfigError::StoreAccess`], carrying what the git library reported.
pub fn repo(repo_path: &RepoPath) -> (r: Result<git2::Repository, ConfigError>)
    ensures
        r matches Err(e) ==> e is StoreAccess,
{
    repo_of_opening(open_repository(repo_path.gitpath()))
}

} // verus!
