//! The library's error type.

use vstd::prelude::*;

verus! {

/// The underlying git library's error, carried through unread.
#[verifier::external_type_specification]
#[verifier::external_body]
pub struct ExGitError(git2::Error);

/// What can go wrong when a setting is resolved.
#[derive(Debug)]
pub enum ConfigError {
    /// The repository or its configuration store could not be opened.
    StoreAccess(git2::Error),
    /// A setting is present but its value is not one the setting allows; the
    /// message names the value and the values that are allowed.
    MalformedValue(String),
}

} // verus!
