//! Looking one key up in a repository's configuration store.

use vstd::prelude::*;
use crate::error::ConfigError;
use crate::repository::{repo, RepoPath};

verus! {

/// The configuration store of a repository, as the git library holds it.
#[verifier::external_type_specification]
#[verifier::external_body]
pub struct ExConfig(git2::Config);

/// One entry of a configuration store, as the git library holds it.
#[verifier::external_type_specification]
#[verifier::external_body]
pub struct ExConfigEntry<'cfg>(git2::ConfigEntry<'cfg>);

/// Whether an entry of the store carries a value: what
/// `git2::ConfigEntry::has_value` reports of it.
pub uninterp spec fn entry_has_value(entry: &git2::ConfigEntry) -> bool;

/// Calls `git2::Repository::config`, which opens the repository's layered
/// configuration. Whether that succeeds depends on what is on disk, so
/// nothing is claimed of the result.
#[verifier::external_body]
fn open_config(repo: &git2::Repository) -> (r: Result<git2::Config, git2::Error>) {
    repo.config()
}

/// Calls `git2::Config::get_entry`, which looks `key` up in the store. The
/// outcome depends on the store's contents, so nothing is claimed of it.
#[verifier::external_body]
fn lookup_entry<'cfg>(cfg: &'cfg git2::Config, key: &str) -> (r: Result<
    git2::ConfigEntry<'cfg>,
    git2::Error,
>) {
    cfg.get_entry(key)
}

/// Calls `git2::ConfigEntry::has_value`: the result is what
/// [`entry_has_value`] names.
#[verifier::external_body]
fn entry_carries_value(entry: &git2::ConfigEntry) -> (r: bool)
    ensures
        r == entry_has_value(entry),
{
    entry.has_value()
}

/// The text of the value that an entry carries: what
/// `git2::ConfigEntry::value` gives for it, `None` standing for its failure
/// on a value that is not valid UTF-8.
pub uninterp spec fn entry_value_text(entry: &git2::ConfigEntry) -> Option<Seq<char>>;

/// Calls `git2::ConfigEntry::value`, which panics on an entry without a
/// value; hence the precondition. It fails where the value is not valid
/// UTF-8. The result, copied into an owned string, is what
/// [`entry_value_text`] names.
#[verifier::external_body]
fn entry_text(entry: &git2::ConfigEntry) -> (r: Result<String, git2::Error>)
    requires
        entry_has_value(entry),
    ensures
        match r {
            Ok(text) => entry_value_text(entry) == Some(text@),
            Err(_) => entry_value_text(entry) is None,
        },
{
    entry.value().map(str::to_owned)
}

/// The characters of an optional string.
pub open spec fn text_of(value: Option<String>) -> Option<Seq<char>> {
    match value {
        Some(s) => Some(s@),
        None => None,
    }
}

/// What the store's accessor reports when one key is looked up.
#[derive(Debug)]
pub enum EntryState {
    /// The lookup itself failed. The store reports a key that is not set in
    /// this way too.
    LookupFailed,
    /// There is an entry for the key, without a value.
    NoValue,
    /// There is an entry with a value: its text, or `None` where the value
    /// cannot be read as text.
    Value(Option<String>),
}

/// The value that a lookup yields: the text of an entry that carries one,
/// and nothing in every other state.
pub open spec fn stored_value(state: EntryState) -> Option<String> {
    match state {
        EntryState::Value(text) => text,
        _ => None,
    }
}

/// Folds the states of a lookup into "a value" or "no value". A failed
/// lookup counts as no value: it is how the store reports a key that is not
/// set.
pub fn config_value(state: EntryState) -> (r: Option<String>)
    ensures
        r == stored_value(state),
{
    match state {
        EntryState::LookupFailed => None,
        EntryState::NoValue => None,
        EntryState::Value(text) => text,
    }
}

/// Whether `state` is the state of the found entry `entry`: an entry without
/// a value is in the state `NoValue`, and one with a value is in the state
/// `Value`, with the text of that value where it can be read.
pub open spec fn is_state_of_entry(state: EntryState, entry: &git2::ConfigEntry) -> bool {
    if entry_has_value(entry) {
        state matches EntryState::Value(text) && text_of(text) == entry_value_text(entry)
    } else {
        state is NoValue
    }
}

/// The state of an entry that a lookup found. The value is read only from
/// an entry that carries one; a value that is not valid UTF-8 counts as
/// unreadable.
fn entry_state(entry: &git2::ConfigEntry) -> (state: EntryState)
    ensures
        is_state_of_entry(state, entry),
{
    if entry_carries_value(entry) {
        match entry_text(entry) {
            Ok(text) => EntryState::Value(Some(text)),
            Err(_) => EntryState::Value(None),
        }
    } else {
        EntryState::NoValue
    }
}

/// The state that the outcome of a lookup stands for: a failed lookup is the
/// state `LookupFailed`, and a found entry is in the state that its value
/// gives it.
pub fn lookup_state(outcome: Result<git2::ConfigEntry, git2::Error>) -> (state: EntryState)
    ensures
        match outcome {
            Ok(entry) => is_state_of_entry(state, &entry),
            Err(_) => state is LookupFailed,
        },
{
    match outcome {
        Ok(entry) => entry_state(&entry),
        Err(_) => EntryState::LookupFailed,
    }
}

/// Looks `key` up in an open store and reports the state found. What the
/// store answers is not known beforehand; [`lookup_state`] says which state
/// each answer gives.
fn read_entry(cfg: &git2::Config, key: &str) -> (state: EntryState) {
    lookup_state(lookup_entry(cfg, key))
}

/// The text of the value that a found entry yields: that of its value, where
/// it has one that can be read, and nothing otherwise.
pub open spec fn entry_yield(entry: &git2::ConfigEntry) -> Option<Seq<char>> {
    if entry_has_value(entry) {
        entry_value_text(entry)
    } else {
        None
    }
}

/// What the reader returns for each outcome of a lookup: a found entry in
/// its state yields the text of its value, and a failed lookup yields
/// nothing.
pub proof fn value_of_lookup_state(state: EntryState, entry: &git2::ConfigEntry)
    ensures
        is_state_of_entry(state, entry) ==> text_of(stored_value(state)) == entry_yield(entry),
        state is LookupFailed ==> stored_value(state) is None,
{
}

/// Reads the value of `key` from what opening the store gave. A store that
/// failed to open is an error that carries the failure, never "no value";
/// from a store that opened, every outcome of the lookup is a success.
pub fn config_string_of_store(opened: Result<git2::Config, git2::Error>, key: &str) -> (r: Result<
    Option<String>,
    ConfigError,
>)
    ensures
        opened matches Err(e) ==> r == Err::<Option<String>, ConfigError>(
            ConfigError::StoreAccess(e),
        ),
        opened is Ok ==> r is Ok,
{
    match opened {
        Ok(cfg) => Ok(config_value(read_entry(&cfg, key))),
        Err(e) => Err(ConfigError::StoreAccess(e)),
    }
}

/// Reads the value of `key` from the configuration of an open repository.
///
/// A key that is not set, or set without a value, gives `Ok(None)`. The only
/// failure is that the store cannot be opened.
pub fn get_config_string_repo(repo: &git2::Repository, key: &str) -> (r: Result<
    Option<String>,
    ConfigError,
>)
    ensures
        r matches Err(e) ==> e is StoreAccess,
{
    config_string_of_store(open_config(repo), key)
}

/// Reads the value of `key` from what opening a repository gave: a failed
/// opening is handed on unchanged, and an opened repository is read, which
/// fails only where its store cannot be opened.
pub fn config_string_of_opened(opened: Result<git2::Repository, ConfigError>, key: &str) -> (r:
    Result<Option<String>, ConfigError>)
    ensures
        opened matches Err(e) ==> r == Err::<Option<String>, ConfigError>(e),
        opened is Ok ==> (r matches Err(e) ==> e is StoreAccess),
{
    match opened {
        Ok(repository) => get_config_string_repo(&repository, key),
        Err(e) => Err(e),
    }
}

/// Reads the value of `key` from the configuration of the repository at
/// `repo_path`. Fails only where the repository or its store cannot be
/// opened.
pub fn get_config_string(repo_path: &RepoPath, key: &str) -> (r: Result<
    Option<String>,
    ConfigError,
>)
    ensures
        r matches Err(e) ==> e is StoreAccess,
{
    config_string_of_opened(repo(repo_path), key)
}

} // verus!
