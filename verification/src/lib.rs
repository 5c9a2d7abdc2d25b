//! Typed access to a few settings of a git repository's configuration.
//!
//! The generic reader looks one key up in the repository's layered
//! configuration and folds what the store reports into "a value" or "no
//! value"; the two resolvers turn the values of `status.showUntrackedFiles`
//! and `push.default` into enums, each with its own policy for a missing or
//! unrecognised value.

pub mod config;
pub mod error;
pub mod repository;
pub mod store;

pub use config::{
    push_default_key, push_default_strategy_config_repo, push_default_strategy_from_lookup,
    push_default_strategy_from_value, untracked_files_config, untracked_files_config_repo,
    untracked_files_from_lookup, untracked_files_from_value, untracked_files_key,
    untracked_files_of_opened, PushDefaultStrategyConfig, ShowUntrackedFilesConfig,
};
pub use error::ConfigError;
pub use repository::{repo, repo_of_opening, RepoPath};
pub use store::{
    config_string_of_opened, config_string_of_store, config_value, get_config_string,
    get_config_string_repo, lookup_state, EntryState,
};
