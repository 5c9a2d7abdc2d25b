//! The two typed settings: what their stored values mean, and how each is
//! resolved for a repository.

use vstd::prelude::*;
use vstd::string::{StringExecFns, StringSliceAdditionalSpecFns};
use vstd::utf8::{encode_utf8, encode_utf8_decode_utf8};
use crate::error::ConfigError;
use crate::repository::{repo, RepoPath};
use crate::store::{get_config_string_repo, text_of};

verus! {

/// State of the `status.showUntrackedFiles` setting.
#[derive(Hash, Copy, Clone, PartialEq, Eq, Structural, Debug)]
pub enum ShowUntrackedFilesConfig {
    /// Show no untracked files.
    No,
    /// Show untracked files and directories, without descending into the latter.
    Normal,
    /// Show every untracked file, also those inside untracked directories.
    All,
}

impl Default for ShowUntrackedFilesConfig {
    /// The mode that applies when the store holds no usable setting.
    fn default() -> (r: Self)
        ensures
            r == ShowUntrackedFilesConfig::All,
    {
        ShowUntrackedFilesConfig::All
    }
}

impl ShowUntrackedFilesConfig {
    /// Whether untracked files are left out altogether.
    pub fn include_none(self) -> (r: bool)
        ensures
            r <==> self == ShowUntrackedFilesConfig::No,
    {
        matches!(self, ShowUntrackedFilesConfig::No)
    }

    /// Whether untracked files are reported at all.
    pub fn include_untracked(self) -> (r: bool)
        ensures
            r <==> (self == ShowUntrackedFilesConfig::Normal || self
                == ShowUntrackedFilesConfig::All),
    {
        matches!(self, ShowUntrackedFilesConfig::Normal | ShowUntrackedFilesConfig::All)
    }

    /// Whether untracked directories are descended into.
    pub fn recurse_untracked_dirs(self) -> (r: bool)
        ensures
            r <==> self == ShowUntrackedFilesConfig::All,
    {
        matches!(self, ShowUntrackedFilesConfig::All)
    }
}

/// Whether two strings hold the same characters, decided on their bytes:
/// the UTF-8 encoding can be decoded again, so equal bytes mean equal text.
fn same_text(a: &str, b: &str) -> (r: bool)
    ensures
        r == (a@ == b@),
{
    let x = a.as_bytes();
    let y = b.as_bytes();
    if x.len() != y.len() {
        return false;
    }
    let mut i: usize = 0;
    while i < x.len()
        invariant
            i <= x.len(),
            x.len() == y.len(),
            x@ == encode_utf8(a@),
            y@ == encode_utf8(b@),
            forall|j: int| 0 <= j < i ==> x@[j] == y@[j],
        decreases x.len() - i,
    {
        if x[i] != y[i] {
            return false;
        }
        i += 1;
    }
    proof {
        assert(x@ =~= y@);
        encode_utf8_decode_utf8(a@);
        encode_utf8_decode_utf8(b@);
    }
    true
}

/// The mode that a stored value of `status.showUntrackedFiles` stands for:
/// `no` and `normal` name their modes, and every other value, like a missing
/// one, gives [`ShowUntrackedFilesConfig::All`].
pub open spec fn untracked_files_mode_of(value: Option<Seq<char>>) -> ShowUntrackedFilesConfig {
    match value {
        Some(s) => if s == "no"@ {
            ShowUntrackedFilesConfig::No
        } else if s == "normal"@ {
            ShowUntrackedFilesConfig::Normal
        } else {
            ShowUntrackedFilesConfig::All
        },
        None => ShowUntrackedFilesConfig::All,
    }
}

/// Gives the untracked-files mode for what the store holds under
/// `status.showUntrackedFiles`. This never fails: a value that names no mode
/// is treated like a missing one.
pub fn untracked_files_from_value(value: &Option<String>) -> (r: ShowUntrackedFilesConfig)
    ensures
        r == untracked_files_mode_of(text_of(*value)),
{
    match value {
        Some(s) => {
            if same_text(s.as_str(), "no") {
                ShowUntrackedFilesConfig::No
            } else if same_text(s.as_str(), "normal") {
                ShowUntrackedFilesConfig::Normal
            } else {
                ShowUntrackedFilesConfig::All
            }
        },
        None => ShowUntrackedFilesConfig::All,
    }
}

/// State of the `push.default` setting.
#[derive(Copy, Clone, PartialEq, Eq, Structural, Debug)]
pub enum PushDefaultStrategyConfig {
    /// Push nothing unless a refspec is given.
    Nothing,
    /// Push the current branch to a branch of the same name.
    Current,
    /// Push the current branch to its upstream branch.
    Upstream,
    /// Like `Upstream`, but refuse when the names differ.
    Simple,
    /// Push all branches that have the same name on both ends.
    Matching,
}

impl Default for PushDefaultStrategyConfig {
    /// The strategy that applies when the store holds no setting.
    fn default() -> (r: Self)
        ensures
            r == PushDefaultStrategyConfig::Simple,
    {
        PushDefaultStrategyConfig::Simple
    }
}

/// The strategy that a token of `push.default` names, if any. The match is
/// exact and case-sensitive; `tracking` is an older name for `upstream`.
pub open spec fn push_strategy_of(token: Seq<char>) -> Option<PushDefaultStrategyConfig> {
    if token == "nothing"@ {
        Some(PushDefaultStrategyConfig::Nothing)
    } else if token == "current"@ {
        Some(PushDefaultStrategyConfig::Current)
    } else if token == "upstream"@ || token == "tracking"@ {
        Some(PushDefaultStrategyConfig::Upstream)
    } else if token == "simple"@ {
        Some(PushDefaultStrategyConfig::Simple)
    } else if token == "matching"@ {
        Some(PushDefaultStrategyConfig::Matching)
    } else {
        None
    }
}

/// The message of the error for a token that names no push strategy: it
/// holds the token and lists every token that names one.
pub open spec fn malformed_push_default_message(token: Seq<char>) -> Seq<char> {
    "malformed value for push.default: "@ + token
        + ", must be one of nothing, current, upstream, tracking, simple or matching"@
}

/// What resolving a present `push.default` token must give: the strategy it
/// names, or else the malformed-value error with its message.
pub open spec fn parsed_push_strategy(
    token: Seq<char>,
    r: Result<PushDefaultStrategyConfig, ConfigError>,
) -> bool {
    match push_strategy_of(token) {
        Some(strategy) => r == Ok::<PushDefaultStrategyConfig, ConfigError>(strategy),
        None => r matches Err(ConfigError::MalformedValue(message)) && message@
            == malformed_push_default_message(token),
    }
}

impl<'a> TryFrom<&'a str> for PushDefaultStrategyConfig {
    type Error = ConfigError;

    /// Parses a token of `push.default`. A token that names no strategy is an
    /// error, never a default.
    fn try_from(value: &'a str) -> (r: Result<Self, ConfigError>)
        ensures
            parsed_push_strategy(value@, r),
    {
        if same_text(value, "nothing") {
            Ok(PushDefaultStrategyConfig::Nothing)
        } else if same_text(value, "current") {
            Ok(PushDefaultStrategyConfig::Current)
        } else if same_text(value, "upstream") || same_text(value, "tracking") {
            Ok(PushDefaultStrategyConfig::Upstream)
        } else if same_text(value, "simple") {
            Ok(PushDefaultStrategyConfig::Simple)
        } else if same_text(value, "matching") {
            Ok(PushDefaultStrategyConfig::Matching)
        } else {
            let mut message = String::from_str("malformed value for push.default: ");
            message.append(value);
            message.append(
                ", must be one of nothing, current, upstream, tracking, simple or matching",
            );
            Err(ConfigError::MalformedValue(message))
        }
    }
}

/// An error's message cannot be built in specifications, so the conversion
/// is described by the `ensures` of `try_from` and not by `try_from_spec`.
impl<'a> vstd::std_specs::convert::TryFromSpecImpl<&'a str> for PushDefaultStrategyConfig {
    open spec fn obeys_try_from_spec() -> bool {
        false
    }

    open spec fn try_from_spec(value: &'a str) -> Result<Self, ConfigError> {
        arbitrary()
    }
}

/// Gives the push strategy for what the store holds under `push.default`:
/// [`PushDefaultStrategyConfig::Simple`] when it holds nothing, and otherwise
/// what parsing the token gives.
pub fn push_default_strategy_from_value(value: &Option<String>) -> (r: Result<
    PushDefaultStrategyConfig,
    ConfigError,
>)
    ensures
        match *value {
            Some(token) => parsed_push_strategy(token@, r),
            None => r == Ok::<PushDefaultStrategyConfig, ConfigError>(
                PushDefaultStrategyConfig::Simple,
            ),
        },
{
    match value {
        Some(token) => PushDefaultStrategyConfig::try_from(token.as_str()),
        None => Ok(PushDefaultStrategyConfig::default()),
    }
}

/// Gives the untracked-files mode for what the reader returned: its failure
/// is handed on unchanged, and every value it found, or none, gives the mode
/// that [`untracked_files_from_value`] gives.
pub fn untracked_files_from_lookup(lookup: Result<Option<String>, ConfigError>) -> (r: Result<
    ShowUntrackedFilesConfig,
    ConfigError,
>)
    ensures
        match lookup {
            Ok(value) => r == Ok::<ShowUntrackedFilesConfig, ConfigError>(
                untracked_files_mode_of(text_of(value)),
            ),
            Err(e) => r == Err::<ShowUntrackedFilesConfig, ConfigError>(e),
        },
{
    match lookup {
        Ok(value) => Ok(untracked_files_from_value(&value)),
        Err(e) => Err(e),
    }
}

/// Gives the push strategy for what the reader returned: its failure is
/// handed on unchanged, and what it found is resolved as
/// [`push_default_strategy_from_value`] does.
pub fn push_default_strategy_from_lookup(lookup: Result<Option<String>, ConfigError>) -> (r:
    Result<PushDefaultStrategyConfig, ConfigError>)
    ensures
        match lookup {
            Ok(Some(token)) => parsed_push_strategy(token@, r),
            Ok(None) => r == Ok::<PushDefaultStrategyConfig, ConfigError>(
                PushDefaultStrategyConfig::Simple,
            ),
            Err(e) => r == Err::<PushDefaultStrategyConfig, ConfigError>(e),
        },
{
    match lookup {
        Ok(value) => push_default_strategy_from_value(&value),
        Err(e) => Err(e),
    }
}

/// The key under which the store holds the untracked-files setting.
pub fn untracked_files_key() -> (k: &'static str)
    ensures
        k@ == "status.showUntrackedFiles"@,
{
    "status.showUntrackedFiles"
}

/// The key under which the store holds the default push strategy.
pub fn push_default_key() -> (k: &'static str)
    ensures
        k@ == "push.default"@,
{
    "push.default"
}

/// Resolves `status.showUntrackedFiles` for an open repository. Whatever the
/// store holds under the key, the only failure is that the store cannot be
/// opened.
pub fn untracked_files_config_repo(repo: &git2::Repository) -> (r: Result<
    ShowUntrackedFilesConfig,
    ConfigError,
>)
    ensures
        r matches Err(e) ==> e is StoreAccess,
{
    untracked_files_from_lookup(get_config_string_repo(repo, untracked_files_key()))
}

/// Resolves `status.showUntrackedFiles` for what opening a repository gave:
/// a failed opening is handed on unchanged, and an opened repository is
/// resolved, which fails only where its store cannot be opened.
pub fn untracked_files_of_opened(opened: Result<git2::Repository, ConfigError>) -> (r: Result<
    ShowUntrackedFilesConfig,
    ConfigError,
>)
    ensures
        opened matches Err(e) ==> r == Err::<ShowUntrackedFilesConfig, ConfigError>(e),
        opened is Ok ==> (r matches Err(e) ==> e is StoreAccess),
{
    match opened {
        Ok(repository) => untracked_files_config_repo(&repository),
        Err(e) => Err(e),
    }
}

/// Resolves `status.showUntrackedFiles` for the repository at `repo_path`.
pub fn untracked_files_config(repo_path: &RepoPath) -> (r: Result<
    ShowUntrackedFilesConfig,
    ConfigError,
>)
    ensures
        r matches Err(e) ==> e is StoreAccess,
{
    untracked_files_of_opened(repo(repo_path))
}

/// Whether `e` is the malformed-value error of some token that names no
/// push strategy.
pub open spec fn is_malformed_push_default(e: ConfigError) -> bool {
    e matches ConfigError::MalformedValue(message) && exists|token: Seq<char>|
        push_strategy_of(token) is None && message@ == #[trigger] malformed_push_default_message(
            token,
        )
}

/// Resolves `push.default` for an open repository. It fails where the store
/// cannot be opened, or where the store holds a token that names no strategy.
pub fn push_default_strategy_config_repo(repo: &git2::Repository) -> (r: Result<
    PushDefaultStrategyConfig,
    ConfigError,
>)
    ensures
        r matches Err(e) ==> e is StoreAccess || is_malformed_push_default(e),
{
    push_default_strategy_from_lookup(get_config_string_repo(repo, push_default_key()))
}

/// Of the untracked-files setting, only the values `no` and `normal` are
/// told apart: every other value resolves to `All`, as a missing one does.
pub proof fn unrecognized_untracked_value_is_all(value: Seq<char>)
    requires
        value != "no"@,
        value != "normal"@,
    ensures
        untracked_files_mode_of(Some(value)) == ShowUntrackedFilesConfig::All,
        untracked_files_mode_of(Some(value)) == untracked_files_mode_of(None),
{
}

/// The two values that the untracked-files setting tells apart name the
/// modes `No` and `Normal`, and `all` names `All`.
pub proof fn untracked_values_name_their_modes()
    ensures
        untracked_files_mode_of(Some("no"@)) == ShowUntrackedFilesConfig::No,
        untracked_files_mode_of(Some("normal"@)) == ShowUntrackedFilesConfig::Normal,
        untracked_files_mode_of(Some("all"@)) == ShowUntrackedFilesConfig::All,
{
    reveal_strlit("no");
    reveal_strlit("normal");
    reveal_strlit("all");
    assert("no"@.len() == 2);
    assert("normal"@.len() == 6);
    assert("all"@.len() == 3);
}

/// Each token of `push.default` names its strategy, `upstream` and
/// `tracking` the same one.
pub proof fn push_tokens_name_their_strategies()
    ensures
        push_strategy_of("nothing"@) == Some(PushDefaultStrategyConfig::Nothing),
        push_strategy_of("current"@) == Some(PushDefaultStrategyConfig::Current),
        push_strategy_of("upstream"@) == Some(PushDefaultStrategyConfig::Upstream),
        push_strategy_of("tracking"@) == Some(PushDefaultStrategyConfig::Upstream),
        push_strategy_of("simple"@) == Some(PushDefaultStrategyConfig::Simple),
        push_strategy_of("matching"@) == Some(PushDefaultStrategyConfig::Matching),
{
    reveal_strlit("nothing");
    reveal_strlit("current");
    reveal_strlit("upstream");
    reveal_strlit("tracking");
    reveal_strlit("simple");
    reveal_strlit("matching");
    assert("nothing"@[0] == 'n');
    assert("current"@[0] == 'c');
    assert("upstream"@[0] == 'u');
    assert("tracking"@[0] == 't');
    assert("simple"@[0] == 's');
    assert("matching"@[0] == 'm');
}

/// Whether `needle` occurs in `text` as a run of consecutive characters.
pub open spec fn contains_text(text: Seq<char>, needle: Seq<char>) -> bool {
    exists|i: int|
        0 <= i && i + needle.len() <= text.len() && #[trigger] text.subrange(
            i,
            i + needle.len(),
        ) == needle
}

/// The message of a malformed-value error holds the offending token.
pub proof fn malformed_message_names_token(token: Seq<char>)
    ensures
        contains_text(malformed_push_default_message(token), token),
{
    let head = "malformed value for push.default: "@;
    let message = malformed_push_default_message(token);
    let start = head.len() as int;
    assert(message.subrange(start, start + token.len()) =~= token);
}

/// The message of a malformed-value error lists every token that names a
/// push strategy, whatever the offending token is.
pub proof fn malformed_message_lists_tokens(token: Seq<char>)
    ensures
        contains_text(malformed_push_default_message(token), "nothing"@),
        contains_text(malformed_push_default_message(token), "current"@),
        contains_text(malformed_push_default_message(token), "upstream"@),
        contains_text(malformed_push_default_message(token), "tracking"@),
        contains_text(malformed_push_default_message(token), "simple"@),
        contains_text(malformed_push_default_message(token), "matching"@),
{
    reveal_strlit("malformed value for push.default: ");
    reveal_strlit(", must be one of nothing, current, upstream, tracking, simple or matching");
    reveal_strlit("nothing");
    reveal_strlit("current");
    reveal_strlit("upstream");
    reveal_strlit("tracking");
    reveal_strlit("simple");
    reveal_strlit("matching");
    let message = malformed_push_default_message(token);
    let list = ("malformed value for push.default: "@.len() + token.len()) as int;
    assert(message.subrange(list + 17, list + 17 + "nothing"@.len() as int) =~= "nothing"@);
    assert(message.subrange(list + 26, list + 26 + "current"@.len() as int) =~= "current"@);
    assert(message.subrange(list + 35, list + 35 + "upstream"@.len() as int) =~= "upstream"@);
    assert(message.subrange(list + 45, list + 45 + "tracking"@.len() as int) =~= "tracking"@);
    assert(message.subrange(list + 55, list + 55 + "simple"@.len() as int) =~= "simple"@);
    assert(message.subrange(list + 65, list + 65 + "matching"@.len() as int) =~= "matching"@);
}

/// A token that names no push strategy is never resolved to a default: the
/// result is the malformed-value error, and its message holds the token.
pub proof fn unrecognized_push_token_is_an_error(
    token: Seq<char>,
    r: Result<PushDefaultStrategyConfig, ConfigError>,
)
    requires
        push_strategy_of(token) is None,
        parsed_push_strategy(token, r),
    ensures
        r matches Err(ConfigError::MalformedValue(message)) && contains_text(message@, token),
{
    malformed_message_names_token(token);
}

/// Resolving a token of `push.default` leaves no freedom: two results that
/// meet the contract for one token agree, in the strategy or in the error's
/// message.
pub proof fn push_resolution_is_determined(
    token: Seq<char>,
    first: Result<PushDefaultStrategyConfig, ConfigError>,
    second: Result<PushDefaultStrategyConfig, ConfigError>,
)
    requires
        parsed_push_strategy(token, first),
        parsed_push_strategy(token, second),
    ensures
        first is Ok <==> second is Ok,
        first is Ok ==> first == second,
        first matches Err(ConfigError::MalformedValue(a)) ==> (second matches Err(
            ConfigError::MalformedValue(b),
        ) && a@ == b@),
{
}

} // verus!
