//! From a manifest's path entry to a path on this host.

use vstd::prelude::*;
use vstd::string::StringExecFns;
use crate::error::{ConfigError, ConfigErrorView};
use crate::platform::{HostContext, HostContextView};
use crate::variable::{
    first_variable, known_variable, token_text, KnownVariable, PathResolver, VariableSplit,
};

verus! {

/// What becomes of one path entry: the path it grants on this host, or `None`
/// where the entry is meant for another platform.
pub type ResolvedPath = Option<String>;

/// Whether `typed_path` takes a path to be written in Windows syntax rather
/// than in that of Unix.
pub uninterp spec fn windows_syntax(path: Seq<char>) -> bool;

/// `typed_path::Utf8TypedPath::derive`: which of the two syntaxes a path is
/// taken to be written in.
#[verifier::external_body]
fn derive_windows_syntax(path: &str) -> (windows: bool)
    ensures
        windows == windows_syntax(path@),
{
    match typed_path::Utf8TypedPath::derive(path) {
        typed_path::Utf8TypedPath::Unix(_) => false,
        typed_path::Utf8TypedPath::Windows(_) => true,
    }
}

/// The directory that stands in for a variable on this host, or `None` where
/// the variable belongs to another platform.
pub open spec fn replacement(variable: KnownVariable, ctx: HostContextView) -> Option<Seq<char>> {
    match variable {
        KnownVariable::UserHome(platform) => if platform == ctx.current_platform {
            Some(ctx.home_dir)
        } else {
            None
        },
        KnownVariable::PluginData => Some(ctx.plugin_data_dir),
        KnownVariable::PluginCache => Some(ctx.plugin_cache_dir),
    }
}

/// What becomes of an entry that holds a variable token, given the entry cut
/// at that token: an unknown variable is an error, a variable of another
/// platform leaves nothing, and any other gives way to its directory.
pub open spec fn substituted(
    split: (Seq<char>, Seq<char>, Seq<char>, Seq<char>),
    entry: Seq<char>,
    ctx: HostContextView,
) -> Result<Option<Seq<char>>, ConfigErrorView> {
    match known_variable(split.1, split.2) {
        None => Err(ConfigErrorView::UnknownPermissionVariable { entry }),
        Some(variable) => match replacement(variable, ctx) {
            None => Ok(None),
            Some(directory) => Ok(Some(split.0 + directory + split.3)),
        },
    }
}

/// What becomes of an entry without a variable token, given the syntax it is
/// written in: it stays as it is on a host of that syntax, and leaves nothing
/// on any other.
pub open spec fn kept_by_syntax(windows: bool, entry: Seq<char>, ctx: HostContextView) -> Result<
    Option<Seq<char>>,
    ConfigErrorView,
> {
    if windows == ctx.current_platform.windows_paths() {
        Ok(Some(entry))
    } else {
        Ok(None)
    }
}

/// What becomes of a path entry on a host.
pub open spec fn resolved(entry: Seq<char>, ctx: HostContextView) -> Result<Option<Seq<char>>, ConfigErrorView> {
    match first_variable(entry) {
        Some(split) => substituted(split, entry, ctx),
        None => kept_by_syntax(windows_syntax(entry), entry, ctx),
    }
}

/// An outcome with its texts as character sequences.
pub open spec fn outcome_view(outcome: Result<ResolvedPath, ConfigError>) -> Result<
    Option<Seq<char>>,
    ConfigErrorView,
> {
    match outcome {
        Ok(Some(path)) => Ok(Some(path@)),
        Ok(None) => Ok(None),
        Err(error) => Err(error@),
    }
}

/// Puts the directory of the host in the place of an entry's variable token.
pub fn substitute(split: VariableSplit, entry: &str, ctx: &HostContext) -> (outcome: Result<
    ResolvedPath,
    ConfigError,
>)
    ensures
        outcome_view(outcome) == substituted(split@, entry@, ctx@),
{
    match split.variable.known() {
        None => Err(ConfigError::UnknownPermissionVariable { entry: String::from_str(entry) }),
        Some(variable) => {
            let directory = match variable {
                KnownVariable::UserHome(platform) => if platform == ctx.current_platform {
                    Some(&ctx.home_dir)
                } else {
                    None
                },
                KnownVariable::PluginData => Some(&ctx.plugin_data_dir),
                KnownVariable::PluginCache => Some(&ctx.plugin_cache_dir),
            };
            match directory {
                None => Ok(None),
                Some(directory) => {
                    let mut path = split.before;
                    path.append(directory.as_str());
                    path.append(split.after.as_str());
                    Ok(Some(path))
                },
            }
        },
    }
}

/// Keeps an entry without a variable token where it is written in the syntax of
/// the host's paths.
pub fn keep_by_syntax(windows: bool, entry: &str, ctx: &HostContext) -> (outcome: Result<
    ResolvedPath,
    ConfigError,
>)
    ensures
        outcome_view(outcome) == kept_by_syntax(windows, entry@, ctx@),
{
    if windows == ctx.current_platform.uses_windows_paths() {
        Ok(Some(String::from_str(entry)))
    } else {
        Ok(None)
    }
}

impl PathResolver {
    /// Resolves one path entry of a manifest for the host. Where the entry
    /// holds a variable token, the path is the entry with the token's
    /// directory in the token's place.
    pub fn augment_path(&self, path: &str, ctx: &HostContext) -> (outcome: Result<ResolvedPath, ConfigError>)
        ensures
            outcome_view(outcome) == resolved(path@, ctx@),
            first_variable(path@) matches Some(split) ==> path@ == split.0 + token_text(split.1, split.2)
                + split.3,
    {
        match self.find_variable(path) {
            Some(split) => substitute(split, path, ctx),
            None => keep_by_syntax(derive_windows_syntax(path), path, ctx),
        }
    }
}

} // verus!
