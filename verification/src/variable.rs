//! Variable tokens in manifest paths.

use vstd::prelude::*;
use crate::platform::HostPlatform;
use crate::text::same_text;

verus! {

/// The pattern of a variable token: an opening brace, a namespace, a colon, a
/// name, a closing brace. Namespace and name are as short as they can be.
pub const VARIABLE_PATTERN: &'static str = "\\{(?<namespace>.+?):(?<name>.+?)}";

/// A compiled `regex::Regex`. Nothing is known of a value of it but what
/// [`compile_pattern`] and [`capture_variable`] state.
#[verifier::external_type_specification]
#[verifier::external_body]
pub struct ExRegex(regex::Regex);

/// A `{namespace:name}` token found in a path.
#[derive(Clone, Debug, PartialEq, Eq)]
pub struct PathVariable {
    pub namespace: String,
    pub name: String,
}

/// The variables that a manifest may use.
#[derive(Clone, Copy, Debug, PartialEq, Eq, Structural)]
pub enum KnownVariable {
    /// `{macos:user-home}`, `{linux:user-home}` or `{windows:user-home}`: the
    /// user's home directory, on that platform only.
    UserHome(HostPlatform),
    /// `{common:plugin-data}`: the plugin's data directory, on every platform.
    PluginData,
    /// `{common:plugin-cache}`: the plugin's cache directory, on every platform.
    PluginCache,
}

/// The variable that a namespace and a name stand for, if they stand for one.
pub open spec fn known_variable(namespace: Seq<char>, name: Seq<char>) -> Option<KnownVariable> {
    if namespace == "macos"@ && name == "user-home"@ {
        Some(KnownVariable::UserHome(HostPlatform::MacOs))
    } else if namespace == "linux"@ && name == "user-home"@ {
        Some(KnownVariable::UserHome(HostPlatform::Linux))
    } else if namespace == "windows"@ && name == "user-home"@ {
        Some(KnownVariable::UserHome(HostPlatform::Windows))
    } else if namespace == "common"@ && name == "plugin-data"@ {
        Some(KnownVariable::PluginData)
    } else if namespace == "common"@ && name == "plugin-cache"@ {
        Some(KnownVariable::PluginCache)
    } else {
        None
    }
}

impl PathVariable {
    /// The variable that the token stands for, if it stands for one.
    pub fn known(&self) -> (variable: Option<KnownVariable>)
        ensures
            variable == known_variable(self.namespace@, self.name@),
    {
        if same_text(self.namespace.as_str(), "macos") && same_text(self.name.as_str(), "user-home") {
            Some(KnownVariable::UserHome(HostPlatform::MacOs))
        } else if same_text(self.namespace.as_str(), "linux") && same_text(self.name.as_str(), "user-home") {
            Some(KnownVariable::UserHome(HostPlatform::Linux))
        } else if same_text(self.namespace.as_str(), "windows") && same_text(self.name.as_str(), "user-home") {
            Some(KnownVariable::UserHome(HostPlatform::Windows))
        } else if same_text(self.namespace.as_str(), "common") && same_text(self.name.as_str(), "plugin-data") {
            Some(KnownVariable::PluginData)
        } else if same_text(self.namespace.as_str(), "common") && same_text(self.name.as_str(), "plugin-cache") {
            Some(KnownVariable::PluginCache)
        } else {
            None
        }
    }
}

/// A path cut at its first variable token.
#[derive(Clone, Debug, PartialEq, Eq)]
pub struct VariableSplit {
    pub before: String,
    pub variable: PathVariable,
    pub after: String,
}

impl View for VariableSplit {
    type V = (Seq<char>, Seq<char>, Seq<char>, Seq<char>);

    open spec fn view(&self) -> (Seq<char>, Seq<char>, Seq<char>, Seq<char>) {
        (self.before@, self.variable.namespace@, self.variable.name@, self.after@)
    }
}

/// What the first match of [`VARIABLE_PATTERN`] in `entry` is: the text before
/// it, the namespace, the name and the text after it; `None` where nothing
/// matches.
pub uninterp spec fn first_variable(entry: Seq<char>) -> Option<(Seq<char>, Seq<char>, Seq<char>, Seq<char>)>;

/// The text of a token with the given namespace and name.
pub open spec fn token_text(namespace: Seq<char>, name: Seq<char>) -> Seq<char> {
    seq!['{'] + namespace + seq![':'] + name + seq!['}']
}

/// `regex::Regex::new`, which compiles a pattern and fails on one that is not
/// well formed. It is claimed of [`VARIABLE_PATTERN`] only, which is well
/// formed, and nothing is claimed of what comes out of it.
#[verifier::external_body]
fn compile_pattern(pattern: &str) -> (compiled: regex::Regex)
    requires
        pattern@ == VARIABLE_PATTERN@,
{
    regex::Regex::new(pattern).expect("invalid regex")
}

/// `regex::Regex::captures`, on a pattern that [`compile_pattern`] made, which
/// is the only way this library comes by one. It claims that the first match
/// in `entry` depends on `entry` alone, and that the pieces handed out are
/// what the pattern says: the text before the match, the namespace between
/// the opening brace and the colon, the name between the colon and the
/// closing brace, and the text after the match.
#[verifier::external_body]
fn capture_variable(pattern: &regex::Regex, entry: &str) -> (found: Option<VariableSplit>)
    ensures
        match found {
            Some(split) => first_variable(entry@) == Some(split@)
                && entry@ == split.before@ + token_text(split.variable.namespace@, split.variable.name@) + split.after@,
            None => first_variable(entry@) is None,
        },
{
    let captures = pattern.captures(entry)?;
    let token = captures.get_match();
    Some(VariableSplit {
        before: entry[..token.start()].to_owned(),
        variable: PathVariable {
            namespace: captures["namespace"].to_owned(),
            name: captures["name"].to_owned(),
        },
        after: entry[token.end()..].to_owned(),
    })
}

/// Finds variable tokens. It owns the compiled pattern, so that one value
/// serves every entry of a manifest.
pub struct PathResolver {
    pattern: regex::Regex,
}

impl PathResolver {
    /// Compiles the pattern of variable tokens, once for all the entries to
    /// come.
    pub fn new() -> Self {
        PathResolver { pattern: compile_pattern(VARIABLE_PATTERN) }
    }

    /// The first variable token of `entry`, with the text around it.
    pub fn find_variable(&self, entry: &str) -> (found: Option<VariableSplit>)
        ensures
            match found {
                Some(split) => first_variable(entry@) == Some(split@)
                    && entry@ == split.before@ + token_text(split.variable.namespace@, split.variable.name@) + split.after@,
                None => first_variable(entry@) is None,
            },
    {
        capture_variable(&self.pattern, entry)
    }
}

} // verus!
