//! The descriptors of the six categories.

use vstd::prelude::*;
use vstd::string::StringExecFns;
use crate::error::{Category, ConfigError, ConfigErrorView};
use crate::grant::Descriptor;

verus! {

/// A concrete path on the host, granted for reading or for writing.
#[derive(Clone, Debug, PartialEq, Eq)]
pub struct PathDescriptor {
    pub path: String,
}

impl View for PathDescriptor {
    type V = Seq<char>;

    open spec fn view(&self) -> Seq<char> {
        self.path@
    }
}

impl Descriptor for PathDescriptor {
    fn same(&self, other: &Self) -> (same: bool) {
        self.path == other.path
    }
}

/// A host, with the port where the grant is for one port only.
#[derive(Clone, Debug, PartialEq, Eq)]
pub struct NetDescriptor {
    pub host: String,
    pub port: Option<u32>,
}

impl View for NetDescriptor {
    type V = (Seq<char>, Option<u32>);

    open spec fn view(&self) -> (Seq<char>, Option<u32>) {
        (self.host@, self.port)
    }
}

/// What `deno_permissions` makes of a network entry: the host as it writes
/// hosts, and the port; `None` where it takes the entry for no host.
pub uninterp spec fn net_descriptor_of(entry: Seq<char>) -> Option<(Seq<char>, Option<u32>)>;

/// `deno_permissions::NetDescriptor::parse_for_query`, which reads `host` or
/// `host:port`, without wildcards for subdomains. The host is kept as the
/// crate prints it.
#[verifier::external_body]
fn parse_for_query(entry: &str) -> (parsed: Option<NetDescriptor>)
    ensures
        match parsed {
            Some(descriptor) => net_descriptor_of(entry@) == Some(descriptor@),
            None => net_descriptor_of(entry@) is None,
        },
{
    match deno_permissions::NetDescriptor::parse_for_query(entry) {
        Ok(deno_permissions::NetDescriptor(host, port)) => Some(
            NetDescriptor { host: deno_permissions::NetDescriptor(host, None).to_string(), port },
        ),
        Err(_) => None,
    }
}

/// What becomes of an entry that a parser has read: the descriptor, or the
/// error that the entry is none of its category.
pub open spec fn malformed_unless<T>(parsed: Option<T>, entry: Seq<char>, category: Category) -> Result<
    Option<T>,
    ConfigErrorView,
> {
    match parsed {
        Some(descriptor) => Ok(Some(descriptor)),
        None => Err(ConfigErrorView::MalformedDescriptor { entry, category }),
    }
}

/// The descriptor that a parser made of an entry, or the error that it made
/// none.
pub fn parsed_or_malformed<D>(parsed: Option<D>, entry: &str, category: Category) -> (outcome: Result<
    D,
    ConfigError,
>)
    ensures
        match parsed {
            Some(descriptor) => outcome == Ok::<D, ConfigError>(descriptor),
            None => outcome matches Err(error) && error@ == (ConfigErrorView::MalformedDescriptor {
                entry: entry@,
                category,
            }),
        },
{
    match parsed {
        Some(descriptor) => Ok(descriptor),
        None => Err(ConfigError::MalformedDescriptor { entry: String::from_str(entry), category }),
    }
}

impl NetDescriptor {
    /// What becomes of a network entry.
    pub open spec fn parsed(entry: Seq<char>) -> Result<Option<(Seq<char>, Option<u32>)>, ConfigErrorView> {
        malformed_unless(net_descriptor_of(entry), entry, Category::Network)
    }

    /// Reads a network entry, `host` or `host:port`.
    pub fn parse(entry: &str) -> (outcome: Result<NetDescriptor, ConfigError>)
        ensures
            match outcome {
                Ok(descriptor) => Self::parsed(entry@) == Ok::<_, ConfigErrorView>(Some(descriptor@)),
                Err(error) => Self::parsed(entry@) == Err::<Option<(Seq<char>, Option<u32>)>, _>(error@),
            },
    {
        parsed_or_malformed(parse_for_query(entry), entry, Category::Network)
    }
}

impl Descriptor for NetDescriptor {
    fn same(&self, other: &Self) -> (same: bool) {
        let same_port = match (self.port, other.port) {
            (Some(mine), Some(theirs)) => mine == theirs,
            (None, None) => true,
            _ => false,
        };
        same_port && self.host == other.host
    }
}

/// The name of an environment variable, as the manifest writes it.
#[derive(Clone, Debug, PartialEq, Eq)]
pub struct EnvDescriptor {
    pub name: String,
}

impl View for EnvDescriptor {
    type V = Seq<char>;

    open spec fn view(&self) -> Seq<char> {
        self.name@
    }
}

impl Descriptor for EnvDescriptor {
    fn same(&self, other: &Self) -> (same: bool) {
        self.name == other.name
    }
}

/// The name of a group of system calls.
#[derive(Clone, Debug, PartialEq, Eq)]
pub struct SysDescriptor {
    pub kind: String,
}

impl View for SysDescriptor {
    type V = Seq<char>;

    open spec fn view(&self) -> Seq<char> {
        self.kind@
    }
}

/// The names of the groups of system calls that `deno_permissions` knows.
pub open spec fn system_kind_listed(kind: Seq<char>) -> bool {
    ||| kind == "hostname"@
    ||| kind == "inspector"@
    ||| kind == "osRelease"@
    ||| kind == "osUptime"@
    ||| kind == "loadavg"@
    ||| kind == "networkInterfaces"@
    ||| kind == "systemMemoryInfo"@
    ||| kind == "uid"@
    ||| kind == "gid"@
    ||| kind == "cpus"@
    ||| kind == "homedir"@
    ||| kind == "getegid"@
    ||| kind == "statfs"@
    ||| kind == "getPriority"@
    ||| kind == "setPriority"@
    ||| kind == "userInfo"@
    ||| kind == "setegid"@
    ||| kind == "seteuid"@
    ||| kind == "setgid"@
    ||| kind == "setuid"@
    ||| kind == "ca"@
    ||| kind == "umask"@
}

/// The group that a system entry names: itself where it is listed, `userInfo`
/// for its older name `username`, and none for any other text.
pub open spec fn system_descriptor_of(kind: Seq<char>) -> Option<Seq<char>> {
    if system_kind_listed(kind) {
        Some(kind)
    } else if kind == "username"@ {
        Some("userInfo"@)
    } else {
        None
    }
}

/// `deno_permissions::SysDescriptor::parse`, which accepts the listed names as
/// they are, `username` as `userInfo`, and nothing else.
#[verifier::external_body]
fn parse_system_kind(kind: &str) -> (parsed: Option<SysDescriptor>)
    ensures
        match parsed {
            Some(descriptor) => system_descriptor_of(kind@) == Some(descriptor@),
            None => system_descriptor_of(kind@) is None,
        },
{
    match deno_permissions::SysDescriptor::parse(kind.to_owned()) {
        Ok(descriptor) => Some(SysDescriptor { kind: descriptor.into_string() }),
        Err(_) => None,
    }
}

impl SysDescriptor {
    /// What becomes of a system entry.
    pub open spec fn parsed(entry: Seq<char>) -> Result<Option<Seq<char>>, ConfigErrorView> {
        malformed_unless(system_descriptor_of(entry), entry, Category::System)
    }

    /// Reads a system entry, the name of a group of system calls.
    pub fn parse(entry: &str) -> (outcome: Result<SysDescriptor, ConfigError>)
        ensures
            match outcome {
                Ok(descriptor) => Self::parsed(entry@) == Ok::<_, ConfigErrorView>(Some(descriptor@)),
                Err(error) => Self::parsed(entry@) == Err::<Option<Seq<char>>, _>(error@),
            },
    {
        parsed_or_malformed(parse_system_kind(entry), entry, Category::System)
    }
}

impl Descriptor for SysDescriptor {
    fn same(&self, other: &Self) -> (same: bool) {
        self.kind == other.kind
    }
}

/// What a plugin may run: the program at a path, or the program that a bare
/// name stands for when it is looked up at the time of the call. The two are
/// never the same descriptor, whatever their texts.
#[derive(Clone, Debug, PartialEq, Eq)]
pub enum RunDescriptor {
    Path(String),
    Command(String),
}

/// A `RunDescriptor` with its text as a character sequence.
pub enum RunDescriptorView {
    Path(Seq<char>),
    Command(Seq<char>),
}

impl View for RunDescriptor {
    type V = RunDescriptorView;

    open spec fn view(&self) -> RunDescriptorView {
        match self {
            RunDescriptor::Path(path) => RunDescriptorView::Path(path@),
            RunDescriptor::Command(name) => RunDescriptorView::Command(name@),
        }
    }
}

impl Descriptor for RunDescriptor {
    fn same(&self, other: &Self) -> (same: bool) {
        match self {
            RunDescriptor::Path(mine) => match other {
                RunDescriptor::Path(theirs) => *mine == *theirs,
                RunDescriptor::Command(_) => false,
            },
            RunDescriptor::Command(mine) => match other {
                RunDescriptor::Path(_) => false,
                RunDescriptor::Command(theirs) => *mine == *theirs,
            },
        }
    }
}

} // verus!
