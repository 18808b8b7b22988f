//! The host a policy is compiled for.

use vstd::prelude::*;

verus! {

/// The operating systems a manifest can address by name.
#[derive(Clone, Copy, Debug, PartialEq, Eq, Structural)]
pub enum HostPlatform {
    MacOs,
    Linux,
    Windows,
}

impl HostPlatform {
    /// Whether paths on this platform are written in Windows syntax.
    pub open spec fn windows_paths(self) -> bool {
        self == HostPlatform::Windows
    }

    /// Whether paths on this platform are written in Windows syntax.
    pub fn uses_windows_paths(&self) -> (windows: bool)
        ensures
            windows == self.windows_paths(),
    {
        match self {
            HostPlatform::Windows => true,
            HostPlatform::MacOs => false,
            HostPlatform::Linux => false,
        }
    }
}

/// What the caller knows about the host and the plugin instance. It is read,
/// never changed, while one policy is compiled.
#[derive(Clone, Debug, PartialEq, Eq)]
pub struct HostContext {
    pub home_dir: String,
    pub plugin_data_dir: String,
    pub plugin_cache_dir: String,
    pub current_platform: HostPlatform,
}

/// A `HostContext` with its directories as character sequences.
pub struct HostContextView {
    pub home_dir: Seq<char>,
    pub plugin_data_dir: Seq<char>,
    pub plugin_cache_dir: Seq<char>,
    pub current_platform: HostPlatform,
}

impl View for HostContext {
    type V = HostContextView;

    open spec fn view(&self) -> HostContextView {
        HostContextView {
            home_dir: self.home_dir@,
            plugin_data_dir: self.plugin_data_dir@,
            plugin_cache_dir: self.plugin_cache_dir@,
            current_platform: self.current_platform,
        }
    }
}

} // verus!
