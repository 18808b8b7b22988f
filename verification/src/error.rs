//! Why a manifest is refused.

use vstd::prelude::*;
use vstd::string::StringExecFns;

verus! {

/// The six kinds of resource a manifest asks for.
#[derive(Clone, Copy, Debug, PartialEq, Eq, Structural)]
pub enum Category {
    FilesystemRead,
    FilesystemWrite,
    Network,
    Environment,
    System,
    Run,
}

/// A fault in a manifest. Each one ends the compilation: no policy is made
/// from a manifest that holds one.
#[derive(Clone, Debug, PartialEq, Eq)]
pub enum ConfigError {
    /// A path holds a `{namespace:name}` token that names no known variable.
    UnknownPermissionVariable { entry: String },
    /// An entry is not a descriptor of its category.
    MalformedDescriptor { entry: String, category: Category },
}

/// A `ConfigError` with its entry as a character sequence.
pub enum ConfigErrorView {
    UnknownPermissionVariable { entry: Seq<char> },
    MalformedDescriptor { entry: Seq<char>, category: Category },
}

impl View for ConfigError {
    type V = ConfigErrorView;

    open spec fn view(&self) -> ConfigErrorView {
        match self {
            ConfigError::UnknownPermissionVariable { entry } => ConfigErrorView::UnknownPermissionVariable {
                entry: entry@,
            },
            ConfigError::MalformedDescriptor { entry, category } => ConfigErrorView::MalformedDescriptor {
                entry: entry@,
                category: *category,
            },
        }
    }
}

impl ConfigErrorView {
    /// The manifest entry at fault.
    pub open spec fn entry(self) -> Seq<char> {
        match self {
            ConfigErrorView::UnknownPermissionVariable { entry } => entry,
            ConfigErrorView::MalformedDescriptor { entry, .. } => entry,
        }
    }

    /// What is said before the entry in the error's message.
    pub open spec fn preamble(self) -> Seq<char> {
        match self {
            ConfigErrorView::UnknownPermissionVariable { .. } =>
                "Trying to load plugin with unknown variable in path in manifest permissions: "@,
            ConfigErrorView::MalformedDescriptor { category, .. } => match category {
                Category::FilesystemRead =>
                    "Trying to load plugin with malformed filesystem read permission in manifest: "@,
                Category::FilesystemWrite =>
                    "Trying to load plugin with malformed filesystem write permission in manifest: "@,
                Category::Network => "Trying to load plugin with malformed network permission in manifest: "@,
                Category::Environment =>
                    "Trying to load plugin with malformed environment permission in manifest: "@,
                Category::System => "Trying to load plugin with malformed system permission in manifest: "@,
                Category::Run => "Trying to load plugin with malformed run permission in manifest: "@,
            },
        }
    }
}

impl ConfigError {
    /// The manifest entry at fault.
    pub fn entry(&self) -> (entry: &String)
        ensures
            entry@ == self@.entry(),
    {
        match self {
            ConfigError::UnknownPermissionVariable { entry } => entry,
            ConfigError::MalformedDescriptor { entry, .. } => entry,
        }
    }

    /// The error in words, ending in the entry at fault.
    pub fn message(&self) -> (text: String)
        ensures
            text@ == self@.preamble() + self@.entry(),
    {
        let preamble = match self {
            ConfigError::UnknownPermissionVariable { .. } =>
                "Trying to load plugin with unknown variable in path in manifest permissions: ",
            ConfigError::MalformedDescriptor { category, .. } => match category {
                Category::FilesystemRead =>
                    "Trying to load plugin with malformed filesystem read permission in manifest: ",
                Category::FilesystemWrite =>
                    "Trying to load plugin with malformed filesystem write permission in manifest: ",
                Category::Network => "Trying to load plugin with malformed network permission in manifest: ",
                Category::Environment =>
                    "Trying to load plugin with malformed environment permission in manifest: ",
                Category::System => "Trying to load plugin with malformed system permission in manifest: ",
                Category::Run => "Trying to load plugin with malformed run permission in manifest: ",
            },
        };
        let mut text = String::from_str(preamble);
        text.append(self.entry().as_str());
        text
    }
}

} // verus!
