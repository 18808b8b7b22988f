//! The launcher's rules for third-party plugins.
//!
//! A plugin's manifest says what the plugin asks for: paths to read and to
//! write, hosts, environment variables, groups of system calls, programs to
//! run. [`permissions::permissions_to_deno`] compiles these lists, for the
//! host at hand, into the [`policy::SandboxPolicy`] that the plugin's process
//! is launched with. The policy is closed: what no entry asks for is denied,
//! and a manifest with a fault gives no policy at all. [`laws`] states what
//! holds of every compilation.
//!
//! [`widget`] is the tree of built-in widgets that a plugin's view is made of,
//! and [`theme_kind`] names the places that a theme styles.

pub mod collect;
pub mod descriptor;
pub mod error;
pub mod grant;
pub mod laws;
pub mod permissions;
pub mod platform;
pub mod policy;
pub mod resolver;
pub mod text;
pub mod theme_kind;
pub mod variable;
pub mod widget;
