//! The policy that a plugin's process is launched with.

use vstd::prelude::*;
use crate::descriptor::{
    EnvDescriptor, NetDescriptor, PathDescriptor, RunDescriptor, RunDescriptorView, SysDescriptor,
};
use crate::grant::CategoryGrant;

verus! {

/// The paths that may be read.
pub struct ReadGrant(pub CategoryGrant<PathDescriptor>);

/// The paths that may be written.
pub struct WriteGrant(pub CategoryGrant<PathDescriptor>);

/// The hosts that may be reached.
pub struct NetworkGrant(pub CategoryGrant<NetDescriptor>);

/// The environment variables that may be read.
pub struct EnvGrant(pub CategoryGrant<EnvDescriptor>);

/// The groups of system calls that may be made.
pub struct SystemGrant(pub CategoryGrant<SysDescriptor>);

/// The programs that may be run.
pub struct RunGrant(pub CategoryGrant<RunDescriptor>);

/// The grants of the six categories. A policy is made once, by [`assemble`],
/// and only read after that.
pub struct SandboxPolicy {
    read: ReadGrant,
    write: WriteGrant,
    network: NetworkGrant,
    env: EnvGrant,
    system: SystemGrant,
    run: RunGrant,
}

/// A policy as the descriptors it grants, category by category.
pub struct SandboxPolicyView {
    pub read: Seq<Seq<char>>,
    pub write: Seq<Seq<char>>,
    pub network: Seq<(Seq<char>, Option<u32>)>,
    pub env: Seq<Seq<char>>,
    pub system: Seq<Seq<char>>,
    pub run: Seq<RunDescriptorView>,
}

impl View for SandboxPolicy {
    type V = SandboxPolicyView;

    closed spec fn view(&self) -> SandboxPolicyView {
        SandboxPolicyView {
            read: self.read.0@,
            write: self.write.0@,
            network: self.network.0@,
            env: self.env.0@,
            system: self.system.0@,
            run: self.run.0@,
        }
    }
}

impl SandboxPolicyView {
    /// Whether the policy grants nothing at all.
    pub open spec fn denies_all(self) -> bool {
        &&& self.read.len() == 0
        &&& self.write.len() == 0
        &&& self.network.len() == 0
        &&& self.env.len() == 0
        &&& self.system.len() == 0
        &&& self.run.len() == 0
    }
}

/// Bundles the six grants into one policy, each as it is.
pub fn assemble(
    read: ReadGrant,
    write: WriteGrant,
    network: NetworkGrant,
    env: EnvGrant,
    system: SystemGrant,
    run: RunGrant,
) -> (policy: SandboxPolicy)
    ensures
        policy@ == (SandboxPolicyView {
            read: read.0@,
            write: write.0@,
            network: network.0@,
            env: env.0@,
            system: system.0@,
            run: run.0@,
        }),
{
    SandboxPolicy { read, write, network, env, system, run }
}

impl SandboxPolicy {
    /// The paths that may be read.
    pub fn read(&self) -> (grant: &ReadGrant)
        ensures
            grant.0@ == self@.read,
    {
        &self.read
    }

    /// The paths that may be written.
    pub fn write(&self) -> (grant: &WriteGrant)
        ensures
            grant.0@ == self@.write,
    {
        &self.write
    }

    /// The hosts that may be reached.
    pub fn network(&self) -> (grant: &NetworkGrant)
        ensures
            grant.0@ == self@.network,
    {
        &self.network
    }

    /// The environment variables that may be read.
    pub fn env(&self) -> (grant: &EnvGrant)
        ensures
            grant.0@ == self@.env,
    {
        &self.env
    }

    /// The groups of system calls that may be made.
    pub fn system(&self) -> (grant: &SystemGrant)
        ensures
            grant.0@ == self@.system,
    {
        &self.system
    }

    /// The programs that may be run.
    pub fn run(&self) -> (grant: &RunGrant)
        ensures
            grant.0@ == self@.run,
    {
        &self.run
    }

    /// Hands the six grants over, to whatever enforces them.
    pub fn into_grants(self) -> (grants: (ReadGrant, WriteGrant, NetworkGrant, EnvGrant, SystemGrant, RunGrant))
        ensures
            grants.0.0@ == self@.read,
            grants.1.0@ == self@.write,
            grants.2.0@ == self@.network,
            grants.3.0@ == self@.env,
            grants.4.0@ == self@.system,
            grants.5.0@ == self@.run,
    {
        (self.read, self.write, self.network, self.env, self.system, self.run)
    }
}

} // verus!
