//! From a manifest's permissions to a sandbox policy.

use vstd::prelude::*;
use crate::collect::{
    distinct, gather, lemma_distinct_len, lemma_distinct_no_duplicates, lemma_distinct_push,
    lemma_gather_error_stays, lemma_gather_push,
};
use crate::descriptor::{
    EnvDescriptor, NetDescriptor, PathDescriptor, RunDescriptor, RunDescriptorView, SysDescriptor,
};
use crate::error::{ConfigError, ConfigErrorView};
use crate::grant::{views, CategoryGrant};
use crate::platform::{HostContext, HostContextView};
use crate::policy::{
    assemble, EnvGrant, NetworkGrant, ReadGrant, RunGrant, SandboxPolicy, SandboxPolicyView, SystemGrant,
    WriteGrant,
};
use crate::resolver::resolved;
use crate::variable::PathResolver;

verus! {

/// The paths that a plugin asks to read and to write. A path may hold one
/// variable token.
#[derive(Clone, Debug, PartialEq, Eq)]
pub struct FilesystemPermissions {
    pub read: Vec<String>,
    pub write: Vec<String>,
}

/// The programs that a plugin asks to run: by path, where a path may hold one
/// variable token, and by bare name.
#[derive(Clone, Debug, PartialEq, Eq)]
pub struct ExecPermissions {
    pub executable: Vec<String>,
    pub command: Vec<String>,
}

/// What a plugin's manifest asks for, as its author wrote it: the same on
/// every platform.
#[derive(Clone, Debug, PartialEq, Eq)]
pub struct PermissionManifest {
    pub filesystem: FilesystemPermissions,
    pub network: Vec<String>,
    pub environment: Vec<String>,
    pub system: Vec<String>,
    pub execute: ExecPermissions,
}

/// A manifest with its entries as character sequences.
pub struct PermissionManifestView {
    pub read: Seq<Seq<char>>,
    pub write: Seq<Seq<char>>,
    pub network: Seq<Seq<char>>,
    pub environment: Seq<Seq<char>>,
    pub system: Seq<Seq<char>>,
    pub executable: Seq<Seq<char>>,
    pub command: Seq<Seq<char>>,
}

impl View for PermissionManifest {
    type V = PermissionManifestView;

    open spec fn view(&self) -> PermissionManifestView {
        PermissionManifestView {
            read: views(self.filesystem.read@),
            write: views(self.filesystem.write@),
            network: views(self.network@),
            environment: views(self.environment@),
            system: views(self.system@),
            executable: views(self.execute.executable@),
            command: views(self.execute.command@),
        }
    }
}

/// What becomes of each entry of a list of paths.
pub open spec fn path_outcomes(entries: Seq<Seq<char>>, ctx: HostContextView) -> Seq<
    Result<Option<Seq<char>>, ConfigErrorView>,
> {
    entries.map_values(|entry: Seq<char>| resolved(entry, ctx))
}

/// The paths that a list of entries grants on a host, or the error of the
/// first entry that has one.
pub open spec fn resolved_paths(entries: Seq<Seq<char>>, ctx: HostContextView) -> Result<
    Seq<Seq<char>>,
    ConfigErrorView,
> {
    gather(path_outcomes(entries, ctx))
}

/// The grant that a list of path entries compiles to.
pub open spec fn path_grant(entries: Seq<Seq<char>>, ctx: HostContextView) -> Result<
    Seq<Seq<char>>,
    ConfigErrorView,
> {
    match resolved_paths(entries, ctx) {
        Ok(paths) => Ok(distinct(paths)),
        Err(error) => Err(error),
    }
}

/// What the network entries are read as, or the error of the first that is
/// no host.
pub open spec fn parsed_hosts(entries: Seq<Seq<char>>) -> Result<Seq<(Seq<char>, Option<u32>)>, ConfigErrorView> {
    gather(entries.map_values(|entry: Seq<char>| NetDescriptor::parsed(entry)))
}

/// The grant that the network entries compile to.
pub open spec fn net_grant(entries: Seq<Seq<char>>) -> Result<Seq<(Seq<char>, Option<u32>)>, ConfigErrorView> {
    match parsed_hosts(entries) {
        Ok(hosts) => Ok(distinct(hosts)),
        Err(error) => Err(error),
    }
}

/// The grant that the environment entries compile to: the names as they are.
pub open spec fn env_grant(entries: Seq<Seq<char>>) -> Seq<Seq<char>> {
    distinct(entries)
}

/// What the system entries are read as, or the error of the first that names
/// no group of system calls.
pub open spec fn parsed_kinds(entries: Seq<Seq<char>>) -> Result<Seq<Seq<char>>, ConfigErrorView> {
    gather(entries.map_values(|entry: Seq<char>| SysDescriptor::parsed(entry)))
}

/// The grant that the system entries compile to.
pub open spec fn sys_grant(entries: Seq<Seq<char>>) -> Result<Seq<Seq<char>>, ConfigErrorView> {
    match parsed_kinds(entries) {
        Ok(kinds) => Ok(distinct(kinds)),
        Err(error) => Err(error),
    }
}

/// The run descriptors of resolved paths followed by those of bare commands.
pub open spec fn run_descriptors(paths: Seq<Seq<char>>, commands: Seq<Seq<char>>) -> Seq<RunDescriptorView> {
    paths.map_values(|path: Seq<char>| RunDescriptorView::Path(path)) + commands.map_values(
        |name: Seq<char>| RunDescriptorView::Command(name),
    )
}

/// The grant that the two lists of programs compile to.
pub open spec fn run_grant(executable: Seq<Seq<char>>, command: Seq<Seq<char>>, ctx: HostContextView) -> Result<
    Seq<RunDescriptorView>,
    ConfigErrorView,
> {
    match resolved_paths(executable, ctx) {
        Ok(paths) => Ok(distinct(run_descriptors(paths, command))),
        Err(error) => Err(error),
    }
}

/// The policy that a manifest compiles to on a host, or the error of the
/// first category that has one, in the order read, write, network, system,
/// run.
pub open spec fn compiled(manifest: PermissionManifestView, ctx: HostContextView) -> Result<
    SandboxPolicyView,
    ConfigErrorView,
> {
    match path_grant(manifest.read, ctx) {
        Err(error) => Err(error),
        Ok(read) => match path_grant(manifest.write, ctx) {
            Err(error) => Err(error),
            Ok(write) => match net_grant(manifest.network) {
                Err(error) => Err(error),
                Ok(network) => match sys_grant(manifest.system) {
                    Err(error) => Err(error),
                    Ok(system) => match run_grant(manifest.executable, manifest.command, ctx) {
                        Err(error) => Err(error),
                        Ok(run) => Ok(
                            SandboxPolicyView {
                                read,
                                write,
                                network,
                                env: env_grant(manifest.environment),
                                system,
                                run,
                            },
                        ),
                    },
                },
            },
        },
    }
}

/// Whether an outcome is what a manifest compiles to on a host.
pub open spec fn compiles_to(
    manifest: PermissionManifestView,
    ctx: HostContextView,
    outcome: Result<SandboxPolicy, ConfigError>,
) -> bool {
    match outcome {
        Ok(policy) => compiled(manifest, ctx) == Ok::<_, ConfigErrorView>(policy@),
        Err(error) => compiled(manifest, ctx) == Err::<SandboxPolicyView, _>(error@),
    }
}

/// Resolves a list of path entries for the host, in order. Entries meant for
/// another platform leave nothing; the first faulty entry ends the work.
pub fn resolve_paths(resolver: &PathResolver, entries: &Vec<String>, ctx: &HostContext) -> (outcome: Result<
    Vec<String>,
    ConfigError,
>)
    ensures
        match outcome {
            Ok(paths) => resolved_paths(views(entries@), ctx@) == Ok::<_, ConfigErrorView>(views(paths@)),
            Err(error) => resolved_paths(views(entries@), ctx@) == Err::<Seq<Seq<char>>, _>(error@),
        },
{
    let ghost outcomes = path_outcomes(views(entries@), ctx@);
    let mut paths: Vec<String> = Vec::new();
    let mut at: usize = 0;
    assert(views(paths@) =~= Seq::<Seq<char>>::empty());
    while at < entries.len()
        invariant
            at <= entries.len(),
            outcomes == path_outcomes(views(entries@), ctx@),
            gather(outcomes.take(at as int)) == Ok::<_, ConfigErrorView>(views(paths@)),
        decreases entries.len() - at,
    {
        let outcome = resolver.augment_path(entries[at].as_str(), ctx);
        proof {
            assert(outcomes.take(at + 1) =~= outcomes.take(at as int).push(outcomes[at as int]));
            lemma_gather_push(outcomes.take(at as int), outcomes[at as int]);
        }
        match outcome {
            Err(error) => {
                proof {
                    lemma_gather_error_stays(outcomes, at + 1);
                }
                return Err(error);
            },
            Ok(None) => {},
            Ok(Some(path)) => {
                let ghost before = paths@;
                paths.push(path);
                assert(views(paths@) =~= views(before).push(path@));
            },
        }
        at += 1;
    }
    assert(outcomes.take(at as int) =~= outcomes);
    Ok(paths)
}

/// Compiles a list of path entries, for reading or for writing, to the set
/// of paths that it grants on the host.
pub fn path_permission(resolver: &PathResolver, paths: &Vec<String>, ctx: &HostContext) -> (grant: Result<
    CategoryGrant<PathDescriptor>,
    ConfigError,
>)
    ensures
        match grant {
            Ok(set) => path_grant(views(paths@), ctx@) == Ok::<_, ConfigErrorView>(set@),
            Err(error) => path_grant(views(paths@), ctx@) == Err::<Seq<Seq<char>>, _>(error@),
        },
        paths@.len() == 0 ==> grant is Ok && grant->Ok_0@.len() == 0,
        grant matches Ok(set) ==> set@.no_duplicates() && set@.len() == (resolved_paths(
            views(paths@),
            ctx@,
        )->Ok_0).to_set().len(),
{
    let resolved = match resolve_paths(resolver, paths, ctx) {
        Ok(resolved) => resolved,
        Err(error) => {
            return Err(error);
        },
    };
    let mut set: CategoryGrant<PathDescriptor> = CategoryGrant::new();
    let mut at: usize = 0;
    assert(views(resolved@).take(0) =~= Seq::<Seq<char>>::empty());
    while at < resolved.len()
        invariant
            at <= resolved.len(),
            set@ == distinct(views(resolved@).take(at as int)),
        decreases resolved.len() - at,
    {
        proof {
            let all = views(resolved@);
            assert(all.take(at + 1) =~= all.take(at as int).push(all[at as int]));
            lemma_distinct_push(all.take(at as int), all[at as int]);
        }
        set.insert(PathDescriptor { path: resolved[at].clone() });
        at += 1;
    }
    proof {
        assert(views(resolved@).take(at as int) =~= views(resolved@));
        lemma_distinct_no_duplicates(views(resolved@));
        lemma_distinct_len(views(resolved@));
    }
    Ok(set)
}

/// Compiles the network entries to the set of hosts that they grant.
pub fn net_permission(domain_and_ports: &Vec<String>) -> (grant: Result<CategoryGrant<NetDescriptor>, ConfigError>)
    ensures
        match grant {
            Ok(set) => net_grant(views(domain_and_ports@)) == Ok::<_, ConfigErrorView>(set@),
            Err(error) => net_grant(views(domain_and_ports@)) == Err::<Seq<(Seq<char>, Option<u32>)>, _>(
                error@,
            ),
        },
        domain_and_ports@.len() == 0 ==> grant is Ok && grant->Ok_0@.len() == 0,
        grant matches Ok(set) ==> set@.no_duplicates() && set@.len() == (parsed_hosts(
            views(domain_and_ports@),
        )->Ok_0).to_set().len(),
{
    let ghost outcomes = views(domain_and_ports@).map_values(|entry: Seq<char>| NetDescriptor::parsed(entry));
    let ghost mut hosts = Seq::<(Seq<char>, Option<u32>)>::empty();
    let mut set: CategoryGrant<NetDescriptor> = CategoryGrant::new();
    let mut at: usize = 0;
    while at < domain_and_ports.len()
        invariant
            at <= domain_and_ports.len(),
            outcomes == views(domain_and_ports@).map_values(|entry: Seq<char>| NetDescriptor::parsed(entry)),
            gather(outcomes.take(at as int)) == Ok::<_, ConfigErrorView>(hosts),
            set@ == distinct(hosts),
        decreases domain_and_ports.len() - at,
    {
        let outcome = NetDescriptor::parse(domain_and_ports[at].as_str());
        proof {
            assert(outcomes.take(at + 1) =~= outcomes.take(at as int).push(outcomes[at as int]));
            lemma_gather_push(outcomes.take(at as int), outcomes[at as int]);
        }
        match outcome {
            Err(error) => {
                proof {
                    lemma_gather_error_stays(outcomes, at + 1);
                }
                return Err(error);
            },
            Ok(descriptor) => {
                proof {
                    lemma_distinct_push(hosts, descriptor@);
                    hosts = hosts.push(descriptor@);
                }
                set.insert(descriptor);
            },
        }
        at += 1;
    }
    proof {
        assert(outcomes.take(at as int) =~= outcomes);
        lemma_distinct_no_duplicates(hosts);
        lemma_distinct_len(hosts);
    }
    Ok(set)
}

/// Compiles the environment entries to the set of variable names that they
/// grant. Every name is taken as it is written.
pub fn env_permission(envs: &Vec<String>) -> (grant: CategoryGrant<EnvDescriptor>)
    ensures
        grant@ == env_grant(views(envs@)),
        envs@.len() == 0 ==> grant@.len() == 0,
        grant@.no_duplicates(),
        grant@.len() == views(envs@).to_set().len(),
{
    let mut set: CategoryGrant<EnvDescriptor> = CategoryGrant::new();
    let mut at: usize = 0;
    assert(views(envs@).take(0) =~= Seq::<Seq<char>>::empty());
    while at < envs.len()
        invariant
            at <= envs.len(),
            set@ == distinct(views(envs@).take(at as int)),
        decreases envs.len() - at,
    {
        proof {
            let all = views(envs@);
            assert(all.take(at + 1) =~= all.take(at as int).push(all[at as int]));
            lemma_distinct_push(all.take(at as int), all[at as int]);
        }
        set.insert(EnvDescriptor { name: envs[at].clone() });
        at += 1;
    }
    proof {
        assert(views(envs@).take(at as int) =~= views(envs@));
        lemma_distinct_no_duplicates(views(envs@));
        lemma_distinct_len(views(envs@));
    }
    set
}

/// Compiles the system entries to the set of groups of system calls that
/// they grant.
pub fn sys_permission(system: &Vec<String>) -> (grant: Result<CategoryGrant<SysDescriptor>, ConfigError>)
    ensures
        match grant {
            Ok(set) => sys_grant(views(system@)) == Ok::<_, ConfigErrorView>(set@),
            Err(error) => sys_grant(views(system@)) == Err::<Seq<Seq<char>>, _>(error@),
        },
        system@.len() == 0 ==> grant is Ok && grant->Ok_0@.len() == 0,
        grant matches Ok(set) ==> set@.no_duplicates() && set@.len() == (parsed_kinds(
            views(system@),
        )->Ok_0).to_set().len(),
{
    let ghost outcomes = views(system@).map_values(|entry: Seq<char>| SysDescriptor::parsed(entry));
    let ghost mut kinds = Seq::<Seq<char>>::empty();
    let mut set: CategoryGrant<SysDescriptor> = CategoryGrant::new();
    let mut at: usize = 0;
    while at < system.len()
        invariant
            at <= system.len(),
            outcomes == views(system@).map_values(|entry: Seq<char>| SysDescriptor::parsed(entry)),
            gather(outcomes.take(at as int)) == Ok::<_, ConfigErrorView>(kinds),
            set@ == distinct(kinds),
        decreases system.len() - at,
    {
        let outcome = SysDescriptor::parse(system[at].as_str());
        proof {
            assert(outcomes.take(at + 1) =~= outcomes.take(at as int).push(outcomes[at as int]));
            lemma_gather_push(outcomes.take(at as int), outcomes[at as int]);
        }
        match outcome {
            Err(error) => {
                proof {
                    lemma_gather_error_stays(outcomes, at + 1);
                }
                return Err(error);
            },
            Ok(descriptor) => {
                proof {
                    lemma_distinct_push(kinds, descriptor@);
                    kinds = kinds.push(descriptor@);
                }
                set.insert(descriptor);
            },
        }
        at += 1;
    }
    proof {
        assert(outcomes.take(at as int) =~= outcomes);
        lemma_distinct_no_duplicates(kinds);
        lemma_distinct_len(kinds);
    }
    Ok(set)
}

/// Compiles the two lists of programs to one set: the paths that the
/// `executable` entries resolve to on the host, then the bare names of the
/// `command` entries. A path and a bare name are never merged.
pub fn run_permission(resolver: &PathResolver, permissions: &ExecPermissions, ctx: &HostContext) -> (grant:
    Result<CategoryGrant<RunDescriptor>, ConfigError>)
    ensures
        match grant {
            Ok(set) => run_grant(views(permissions.executable@), views(permissions.command@), ctx@) == Ok::<
                _,
                ConfigErrorView,
            >(set@),
            Err(error) => run_grant(views(permissions.executable@), views(permissions.command@), ctx@)
                == Err::<Seq<RunDescriptorView>, _>(error@),
        },
        permissions.executable@.len() == 0 && permissions.command@.len() == 0 ==> grant is Ok
            && grant->Ok_0@.len() == 0,
        grant matches Ok(set) ==> set@.no_duplicates() && set@.len() == run_descriptors(
            resolved_paths(views(permissions.executable@), ctx@)->Ok_0,
            views(permissions.command@),
        ).to_set().len(),
{
    let resolved = match resolve_paths(resolver, &permissions.executable, ctx) {
        Ok(resolved) => resolved,
        Err(error) => {
            return Err(error);
        },
    };
    let ghost all = run_descriptors(views(resolved@), views(permissions.command@));
    let mut set: CategoryGrant<RunDescriptor> = CategoryGrant::new();
    let mut at: usize = 0;
    assert(all.take(0) =~= Seq::<RunDescriptorView>::empty());
    while at < resolved.len()
        invariant
            at <= resolved.len(),
            all == run_descriptors(views(resolved@), views(permissions.command@)),
            set@ == distinct(all.take(at as int)),
        decreases resolved.len() - at,
    {
        proof {
            assert(all.take(at + 1) =~= all.take(at as int).push(all[at as int]));
            lemma_distinct_push(all.take(at as int), all[at as int]);
        }
        set.insert(RunDescriptor::Path(resolved[at].clone()));
        at += 1;
    }
    let mut next: usize = 0;
    while next < permissions.command.len()
        invariant
            next <= permissions.command.len(),
            all == run_descriptors(views(resolved@), views(permissions.command@)),
            set@ == distinct(all.take(resolved.len() + next)),
        decreases permissions.command.len() - next,
    {
        proof {
            let done = resolved.len() + next;
            assert(all.take(done + 1) =~= all.take(done).push(all[done]));
            lemma_distinct_push(all.take(done), all[done]);
        }
        set.insert(RunDescriptor::Command(permissions.command[next].clone()));
        next += 1;
    }
    proof {
        assert(all.take(resolved.len() + next) =~= all);
        lemma_distinct_no_duplicates(all);
        lemma_distinct_len(all);
    }
    Ok(set)
}

/// Compiles a manifest's permissions to the policy that the plugin's process
/// is launched with on this host. A fault in any category leaves no policy at
/// all.
pub fn permissions_to_deno(resolver: &PathResolver, permissions: &PermissionManifest, ctx: &HostContext) -> (policy:
    Result<SandboxPolicy, ConfigError>)
    ensures
        compiles_to(permissions@, ctx@, policy),
{
    let read = match path_permission(resolver, &permissions.filesystem.read, ctx) {
        Ok(set) => ReadGrant(set),
        Err(error) => {
            return Err(error);
        },
    };
    let write = match path_permission(resolver, &permissions.filesystem.write, ctx) {
        Ok(set) => WriteGrant(set),
        Err(error) => {
            return Err(error);
        },
    };
    let network = match net_permission(&permissions.network) {
        Ok(set) => NetworkGrant(set),
        Err(error) => {
            return Err(error);
        },
    };
    let env = EnvGrant(env_permission(&permissions.environment));
    let system = match sys_permission(&permissions.system) {
        Ok(set) => SystemGrant(set),
        Err(error) => {
            return Err(error);
        },
    };
    let run = match run_permission(resolver, &permissions.execute, ctx) {
        Ok(set) => RunGrant(set),
        Err(error) => {
            return Err(error);
        },
    };
    Ok(assemble(read, write, network, env, system, run))
}

} // verus!
