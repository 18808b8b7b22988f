//! What holds of every compilation.

use vstd::prelude::*;
use crate::collect::{
    lemma_distinct_len, lemma_distinct_push, lemma_gather_repeat, lemma_distinct_no_duplicates, lemma_distinct_same_items, lemma_gather_first_error,
    lemma_gather_kept, lemma_gather_passes_over,
};
use crate::descriptor::{NetDescriptor, RunDescriptorView, SysDescriptor};
use crate::error::{ConfigError, ConfigErrorView};
use crate::permissions::{
    compiled, compiles_to, env_grant, net_grant, parsed_hosts, parsed_kinds, path_grant, path_outcomes,
    resolved_paths, run_descriptors, run_grant, sys_grant, PermissionManifest, PermissionManifestView,
};
use crate::platform::{HostContext, HostContextView};
use crate::policy::{SandboxPolicy, SandboxPolicyView};
use crate::resolver::{resolved, substituted};
use crate::variable::{first_variable, known_variable, KnownVariable};

verus! {

/// The outcome of a compilation, with its texts as character sequences.
pub open spec fn compilation_view(outcome: Result<SandboxPolicy, ConfigError>) -> Result<
    SandboxPolicyView,
    ConfigErrorView,
> {
    match outcome {
        Ok(policy) => Ok(policy@),
        Err(error) => Err(error@),
    }
}

/// Compilation is a function of the manifest and the host context: two
/// compilations of manifests that read the same, for contexts that read the
/// same, end alike, in the same policy or in the same error.
pub proof fn compilation_is_deterministic(
    manifest: PermissionManifest,
    ctx: HostContext,
    outcome: Result<SandboxPolicy, ConfigError>,
    again_manifest: PermissionManifest,
    again_ctx: HostContext,
    again_outcome: Result<SandboxPolicy, ConfigError>,
)
    requires
        manifest@ == again_manifest@,
        ctx@ == again_ctx@,
        compiles_to(manifest@, ctx@, outcome),
        compiles_to(again_manifest@, again_ctx@, again_outcome),
    ensures
        compilation_view(outcome) == compilation_view(again_outcome),
{
}

/// An empty list compiles to the empty grant, in every category and on every
/// host.
pub proof fn empty_list_grants_nothing(ctx: HostContextView)
    ensures
        path_grant(Seq::empty(), ctx) == Ok::<_, ConfigErrorView>(Seq::<Seq<char>>::empty()),
        net_grant(Seq::empty()) == Ok::<_, ConfigErrorView>(Seq::<(Seq<char>, Option<u32>)>::empty()),
        env_grant(Seq::empty()) == Seq::<Seq<char>>::empty(),
        sys_grant(Seq::empty()) == Ok::<_, ConfigErrorView>(Seq::<Seq<char>>::empty()),
        run_grant(Seq::empty(), Seq::empty(), ctx) == Ok::<_, ConfigErrorView>(
            Seq::<RunDescriptorView>::empty(),
        ),
{
    let none = Seq::<Seq<char>>::empty();
    assert(path_outcomes(none, ctx).len() == 0);
    assert(run_descriptors(none, none) =~= Seq::<RunDescriptorView>::empty());
}

/// In a policy, a category whose list is empty in the manifest grants
/// nothing, whatever the other lists hold.
pub proof fn empty_category_is_closed(manifest: PermissionManifestView, ctx: HostContextView)
    requires
        compiled(manifest, ctx) is Ok,
    ensures
        ({
            let policy = compiled(manifest, ctx)->Ok_0;
            &&& manifest.read.len() == 0 ==> policy.read.len() == 0
            &&& manifest.write.len() == 0 ==> policy.write.len() == 0
            &&& manifest.network.len() == 0 ==> policy.network.len() == 0
            &&& manifest.environment.len() == 0 ==> policy.env.len() == 0
            &&& manifest.system.len() == 0 ==> policy.system.len() == 0
            &&& manifest.executable.len() == 0 && manifest.command.len() == 0 ==> policy.run.len() == 0
        }),
{
    let none = Seq::<Seq<char>>::empty();
    empty_list_grants_nothing(ctx);
    if manifest.read.len() == 0 {
        assert(manifest.read =~= none);
    }
    if manifest.write.len() == 0 {
        assert(manifest.write =~= none);
    }
    if manifest.network.len() == 0 {
        assert(manifest.network =~= none);
    }
    if manifest.environment.len() == 0 {
        assert(manifest.environment =~= none);
    }
    if manifest.system.len() == 0 {
        assert(manifest.system =~= none);
    }
    if manifest.executable.len() == 0 && manifest.command.len() == 0 {
        assert(manifest.executable =~= none);
        assert(manifest.command =~= none);
    }
}

/// A manifest that asks for nothing compiles, on every host, to the policy
/// that denies everything.
pub proof fn empty_manifest_denies_all(manifest: PermissionManifestView, ctx: HostContextView)
    requires
        manifest.read.len() == 0,
        manifest.write.len() == 0,
        manifest.network.len() == 0,
        manifest.environment.len() == 0,
        manifest.system.len() == 0,
        manifest.executable.len() == 0,
        manifest.command.len() == 0,
    ensures
        compiled(manifest, ctx) is Ok,
        (compiled(manifest, ctx)->Ok_0).denies_all(),
{
    let none = Seq::<Seq<char>>::empty();
    empty_list_grants_nothing(ctx);
    assert(manifest.read =~= none);
    assert(manifest.write =~= none);
    assert(manifest.network =~= none);
    assert(manifest.environment =~= none);
    assert(manifest.system =~= none);
    assert(manifest.executable =~= none);
    assert(manifest.command =~= none);
}

/// In every category of a policy no descriptor stands twice, and the grant
/// is as large as the number of different descriptors that the category's
/// entries give.
pub proof fn grants_count_distinct_descriptors(manifest: PermissionManifestView, ctx: HostContextView)
    requires
        compiled(manifest, ctx) is Ok,
    ensures
        ({
            let policy = compiled(manifest, ctx)->Ok_0;
            &&& policy.read.no_duplicates()
            &&& policy.read.len() == (resolved_paths(manifest.read, ctx)->Ok_0).to_set().len()
            &&& policy.write.no_duplicates()
            &&& policy.write.len() == (resolved_paths(manifest.write, ctx)->Ok_0).to_set().len()
            &&& policy.network.no_duplicates()
            &&& policy.network.len() == (parsed_hosts(manifest.network)->Ok_0).to_set().len()
            &&& policy.env.no_duplicates()
            &&& policy.env.len() == manifest.environment.to_set().len()
            &&& policy.system.no_duplicates()
            &&& policy.system.len() == (parsed_kinds(manifest.system)->Ok_0).to_set().len()
            &&& policy.run.no_duplicates()
            &&& policy.run.len() == run_descriptors(
                resolved_paths(manifest.executable, ctx)->Ok_0,
                manifest.command,
            ).to_set().len()
        }),
{
    let read = resolved_paths(manifest.read, ctx)->Ok_0;
    let write = resolved_paths(manifest.write, ctx)->Ok_0;
    let hosts = parsed_hosts(manifest.network)->Ok_0;
    let kinds = parsed_kinds(manifest.system)->Ok_0;
    let programs = run_descriptors(resolved_paths(manifest.executable, ctx)->Ok_0, manifest.command);
    lemma_distinct_no_duplicates(read);
    lemma_distinct_len(read);
    lemma_distinct_no_duplicates(write);
    lemma_distinct_len(write);
    lemma_distinct_no_duplicates(hosts);
    lemma_distinct_len(hosts);
    lemma_distinct_no_duplicates(manifest.environment);
    lemma_distinct_len(manifest.environment);
    lemma_distinct_no_duplicates(kinds);
    lemma_distinct_len(kinds);
    lemma_distinct_no_duplicates(programs);
    lemma_distinct_len(programs);
}

/// A policy is made of all six categories or not at all: the compilation
/// succeeds exactly where every category compiles.
pub proof fn compilation_is_all_or_nothing(manifest: PermissionManifestView, ctx: HostContextView)
    ensures
        compiled(manifest, ctx) is Ok <==> {
            &&& path_grant(manifest.read, ctx) is Ok
            &&& path_grant(manifest.write, ctx) is Ok
            &&& net_grant(manifest.network) is Ok
            &&& sys_grant(manifest.system) is Ok
            &&& run_grant(manifest.executable, manifest.command, ctx) is Ok
        },
{
}

/// A grant of paths holds the paths that its entries resolve to on the host,
/// and no other path.
pub proof fn granted_paths_are_those_asked_for(entries: Seq<Seq<char>>, ctx: HostContextView)
    requires
        path_grant(entries, ctx) is Ok,
    ensures
        forall|path: Seq<char>|
            (path_grant(entries, ctx)->Ok_0).contains(path) <==> exists|at: int|
                0 <= at < entries.len() && resolved(#[trigger] entries[at], ctx) == Ok::<_, ConfigErrorView>(
                    Some(path),
                ),
{
    let outcomes = path_outcomes(entries, ctx);
    let paths = resolved_paths(entries, ctx)->Ok_0;
    lemma_gather_kept(outcomes);
    lemma_distinct_same_items(paths);
    assert forall|path: Seq<char>|
        (path_grant(entries, ctx)->Ok_0).contains(path) <==> exists|at: int|
            0 <= at < entries.len() && resolved(#[trigger] entries[at], ctx) == Ok::<_, ConfigErrorView>(
                Some(path),
            ) by {
        let wanted = Ok::<_, ConfigErrorView>(Some(path));
        assert(paths.contains(path) <==> outcomes.contains(wanted));
        assert((path_grant(entries, ctx)->Ok_0).contains(path) <==> paths.contains(path));
        if outcomes.contains(wanted) {
            let at = choose|at: int| 0 <= at < outcomes.len() && outcomes[at] == wanted;
            assert(resolved(entries[at], ctx) == wanted);
        }
        if exists|at: int| 0 <= at < entries.len() && resolved(#[trigger] entries[at], ctx) == wanted {
            let at = choose|at: int| 0 <= at < entries.len() && resolved(#[trigger] entries[at], ctx) == wanted;
            assert(outcomes[at] == wanted);
        }
    }
}

/// A policy grants what the manifest asks for and nothing else: a host that
/// an entry is read as, a name that is an entry, a group that an entry is
/// read as, the path that an executable resolves to, and the bare name that
/// is a command.
pub proof fn nothing_is_granted_unasked(manifest: PermissionManifestView, ctx: HostContextView)
    requires
        compiled(manifest, ctx) is Ok,
    ensures
        ({
            let policy = compiled(manifest, ctx)->Ok_0;
            &&& forall|path: Seq<char>|
                policy.read.contains(path) <==> exists|at: int|
                    0 <= at < manifest.read.len() && resolved(#[trigger] manifest.read[at], ctx) == Ok::<
                        _,
                        ConfigErrorView,
                    >(Some(path))
            &&& forall|path: Seq<char>|
                policy.write.contains(path) <==> exists|at: int|
                    0 <= at < manifest.write.len() && resolved(#[trigger] manifest.write[at], ctx) == Ok::<
                        _,
                        ConfigErrorView,
                    >(Some(path))
            &&& forall|host: (Seq<char>, Option<u32>)|
                policy.network.contains(host) <==> exists|at: int|
                    0 <= at < manifest.network.len() && NetDescriptor::parsed(#[trigger] manifest.network[at])
                        == Ok::<_, ConfigErrorView>(Some(host))
            &&& forall|name: Seq<char>| policy.env.contains(name) <==> manifest.environment.contains(name)
            &&& forall|kind: Seq<char>|
                policy.system.contains(kind) <==> exists|at: int|
                    0 <= at < manifest.system.len() && SysDescriptor::parsed(#[trigger] manifest.system[at])
                        == Ok::<_, ConfigErrorView>(Some(kind))
            &&& forall|path: Seq<char>|
                policy.run.contains(RunDescriptorView::Path(path)) <==> exists|at: int|
                    0 <= at < manifest.executable.len() && resolved(#[trigger] manifest.executable[at], ctx)
                        == Ok::<_, ConfigErrorView>(Some(path))
            &&& forall|name: Seq<char>|
                policy.run.contains(RunDescriptorView::Command(name)) <==> manifest.command.contains(name)
        }),
{
    let policy = compiled(manifest, ctx)->Ok_0;
    granted_paths_are_those_asked_for(manifest.read, ctx);
    granted_paths_are_those_asked_for(manifest.write, ctx);
    lemma_distinct_same_items(manifest.environment);

    let host_outcomes = manifest.network.map_values(|entry: Seq<char>| NetDescriptor::parsed(entry));
    lemma_gather_kept(host_outcomes);
    lemma_distinct_same_items(parsed_hosts(manifest.network)->Ok_0);
    assert forall|host: (Seq<char>, Option<u32>)|
        policy.network.contains(host) <==> exists|at: int|
            0 <= at < manifest.network.len() && NetDescriptor::parsed(#[trigger] manifest.network[at]) == Ok::<
                _,
                ConfigErrorView,
            >(Some(host)) by {
        let wanted = Ok::<_, ConfigErrorView>(Some(host));
        let hosts = parsed_hosts(manifest.network)->Ok_0;
        assert(hosts.contains(host) <==> host_outcomes.contains(wanted));
        assert(policy.network.contains(host) <==> hosts.contains(host));
        if host_outcomes.contains(wanted) {
            let at = choose|at: int| 0 <= at < host_outcomes.len() && host_outcomes[at] == wanted;
            assert(NetDescriptor::parsed(manifest.network[at]) == wanted);
        }
        if exists|at: int|
            0 <= at < manifest.network.len() && NetDescriptor::parsed(#[trigger] manifest.network[at])
                == wanted {
            let at = choose|at: int|
                0 <= at < manifest.network.len() && NetDescriptor::parsed(#[trigger] manifest.network[at])
                    == wanted;
            assert(host_outcomes[at] == wanted);
        }
    }

    let kind_outcomes = manifest.system.map_values(|entry: Seq<char>| SysDescriptor::parsed(entry));
    lemma_gather_kept(kind_outcomes);
    lemma_distinct_same_items(parsed_kinds(manifest.system)->Ok_0);
    assert forall|kind: Seq<char>|
        policy.system.contains(kind) <==> exists|at: int|
            0 <= at < manifest.system.len() && SysDescriptor::parsed(#[trigger] manifest.system[at]) == Ok::<
                _,
                ConfigErrorView,
            >(Some(kind)) by {
        let wanted = Ok::<_, ConfigErrorView>(Some(kind));
        let kinds = parsed_kinds(manifest.system)->Ok_0;
        assert(kinds.contains(kind) <==> kind_outcomes.contains(wanted));
        assert(policy.system.contains(kind) <==> kinds.contains(kind));
        if kind_outcomes.contains(wanted) {
            let at = choose|at: int| 0 <= at < kind_outcomes.len() && kind_outcomes[at] == wanted;
            assert(SysDescriptor::parsed(manifest.system[at]) == wanted);
        }
        if exists|at: int|
            0 <= at < manifest.system.len() && SysDescriptor::parsed(#[trigger] manifest.system[at]) == wanted {
            let at = choose|at: int|
                0 <= at < manifest.system.len() && SysDescriptor::parsed(#[trigger] manifest.system[at])
                    == wanted;
            assert(kind_outcomes[at] == wanted);
        }
    }

    let program_outcomes = path_outcomes(manifest.executable, ctx);
    let programs = resolved_paths(manifest.executable, ctx)->Ok_0;
    let all = run_descriptors(programs, manifest.command);
    let as_paths = programs.map_values(|path: Seq<char>| RunDescriptorView::Path(path));
    let as_commands = manifest.command.map_values(|name: Seq<char>| RunDescriptorView::Command(name));
    lemma_gather_kept(program_outcomes);
    lemma_distinct_same_items(all);
    assert forall|path: Seq<char>|
        policy.run.contains(RunDescriptorView::Path(path)) <==> exists|at: int|
            0 <= at < manifest.executable.len() && resolved(#[trigger] manifest.executable[at], ctx) == Ok::<
                _,
                ConfigErrorView,
            >(Some(path)) by {
        let wanted = Ok::<_, ConfigErrorView>(Some(path));
        if all.contains(RunDescriptorView::Path(path)) {
            let at = choose|at: int| 0 <= at < all.len() && all[at] == RunDescriptorView::Path(path);
            if at < as_paths.len() {
                assert(programs[at] == path);
                assert(programs.contains(path));
            } else {
                assert(all[at] == as_commands[at - as_paths.len()]);
            }
            let found = choose|found: int|
                0 <= found < program_outcomes.len() && program_outcomes[found] == wanted;
            assert(resolved(manifest.executable[found], ctx) == wanted);
        }
        if exists|at: int|
            0 <= at < manifest.executable.len() && resolved(#[trigger] manifest.executable[at], ctx) == wanted {
            let at = choose|at: int|
                0 <= at < manifest.executable.len() && resolved(#[trigger] manifest.executable[at], ctx)
                    == wanted;
            assert(program_outcomes[at] == wanted);
            assert(programs.contains(path));
            let found = choose|found: int| 0 <= found < programs.len() && programs[found] == path;
            assert(all[found] == RunDescriptorView::Path(path));
        }
    }
    assert forall|name: Seq<char>|
        policy.run.contains(RunDescriptorView::Command(name)) <==> manifest.command.contains(name) by {
        if all.contains(RunDescriptorView::Command(name)) {
            let at = choose|at: int| 0 <= at < all.len() && all[at] == RunDescriptorView::Command(name);
            if at < as_paths.len() {
                assert(all[at] == as_paths[at]);
            } else {
                assert(manifest.command[at - as_paths.len()] == name);
            }
        }
        if manifest.command.contains(name) {
            let at = choose|at: int| 0 <= at < manifest.command.len() && manifest.command[at] == name;
            assert(all[as_paths.len() + at] == RunDescriptorView::Command(name));
        }
    }
}

/// An entry written a second time grants nothing new: the list compiles to
/// the same grant with the repeat as without it.
pub proof fn repeated_entry_changes_nothing(entries: Seq<Seq<char>>, at: int, ctx: HostContextView)
    requires
        0 <= at < entries.len(),
    ensures
        path_grant(entries.push(entries[at]), ctx) == path_grant(entries, ctx),
        net_grant(entries.push(entries[at])) == net_grant(entries),
        env_grant(entries.push(entries[at])) == env_grant(entries),
        sys_grant(entries.push(entries[at])) == sys_grant(entries),
{
    let more = entries.push(entries[at]);
    let outcomes = path_outcomes(entries, ctx);
    assert(path_outcomes(more, ctx) =~= outcomes.push(outcomes[at]));
    lemma_gather_repeat(outcomes, at);

    let hosts = entries.map_values(|entry: Seq<char>| NetDescriptor::parsed(entry));
    assert(more.map_values(|entry: Seq<char>| NetDescriptor::parsed(entry)) =~= hosts.push(hosts[at]));
    lemma_gather_repeat(hosts, at);

    let kinds = entries.map_values(|entry: Seq<char>| SysDescriptor::parsed(entry));
    assert(more.map_values(|entry: Seq<char>| SysDescriptor::parsed(entry)) =~= kinds.push(kinds[at]));
    lemma_gather_repeat(kinds, at);

    lemma_distinct_same_items(entries);
    assert(entries.contains(entries[at]));
    assert(env_grant(entries).contains(entries[at]));
    lemma_distinct_push(entries, entries[at]);
}

/// A home directory of another platform grants nothing here, and is no
/// error.
pub proof fn home_of_another_platform_is_passed_over(
    split: (Seq<char>, Seq<char>, Seq<char>, Seq<char>),
    entry: Seq<char>,
    ctx: HostContextView,
)
    requires
        known_variable(split.1, split.2) matches Some(KnownVariable::UserHome(platform)) && platform
            != ctx.current_platform,
    ensures
        substituted(split, entry, ctx) == Ok::<Option<Seq<char>>, ConfigErrorView>(None),
{
}

/// An entry that is meant for another platform leaves the rest of its list
/// alone: the list compiles to the same grant with it as without it.
pub proof fn entry_of_another_platform_changes_nothing(entries: Seq<Seq<char>>, at: int, ctx: HostContextView)
    requires
        0 <= at < entries.len(),
        resolved(entries[at], ctx) == Ok::<Option<Seq<char>>, ConfigErrorView>(None),
    ensures
        path_grant(entries.remove(at), ctx) == path_grant(entries, ctx),
        forall|command: Seq<Seq<char>>|
            run_grant(entries.remove(at), command, ctx) == run_grant(entries, command, ctx),
{
    let outcomes = path_outcomes(entries, ctx);
    assert(path_outcomes(entries.remove(at), ctx) =~= outcomes.remove(at));
    lemma_gather_passes_over(outcomes, at);
}

/// A path entry that is meant for another platform changes no policy: with
/// it or without it, in any of the three lists of paths, the manifest
/// compiles to the same policy or to the same error.
pub proof fn entry_of_another_platform_changes_no_policy(
    manifest: PermissionManifestView,
    at: int,
    ctx: HostContextView,
)
    ensures
        0 <= at < manifest.read.len() && resolved(manifest.read[at], ctx) == Ok::<
            Option<Seq<char>>,
            ConfigErrorView,
        >(None) ==> compiled(PermissionManifestView { read: manifest.read.remove(at), ..manifest }, ctx)
            == compiled(manifest, ctx),
        0 <= at < manifest.write.len() && resolved(manifest.write[at], ctx) == Ok::<
            Option<Seq<char>>,
            ConfigErrorView,
        >(None) ==> compiled(PermissionManifestView { write: manifest.write.remove(at), ..manifest }, ctx)
            == compiled(manifest, ctx),
        0 <= at < manifest.executable.len() && resolved(manifest.executable[at], ctx) == Ok::<
            Option<Seq<char>>,
            ConfigErrorView,
        >(None) ==> compiled(
            PermissionManifestView { executable: manifest.executable.remove(at), ..manifest },
            ctx,
        ) == compiled(manifest, ctx),
{
    let passed_over = Ok::<Option<Seq<char>>, ConfigErrorView>(None);
    if 0 <= at < manifest.read.len() && resolved(manifest.read[at], ctx) == passed_over {
        entry_of_another_platform_changes_nothing(manifest.read, at, ctx);
    }
    if 0 <= at < manifest.write.len() && resolved(manifest.write[at], ctx) == passed_over {
        entry_of_another_platform_changes_nothing(manifest.write, at, ctx);
    }
    if 0 <= at < manifest.executable.len() && resolved(manifest.executable[at], ctx) == passed_over {
        entry_of_another_platform_changes_nothing(manifest.executable, at, ctx);
    }
}

/// A path without a variable is written in one syntax, and is granted as it
/// stands on the hosts of that syntax and on no others: of a host with
/// Windows paths and a host with Unix paths, exactly one grants it.
pub proof fn plain_path_applies_to_one_syntax(entry: Seq<char>, ctx: HostContextView, other: HostContextView)
    requires
        first_variable(entry) is None,
    ensures
        resolved(entry, ctx) == Ok::<_, ConfigErrorView>(Some(entry)) || resolved(entry, ctx) == Ok::<
            Option<Seq<char>>,
            ConfigErrorView,
        >(None),
        ctx.current_platform.windows_paths() == other.current_platform.windows_paths() ==> resolved(
            entry,
            ctx,
        ) == resolved(entry, other),
        ctx.current_platform.windows_paths() != other.current_platform.windows_paths() ==> (resolved(
            entry,
            ctx,
        ) is Ok && resolved(entry, other) is Ok && (resolved(entry, ctx)->Ok_0 is Some) != (resolved(
            entry,
            other,
        )->Ok_0 is Some)),
{
}

/// A path with an unknown variable is an error on every host, wherever it
/// stands in its list.
pub proof fn unknown_variable_fails_on_every_host(entries: Seq<Seq<char>>, at: int, ctx: HostContextView)
    requires
        0 <= at < entries.len(),
        first_variable(entries[at]) matches Some(split) && known_variable(split.1, split.2) is None,
    ensures
        resolved(entries[at], ctx) is Err,
        path_grant(entries, ctx) is Err,
        forall|command: Seq<Seq<char>>| run_grant(entries, command, ctx) is Err,
{
    let outcomes = path_outcomes(entries, ctx);
    assert(outcomes[at] is Err);
    lemma_gather_first_error(outcomes);
}

/// A manifest with an unknown variable in one of its lists of paths
/// compiles to no policy, on any host.
pub proof fn unknown_variable_fails_compilation(
    manifest: PermissionManifestView,
    entry: Seq<char>,
    ctx: HostContextView,
)
    requires
        manifest.read.contains(entry) || manifest.write.contains(entry) || manifest.executable.contains(
            entry,
        ),
        first_variable(entry) matches Some(split) && known_variable(split.1, split.2) is None,
    ensures
        compiled(manifest, ctx) is Err,
{
    if manifest.read.contains(entry) {
        let at = choose|at: int| 0 <= at < manifest.read.len() && manifest.read[at] == entry;
        unknown_variable_fails_on_every_host(manifest.read, at, ctx);
    } else if manifest.write.contains(entry) {
        let at = choose|at: int| 0 <= at < manifest.write.len() && manifest.write[at] == entry;
        unknown_variable_fails_on_every_host(manifest.write, at, ctx);
    } else {
        let at = choose|at: int| 0 <= at < manifest.executable.len() && manifest.executable[at] == entry;
        unknown_variable_fails_on_every_host(manifest.executable, at, ctx);
    }
}

/// A path is an error only for an unknown variable: one with a known
/// variable, or with none, is no error on any host, whether it applies
/// there or not.
pub proof fn known_variable_never_fails(entry: Seq<char>, ctx: HostContextView)
    requires
        first_variable(entry) matches Some(split) ==> known_variable(split.1, split.2) is Some,
    ensures
        resolved(entry, ctx) is Ok,
{
}

/// A list of paths in which no variable is unknown compiles on every host.
pub proof fn known_variables_compile_on_every_host(entries: Seq<Seq<char>>, ctx: HostContextView)
    requires
        forall|at: int|
            0 <= at < entries.len() ==> (first_variable(#[trigger] entries[at]) matches Some(split)
                ==> known_variable(split.1, split.2) is Some),
    ensures
        path_grant(entries, ctx) is Ok,
        forall|command: Seq<Seq<char>>| run_grant(entries, command, ctx) is Ok,
{
    let outcomes = path_outcomes(entries, ctx);
    assert forall|at: int| 0 <= at < outcomes.len() implies (#[trigger] outcomes[at]) is Ok by {
        known_variable_never_fails(entries[at], ctx);
    }
    lemma_gather_first_error(outcomes);
}

} // verus!
