use plugin_host::descriptor::{NetDescriptor, PathDescriptor, RunDescriptor, SysDescriptor};
use plugin_host::error::{Category, ConfigError};
use plugin_host::grant::CategoryGrant;
use plugin_host::permissions::{
    env_permission, net_permission, path_permission, permissions_to_deno, resolve_paths, run_permission,
    sys_permission, ExecPermissions, FilesystemPermissions, PermissionManifest,
};
use plugin_host::platform::{HostContext, HostPlatform};
use plugin_host::policy::SandboxPolicy;
use plugin_host::variable::PathResolver;

fn texts(items: &[&str]) -> Vec<String> {
    items.iter().map(|item| item.to_string()).collect()
}

fn context(platform: HostPlatform) -> HostContext {
    HostContext {
        home_dir: "/home/ada".to_string(),
        plugin_data_dir: "/var/plg/42".to_string(),
        plugin_cache_dir: "/var/cache/plg/42".to_string(),
        current_platform: platform,
    }
}

fn empty_manifest() -> PermissionManifest {
    PermissionManifest {
        filesystem: FilesystemPermissions { read: vec![], write: vec![] },
        network: vec![],
        environment: vec![],
        system: vec![],
        execute: ExecPermissions { executable: vec![], command: vec![] },
    }
}

fn paths_of(set: &CategoryGrant<PathDescriptor>) -> Vec<String> {
    (0..set.len()).map(|at| set.get(at).unwrap().path.clone()).collect()
}

fn hosts_of(set: &CategoryGrant<NetDescriptor>) -> Vec<(String, Option<u32>)> {
    (0..set.len()).map(|at| (set.get(at).unwrap().host.clone(), set.get(at).unwrap().port)).collect()
}

fn kinds_of(set: &CategoryGrant<SysDescriptor>) -> Vec<String> {
    (0..set.len()).map(|at| set.get(at).unwrap().kind.clone()).collect()
}

fn programs_of(set: &CategoryGrant<RunDescriptor>) -> Vec<String> {
    (0..set.len())
        .map(|at| match set.get(at).unwrap() {
            RunDescriptor::Path(path) => format!("path {}", path),
            RunDescriptor::Command(name) => format!("command {}", name),
        })
        .collect()
}

fn summary(policy: &SandboxPolicy) -> String {
    let env: Vec<String> = (0..policy.env().0.len()).map(|at| policy.env().0.get(at).unwrap().name.clone()).collect();
    format!(
        "{:?} {:?} {:?} {:?} {:?} {:?}",
        paths_of(&policy.read().0),
        paths_of(&policy.write().0),
        hosts_of(&policy.network().0),
        env,
        kinds_of(&policy.system().0),
        programs_of(&policy.run().0),
    )
}

fn compile(manifest: &PermissionManifest, ctx: &HostContext) -> Result<SandboxPolicy, ConfigError> {
    permissions_to_deno(&PathResolver::new(), manifest, ctx)
}

#[test]
fn scenario_plugin_data_is_kept_and_windows_home_dropped_on_linux() {
    let mut manifest = empty_manifest();
    manifest.filesystem.read = texts(&["{common:plugin-data}/cache.db", "{windows:user-home}/foo"]);
    let policy = compile(&manifest, &context(HostPlatform::Linux)).unwrap();
    assert_eq!(paths_of(&policy.read().0), texts(&["/var/plg/42/cache.db"]));
}

#[test]
fn scenario_repeated_host_is_granted_once() {
    let mut manifest = empty_manifest();
    manifest.network = texts(&["example.com:443", "example.com:443"]);
    let policy = compile(&manifest, &context(HostPlatform::Linux)).unwrap();
    assert_eq!(policy.network().0.len(), 1);
    assert_eq!(hosts_of(&policy.network().0), vec![("example.com".to_string(), Some(443))]);
}

#[test]
fn scenario_command_and_executable_are_both_granted() {
    let mut manifest = empty_manifest();
    manifest.execute.command = texts(&["git"]);
    manifest.execute.executable = texts(&["{common:plugin-data}/bin/tool"]);
    let policy = compile(&manifest, &context(HostPlatform::Linux)).unwrap();
    let run = &policy.run().0;
    assert_eq!(run.len(), 2);
    assert!(run.contains(&RunDescriptor::Command("git".to_string())));
    assert!(run.contains(&RunDescriptor::Path("/var/plg/42/bin/tool".to_string())));
    assert_eq!(programs_of(run), texts(&["path /var/plg/42/bin/tool", "command git"]));
}

#[test]
fn scenario_malformed_system_entry_leaves_no_policy() {
    let mut manifest = empty_manifest();
    manifest.filesystem.read = texts(&["{common:plugin-data}/cache.db"]);
    manifest.system = texts(&["not-a-valid-descriptor!!"]);
    match compile(&manifest, &context(HostPlatform::Linux)) {
        Err(ConfigError::MalformedDescriptor { entry, category }) => {
            assert_eq!(entry, "not-a-valid-descriptor!!");
            assert_eq!(category, Category::System);
        }
        other => panic!("expected a malformed descriptor, got {:?}", other.map(|policy| summary(&policy))),
    }
}

#[test]
fn foreign_home_is_dropped_and_its_neighbours_stay() {
    let resolver = PathResolver::new();
    for platform in [HostPlatform::Linux, HostPlatform::MacOs] {
        let ctx = context(platform);
        assert_eq!(resolver.augment_path("{windows:user-home}/x", &ctx).unwrap(), None);
        let with = texts(&["/etc/hosts", "{windows:user-home}/x", "{common:plugin-cache}/tmp"]);
        let without = texts(&["/etc/hosts", "{common:plugin-cache}/tmp"]);
        let with = path_permission(&resolver, &with, &ctx).unwrap();
        let without = path_permission(&resolver, &without, &ctx).unwrap();
        assert_eq!(paths_of(&with), texts(&["/etc/hosts", "/var/cache/plg/42/tmp"]));
        assert_eq!(paths_of(&with), paths_of(&without));
    }
}

#[test]
fn user_home_applies_on_its_own_platform_only() {
    let resolver = PathResolver::new();
    let cases = [
        ("{macos:user-home}/Library", HostPlatform::MacOs),
        ("{linux:user-home}/Library", HostPlatform::Linux),
        ("{windows:user-home}/Library", HostPlatform::Windows),
    ];
    for (entry, owner) in cases {
        for platform in [HostPlatform::MacOs, HostPlatform::Linux, HostPlatform::Windows] {
            let found = resolver.augment_path(entry, &context(platform)).unwrap();
            if platform == owner {
                assert_eq!(found, Some("/home/ada/Library".to_string()));
            } else {
                assert_eq!(found, None);
            }
        }
    }
}

#[test]
fn common_variables_apply_on_every_platform() {
    let resolver = PathResolver::new();
    for platform in [HostPlatform::MacOs, HostPlatform::Linux, HostPlatform::Windows] {
        let ctx = context(platform);
        assert_eq!(
            resolver.augment_path("{common:plugin-data}/db", &ctx).unwrap(),
            Some("/var/plg/42/db".to_string())
        );
        assert_eq!(
            resolver.augment_path("{common:plugin-cache}/db", &ctx).unwrap(),
            Some("/var/cache/plg/42/db".to_string())
        );
    }
}

#[test]
fn unknown_variable_fails_on_every_platform() {
    for platform in [HostPlatform::MacOs, HostPlatform::Linux, HostPlatform::Windows] {
        let mut manifest = empty_manifest();
        manifest.filesystem.write = texts(&["/tmp/ok", "{foo:bar}/x"]);
        match compile(&manifest, &context(platform)) {
            Err(ConfigError::UnknownPermissionVariable { entry }) => assert_eq!(entry, "{foo:bar}/x"),
            other => panic!("expected an unknown variable, got {:?}", other.map(|policy| summary(&policy))),
        }
    }
}

#[test]
fn known_namespace_with_unknown_name_is_unknown() {
    let resolver = PathResolver::new();
    let ctx = context(HostPlatform::Linux);
    for entry in ["{linux:plugin-data}", "{common:user-home}", "{Linux:user-home}", "{common:plugin-data }"] {
        match resolver.augment_path(entry, &ctx) {
            Err(ConfigError::UnknownPermissionVariable { entry: reported }) => assert_eq!(reported, entry),
            other => panic!("expected an unknown variable for {}, got {:?}", entry, other),
        }
    }
}

#[test]
fn recognised_variable_of_another_platform_never_fails() {
    for platform in [HostPlatform::MacOs, HostPlatform::Linux, HostPlatform::Windows] {
        let mut manifest = empty_manifest();
        manifest.filesystem.read =
            texts(&["{macos:user-home}/a", "{linux:user-home}/a", "{windows:user-home}/a"]);
        manifest.execute.executable = texts(&["{macos:user-home}/bin", "{windows:user-home}/bin"]);
        let policy = compile(&manifest, &context(platform)).unwrap();
        assert_eq!(paths_of(&policy.read().0), texts(&["/home/ada/a"]));
    }
}

#[test]
fn variable_in_the_middle_is_replaced_in_place() {
    let resolver = PathResolver::new();
    let ctx = context(HostPlatform::Linux);
    assert_eq!(
        resolver.augment_path("/mnt/{common:plugin-cache}/x/{y}", &ctx).unwrap(),
        Some("/mnt//var/cache/plg/42/x/{y}".to_string())
    );
}

#[test]
fn only_the_first_variable_is_replaced() {
    let resolver = PathResolver::new();
    let ctx = context(HostPlatform::Linux);
    assert_eq!(
        resolver.augment_path("{common:plugin-data}/{common:plugin-cache}", &ctx).unwrap(),
        Some("/var/plg/42/{common:plugin-cache}".to_string())
    );
}

#[test]
fn find_variable_cuts_the_entry_at_the_token() {
    let resolver = PathResolver::new();
    let split = resolver.find_variable("a{ns:name}b").unwrap();
    assert_eq!(split.before, "a");
    assert_eq!(split.variable.namespace, "ns");
    assert_eq!(split.variable.name, "name");
    assert_eq!(split.after, "b");
    assert!(resolver.find_variable("/plain/path").is_none());
    assert!(resolver.find_variable("{:x}").is_none());
    assert!(resolver.find_variable("{x:}").is_none());
}

#[test]
fn directory_is_substituted_as_it_is_written() {
    let resolver = PathResolver::new();
    let mut ctx = context(HostPlatform::Linux);
    ctx.home_dir = "/home/$name".to_string();
    assert_eq!(
        resolver.augment_path("{linux:user-home}/x", &ctx).unwrap(),
        Some("/home/$name/x".to_string())
    );
}

#[test]
fn plain_path_is_kept_where_its_syntax_is_the_hosts() {
    let resolver = PathResolver::new();
    for platform in [HostPlatform::MacOs, HostPlatform::Linux] {
        let ctx = context(platform);
        assert_eq!(resolver.augment_path("/unix/path", &ctx).unwrap(), Some("/unix/path".to_string()));
        assert_eq!(resolver.augment_path("C:\\win\\path", &ctx).unwrap(), None);
        assert_eq!(resolver.augment_path("\\win\\path", &ctx).unwrap(), None);
        assert_eq!(resolver.augment_path("file.txt", &ctx).unwrap(), Some("file.txt".to_string()));
    }
    let ctx = context(HostPlatform::Windows);
    assert_eq!(resolver.augment_path("/unix/path", &ctx).unwrap(), None);
    assert_eq!(resolver.augment_path("C:\\win\\path", &ctx).unwrap(), Some("C:\\win\\path".to_string()));
}

#[test]
fn one_manifest_serves_both_syntaxes() {
    let resolver = PathResolver::new();
    let entries = texts(&["/unix/path", "C:\\win\\path"]);
    let on_linux = path_permission(&resolver, &entries, &context(HostPlatform::Linux)).unwrap();
    let on_windows = path_permission(&resolver, &entries, &context(HostPlatform::Windows)).unwrap();
    assert_eq!(paths_of(&on_linux), texts(&["/unix/path"]));
    assert_eq!(paths_of(&on_windows), texts(&["C:\\win\\path"]));
}

#[test]
fn compiling_twice_gives_the_same_policy() {
    let mut manifest = empty_manifest();
    manifest.filesystem.read = texts(&["{common:plugin-data}/a", "/etc/hosts", "{common:plugin-data}/a"]);
    manifest.filesystem.write = texts(&["{linux:user-home}/out"]);
    manifest.network = texts(&["example.com:443", "10.0.0.1", "localhost:8080"]);
    manifest.environment = texts(&["HOME", "PATH", "HOME"]);
    manifest.system = texts(&["hostname", "osRelease"]);
    manifest.execute.executable = texts(&["{common:plugin-data}/bin/tool"]);
    manifest.execute.command = texts(&["git", "ls"]);
    let ctx = context(HostPlatform::Linux);
    let first = compile(&manifest, &ctx).unwrap();
    let second = compile(&manifest, &ctx).unwrap();
    assert_eq!(summary(&first), summary(&second));
    assert_eq!(
        summary(&first),
        "[\"/var/plg/42/a\", \"/etc/hosts\"] [\"/home/ada/out\"] \
         [(\"example.com\", Some(443)), (\"10.0.0.1\", None), (\"localhost\", Some(8080))] \
         [\"HOME\", \"PATH\"] [\"hostname\", \"osRelease\"] \
         [\"path /var/plg/42/bin/tool\", \"command git\", \"command ls\"]"
    );
}

#[test]
fn compiling_twice_gives_the_same_error() {
    let mut manifest = empty_manifest();
    manifest.network = texts(&["example.com:443", "http://example.com"]);
    let ctx = context(HostPlatform::MacOs);
    let first = compile(&manifest, &ctx).err().unwrap();
    let second = compile(&manifest, &ctx).err().unwrap();
    assert_eq!(first.message(), second.message());
}

#[test]
fn empty_list_is_deny_all_and_never_allow_all() {
    let resolver = PathResolver::new();
    for platform in [HostPlatform::MacOs, HostPlatform::Linux, HostPlatform::Windows] {
        let ctx = context(platform);
        let none: Vec<String> = vec![];
        let paths = path_permission(&resolver, &none, &ctx).unwrap();
        assert!(paths.is_empty());
        assert_eq!(paths.len(), 0);
        assert!(paths.into_allow_list().is_none());
        let hosts = net_permission(&none).unwrap();
        assert!(hosts.is_empty());
        assert!(hosts.into_allow_list().is_none());
        let names = env_permission(&none);
        assert!(names.is_empty());
        assert!(names.into_allow_list().is_none());
        let kinds = sys_permission(&none).unwrap();
        assert!(kinds.is_empty());
        assert!(kinds.into_allow_list().is_none());
        let programs =
            run_permission(&resolver, &ExecPermissions { executable: vec![], command: vec![] }, &ctx).unwrap();
        assert!(programs.is_empty());
        assert!(programs.into_allow_list().is_none());
    }
}

#[test]
fn empty_manifest_compiles_to_the_policy_that_denies_all() {
    let policy = compile(&empty_manifest(), &context(HostPlatform::Windows)).unwrap();
    assert_eq!(summary(&policy), "[] [] [] [] [] []");
    let (read, write, network, env, system, run) = policy.into_grants();
    assert!(read.0.into_allow_list().is_none());
    assert!(write.0.into_allow_list().is_none());
    assert!(network.0.into_allow_list().is_none());
    assert!(env.0.into_allow_list().is_none());
    assert!(system.0.into_allow_list().is_none());
    assert!(run.0.into_allow_list().is_none());
}

#[test]
fn list_of_entries_for_other_platforms_is_deny_all() {
    let resolver = PathResolver::new();
    let entries = texts(&["{windows:user-home}/a", "{macos:user-home}/b", "C:\\c"]);
    let grant = path_permission(&resolver, &entries, &context(HostPlatform::Linux)).unwrap();
    assert!(grant.is_empty());
    assert!(grant.into_allow_list().is_none());
}

#[test]
fn allow_list_of_a_grant_holds_its_descriptors_in_order() {
    let names = env_permission(&texts(&["B", "A", "B", "C"]));
    let list = names.into_allow_list().unwrap();
    let list: Vec<String> = list.into_iter().map(|descriptor| descriptor.name).collect();
    assert_eq!(list, texts(&["B", "A", "C"]));
}

#[test]
fn repeated_entries_are_counted_once_in_every_category() {
    let resolver = PathResolver::new();
    let ctx = context(HostPlatform::Linux);
    let paths = texts(&["/a", "{common:plugin-data}/x", "/a", "/var/plg/42/x", "/b", "/a"]);
    let grant = path_permission(&resolver, &paths, &ctx).unwrap();
    assert_eq!(paths_of(&grant), texts(&["/a", "/var/plg/42/x", "/b"]));
    let hosts = texts(&["example.com", "example.com:80", "EXAMPLE.com", "example.com:80"]);
    let grant = net_permission(&hosts).unwrap();
    assert_eq!(
        hosts_of(&grant),
        vec![("example.com".to_string(), None), ("example.com".to_string(), Some(80))]
    );
    let grant = env_permission(&texts(&["HOME", "home", "HOME"]));
    assert_eq!(grant.len(), 2);
    let grant = sys_permission(&texts(&["uid", "gid", "uid", "userInfo", "username"])).unwrap();
    assert_eq!(kinds_of(&grant), texts(&["uid", "gid", "userInfo"]));
    let programs = ExecPermissions {
        executable: texts(&["/bin/tool", "/bin/tool"]),
        command: texts(&["tool", "tool", "/bin/tool"]),
    };
    let grant = run_permission(&resolver, &programs, &ctx).unwrap();
    assert_eq!(programs_of(&grant), texts(&["path /bin/tool", "command tool", "command /bin/tool"]));
}

#[test]
fn command_and_path_of_one_text_are_two_descriptors() {
    let resolver = PathResolver::new();
    let programs = ExecPermissions { executable: texts(&["git"]), command: texts(&["git"]) };
    let grant = run_permission(&resolver, &programs, &context(HostPlatform::Linux)).unwrap();
    assert_eq!(grant.len(), 2);
    assert!(grant.contains(&RunDescriptor::Path("git".to_string())));
    assert!(grant.contains(&RunDescriptor::Command("git".to_string())));
}

#[test]
fn command_is_taken_as_it_is_written() {
    let resolver = PathResolver::new();
    let programs = ExecPermissions { executable: vec![], command: texts(&["{foo:bar}", "C:\\git.exe"]) };
    let grant = run_permission(&resolver, &programs, &context(HostPlatform::Linux)).unwrap();
    assert_eq!(programs_of(&grant), texts(&["command {foo:bar}", "command C:\\git.exe"]));
}

#[test]
fn unknown_variable_in_an_executable_fails() {
    let resolver = PathResolver::new();
    let programs = ExecPermissions { executable: texts(&["{foo:bar}/tool"]), command: texts(&["git"]) };
    match run_permission(&resolver, &programs, &context(HostPlatform::Linux)) {
        Err(ConfigError::UnknownPermissionVariable { entry }) => assert_eq!(entry, "{foo:bar}/tool"),
        other => panic!("expected an unknown variable, got {:?}", other.map(|set| programs_of(&set))),
    }
}

#[test]
fn network_entries_are_read_as_host_and_port() {
    let grant = net_permission(&texts(&["Example.COM:443", "127.0.0.1:8000", "[::1]:53", "localhost"])).unwrap();
    assert_eq!(
        hosts_of(&grant),
        vec![
            ("example.com".to_string(), Some(443)),
            ("127.0.0.1".to_string(), Some(8000)),
            ("[::1]".to_string(), Some(53)),
            ("localhost".to_string(), None),
        ]
    );
}

#[test]
fn malformed_network_entry_fails_with_the_entry() {
    for entry in ["http://example.com", "example.com:", "example.com:port", "[::1", ""] {
        match net_permission(&texts(&["example.com", entry])) {
            Err(ConfigError::MalformedDescriptor { entry: reported, category }) => {
                assert_eq!(reported, entry);
                assert_eq!(category, Category::Network);
            }
            other => panic!("expected a malformed descriptor for {:?}, got {:?}", entry, other.map(|set| hosts_of(&set))),
        }
    }
}

#[test]
fn system_entries_are_the_names_of_known_groups() {
    let all = [
        "hostname", "inspector", "osRelease", "osUptime", "loadavg", "networkInterfaces", "systemMemoryInfo",
        "uid", "gid", "cpus", "homedir", "getegid", "statfs", "getPriority", "setPriority", "userInfo",
        "setegid", "seteuid", "setgid", "setuid", "ca", "umask",
    ];
    let grant = sys_permission(&texts(&all)).unwrap();
    assert_eq!(kinds_of(&grant), texts(&all));
    let grant = sys_permission(&texts(&["username"])).unwrap();
    assert_eq!(kinds_of(&grant), texts(&["userInfo"]));
    for entry in ["", "Hostname", "hostname ", "user-info"] {
        match SysDescriptor::parse(entry) {
            Err(ConfigError::MalformedDescriptor { entry: reported, category }) => {
                assert_eq!(reported, entry);
                assert_eq!(category, Category::System);
            }
            other => panic!("expected a malformed descriptor for {:?}, got {:?}", entry, other),
        }
    }
}

#[test]
fn environment_names_are_taken_as_they_are_written() {
    let grant = env_permission(&texts(&["HOME", "Path", "AWS_*", " spaced "]));
    let names: Vec<String> = (0..grant.len()).map(|at| grant.get(at).unwrap().name.clone()).collect();
    assert_eq!(names, texts(&["HOME", "Path", "AWS_*", " spaced "]));
}

#[test]
fn first_fault_in_the_order_of_categories_is_reported() {
    let mut manifest = empty_manifest();
    manifest.system = texts(&["bogus"]);
    manifest.network = texts(&["http://example.com"]);
    manifest.execute.executable = texts(&["{foo:bar}"]);
    let ctx = context(HostPlatform::Linux);
    match compile(&manifest, &ctx) {
        Err(ConfigError::MalformedDescriptor { entry, category }) => {
            assert_eq!(entry, "http://example.com");
            assert_eq!(category, Category::Network);
        }
        other => panic!("expected the network fault, got {:?}", other.map(|policy| summary(&policy))),
    }
    manifest.filesystem.write = texts(&["{a:b}", "{c:d}"]);
    match compile(&manifest, &ctx) {
        Err(ConfigError::UnknownPermissionVariable { entry }) => assert_eq!(entry, "{a:b}"),
        other => panic!("expected the write fault, got {:?}", other.map(|policy| summary(&policy))),
    }
    manifest.filesystem.write = vec![];
    manifest.network = vec![];
    match compile(&manifest, &ctx) {
        Err(ConfigError::MalformedDescriptor { entry, category }) => {
            assert_eq!(entry, "bogus");
            assert_eq!(category, Category::System);
        }
        other => panic!("expected the system fault, got {:?}", other.map(|policy| summary(&policy))),
    }
}

#[test]
fn resolve_paths_keeps_repeats_and_order() {
    let resolver = PathResolver::new();
    let entries = texts(&["/b", "{windows:user-home}", "/a", "/b"]);
    let paths = resolve_paths(&resolver, &entries, &context(HostPlatform::Linux)).unwrap();
    assert_eq!(paths, texts(&["/b", "/a", "/b"]));
}

#[test]
fn error_message_ends_in_the_entry() {
    let unknown = ConfigError::UnknownPermissionVariable { entry: "{foo:bar}".to_string() };
    assert_eq!(
        unknown.message(),
        "Trying to load plugin with unknown variable in path in manifest permissions: {foo:bar}"
    );
    assert_eq!(unknown.entry(), "{foo:bar}");
    let malformed = ConfigError::MalformedDescriptor { entry: "x!".to_string(), category: Category::System };
    assert_eq!(malformed.message(), "Trying to load plugin with malformed system permission in manifest: x!");
    let malformed = ConfigError::MalformedDescriptor { entry: "x!".to_string(), category: Category::Network };
    assert_eq!(malformed.message(), "Trying to load plugin with malformed network permission in manifest: x!");
}

#[test]
fn descriptor_set_grows_by_new_descriptors_only() {
    let mut set: CategoryGrant<PathDescriptor> = CategoryGrant::new();
    assert!(set.is_empty());
    assert!(set.insert(PathDescriptor { path: "/a".to_string() }));
    assert!(set.insert(PathDescriptor { path: "/b".to_string() }));
    assert!(!set.insert(PathDescriptor { path: "/a".to_string() }));
    assert_eq!(set.len(), 2);
    assert!(set.contains(&PathDescriptor { path: "/b".to_string() }));
    assert!(!set.contains(&PathDescriptor { path: "/c".to_string() }));
    assert_eq!(set.get(0).unwrap().path, "/a");
    assert_eq!(set.get(1).unwrap().path, "/b");
    assert!(set.get(2).is_none());
}

#[test]
fn net_descriptors_differ_by_host_or_port() {
    let mut set: CategoryGrant<NetDescriptor> = CategoryGrant::new();
    assert!(set.insert(NetDescriptor { host: "a".to_string(), port: None }));
    assert!(set.insert(NetDescriptor { host: "a".to_string(), port: Some(1) }));
    assert!(set.insert(NetDescriptor { host: "b".to_string(), port: Some(1) }));
    assert!(!set.insert(NetDescriptor { host: "a".to_string(), port: Some(1) }));
    assert!(!set.insert(NetDescriptor { host: "a".to_string(), port: None }));
    assert_eq!(set.len(), 3);
}
