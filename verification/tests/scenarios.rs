//! Whole resolutions against a host that is held in memory.

use css_variables::cache::{list_cached_versions, prune_targets, DirEntry, CACHE_DIR_PREFIX};
use css_variables::channel::{
    classify_spec, entry_point_command, first_step, needs_latest, path_binary_target,
    step_after_install, step_after_query, InstallStep,
};
use css_variables::command::Command;
use css_variables::dev_build::{dev_build_locations, newest_build, BuildCandidate};
use css_variables::launch::launch_command;
use css_variables::probe::{probe_next, probe_start, version_flag, ProbeOutput, ProbeStep};
use css_variables::release::{binary_file_name, Arch, Asset, Platform, ReleaseInfo};
use css_variables::release_tier::{
    release_begin, release_next, ReleaseAttempt, ReleaseReply, ReleaseStep,
};
use css_variables::resolver::{
    Answer, PathCandidate, ReleaseOutcome, ResolveError, Resolved, ResolvedBinary, Resolver, Step,
    Tier,
};
use css_variables::search::BinarySearch;
use std::collections::BTreeMap;

const ENTRY_POINT: &str = "node_modules/css-variable-lsp/server.js";

/// A machine, a registry and a package manager, all made up.
struct Host {
    platform: Platform,
    arch: Arch,
    /// Every file and directory below the working directory: path, whether it
    /// is a directory, and when it was modified.
    disk: BTreeMap<String, (bool, u64)>,
    registry: Result<ReleaseInfo, String>,
    /// The files that unpacking any archive creates, relative to its target.
    archive: Vec<String>,
    /// The binary on the search path, and what it prints for `--version`.
    on_path: Option<(String, String)>,
    version_setting: String,
    package_latest: Result<String, String>,
    package_installed: Option<String>,
    install_works: bool,
    /// What was done, in order.
    log: Vec<String>,
}

impl Host {
    fn new() -> Host {
        Host {
            platform: Platform::Linux,
            arch: Arch::X8664,
            disk: BTreeMap::new(),
            registry: Err("registry unreachable".to_string()),
            archive: vec!["css-variable-lsp".to_string()],
            on_path: None,
            version_setting: "latest".to_string(),
            package_latest: Err("offline".to_string()),
            package_installed: None,
            install_works: false,
            log: Vec::new(),
        }
    }

    fn add_file(&mut self, path: &str, modified: u64) {
        let mut parent = String::new();
        let parts: Vec<&str> = path.split('/').collect();
        for part in &parts[..parts.len() - 1] {
            if !parent.is_empty() {
                parent.push('/');
            }
            parent.push_str(part);
            if *part != ".." {
                self.disk.insert(parent.clone(), (true, 0));
            }
        }
        self.disk.insert(path.to_string(), (false, modified));
    }

    fn is_file(&self, path: &str) -> bool {
        matches!(self.disk.get(path), Some((false, _)))
    }

    fn list(&self, dir: &str) -> Vec<DirEntry> {
        self.disk
            .iter()
            .filter_map(|(path, (is_dir, _))| {
                let name = if dir == "." {
                    path.as_str()
                } else {
                    path.strip_prefix(dir)?.strip_prefix('/')?
                };
                if name.contains('/') || name.starts_with("..") {
                    return None;
                }
                Some(DirEntry { name: name.to_string(), is_dir: *is_dir })
            })
            .collect()
    }

    fn search(&mut self, mut search: BinarySearch) -> Option<String> {
        while let Some(dir) = search.next_dir() {
            let listing = self.list(&dir);
            if let Some(found) = search.visit(&dir, &listing) {
                return Some(found);
            }
        }
        None
    }

    fn dev_build(&self) -> Option<String> {
        let found: Vec<BuildCandidate> = dev_build_locations(self.platform)
            .into_iter()
            .filter_map(|path| match self.disk.get(&path) {
                Some((false, modified)) => Some(BuildCandidate { path, modified: *modified }),
                _ => None,
            })
            .collect();
        newest_build(&found)
    }

    fn latest_release(&mut self) -> ReleaseOutcome {
        let name = binary_file_name(self.platform);
        let mut step = release_begin(self.platform, self.arch);
        loop {
            let attempt = match step {
                ReleaseStep::Done(outcome) => return outcome,
                ReleaseStep::Ask(attempt) => attempt,
            };
            let reply = match &attempt {
                ReleaseAttempt::Metadata { .. } => {
                    self.log.push("metadata".to_string());
                    ReleaseReply::Metadata(self.registry.clone())
                }
                ReleaseAttempt::Lookup { dir, .. } | ReleaseAttempt::Locate { dir, .. } => {
                    ReleaseReply::Binary(self.search(BinarySearch::new(dir, &name)))
                }
                ReleaseAttempt::Download { download, .. } => {
                    self.log.push(format!("download {} to {}", download.url, download.path));
                    for file in self.archive.clone() {
                        self.add_file(&format!("{}/{}", download.path, file), 50);
                    }
                    ReleaseReply::Downloaded(Ok(()))
                }
                ReleaseAttempt::MarkExecutable { binary, .. } => {
                    self.log.push(format!("mark {}", binary));
                    ReleaseReply::Marked(Ok(()))
                }
                ReleaseAttempt::Prune { dir, .. } => {
                    for name in prune_targets(&self.list("."), CACHE_DIR_PREFIX, dir) {
                        self.log.push(format!("remove {}", name));
                        let below = format!("{}/", name);
                        self.disk.retain(|path, _| *path != name && !path.starts_with(&below));
                    }
                    ReleaseReply::Pruned
                }
            };
            step = release_next(attempt, reply);
        }
    }

    fn any_cached(&mut self) -> Option<String> {
        let roots = list_cached_versions(&self.list("."), CACHE_DIR_PREFIX)
            .into_iter()
            .map(|dir| dir.path)
            .collect();
        let name = binary_file_name(self.platform);
        self.search(BinarySearch::across(&roots, &name))
    }

    fn probe(&mut self, path: &str, prints: &str) -> Option<String> {
        let mut attempt = probe_start();
        loop {
            self.log.push(format!("run {} {}", path, version_flag(attempt)));
            let output = ProbeOutput {
                status: Some(0),
                stdout: prints.to_string(),
                stderr: String::new(),
            };
            match probe_next(attempt, &Some(output)) {
                ProbeStep::Run(next) => attempt = next,
                ProbeStep::Done(version) => return version,
            }
        }
    }

    fn ambient(&mut self) -> Answer {
        let candidate = self.on_path.clone().map(|(path, prints)| PathCandidate {
            version: self.probe(&path, &prints),
            path,
        });
        let spec = classify_spec(&self.version_setting);
        let latest =
            if needs_latest(&spec) { self.package_latest.clone() } else { Err(String::new()) };
        Answer::AmbientPath { candidate, target: path_binary_target(&spec, &latest) }
    }

    fn install(&mut self, version: &str) -> Result<(), String> {
        self.log.push(format!("install {}", version));
        if self.install_works {
            self.package_installed = Some(version.to_string());
            self.add_file(ENTRY_POINT, 60);
            Ok(())
        } else {
            Err("install failed".to_string())
        }
    }

    fn alt_channel(&mut self) -> Result<Command, String> {
        let installed = self.package_installed.clone();
        let mut step = first_step(&classify_spec(&self.version_setting), &installed);
        loop {
            step = match step {
                InstallStep::QueryLatest => {
                    step_after_query(&installed, self.package_latest.clone())
                }
                InstallStep::Install { version, keep_installed } => {
                    step_after_install(keep_installed, self.install(&version))
                }
                InstallStep::Ready => break,
                InstallStep::Fail(message) => return Err(message),
            };
        }
        entry_point_command(
            "/opt/node",
            ENTRY_POINT,
            self.is_file(ENTRY_POINT),
            &Vec::new(),
            &Vec::new(),
        )
        .map_err(|error| format!("{:?}", error))
    }

    fn resolve(
        &mut self,
        resolver: &mut Resolver,
        override_path: Option<&str>,
    ) -> Result<Resolved, ResolveError> {
        let mut step = resolver.begin(override_path.map(|p| p.to_string()));
        loop {
            let resolution = match step {
                Step::Done(result) => return result,
                Step::Ask(resolution) => resolution,
            };
            self.log.push(format!("ask {:?}", resolution.waiting_for));
            let answer = match resolution.waiting_for {
                Tier::Override | Tier::DevBuild => Answer::DevBuild(self.dev_build()),
                Tier::ValidatedCache => Answer::Remembered(
                    resolver.remembered.as_deref().is_some_and(|path| self.is_file(path)),
                ),
                Tier::LatestRelease => Answer::LatestRelease(self.latest_release()),
                Tier::AnyCached => Answer::AnyCached(self.any_cached()),
                Tier::AmbientPath => self.ambient(),
                Tier::AltChannel => Answer::AltChannel(self.alt_channel()),
            };
            step = resolver.advance(resolution, answer);
        }
    }
}

fn release(version: &str) -> ReleaseInfo {
    let asset = |name: &str| Asset {
        name: name.to_string(),
        download_url: format!("https://example.test/{}/{}", version, name),
    };
    ReleaseInfo {
        version: version.to_string(),
        assets: vec![asset("checksums.txt"), asset("css-variable-lsp-linux-x86_64.tar.gz")],
    }
}

fn binary(path: &str, tier: Tier) -> Result<Resolved, ResolveError> {
    Ok(Resolved::Binary(ResolvedBinary { path: path.to_string(), tier }))
}

#[test]
fn scenario_override_is_returned_verbatim() {
    let mut host = Host::new();
    host.platform = Platform::Windows;
    host.arch = Arch::X86;
    let result = host.resolve(&mut Resolver::new(), Some("C:\\tools\\server.exe"));
    assert_eq!(result, binary("C:\\tools\\server.exe", Tier::Override));
    assert!(host.log.is_empty());
}

#[test]
fn scenario_fresh_release_is_downloaded_and_old_ones_pruned() {
    let mut host = Host::new();
    host.registry = Ok(release("v0.1.9"));
    host.archive = vec!["README.md".to_string(), "bin/css-variable-lsp".to_string()];
    host.add_file("css-variable-lsp-0.1.7/css-variable-lsp", 10);
    host.add_file("css-variable-lsp-0.1.8/css-variable-lsp", 20);
    host.add_file("node_modules/other/index.js", 5);
    let mut resolver = Resolver::new();
    let result = host.resolve(&mut resolver, None);
    assert_eq!(
        result,
        binary("css-variable-lsp-0.1.9/bin/css-variable-lsp", Tier::LatestRelease)
    );
    assert_eq!(
        host.log,
        vec![
            "ask DevBuild",
            "ask LatestRelease",
            "metadata",
            "download https://example.test/v0.1.9/css-variable-lsp-linux-x86_64.tar.gz to css-variable-lsp-0.1.9",
            "mark css-variable-lsp-0.1.9/bin/css-variable-lsp",
            "remove css-variable-lsp-0.1.7",
            "remove css-variable-lsp-0.1.8",
        ]
    );
    assert!(host.is_file("css-variable-lsp-0.1.9/bin/css-variable-lsp"));
    assert!(!host.is_file("css-variable-lsp-0.1.8/css-variable-lsp"));
    assert!(host.is_file("node_modules/other/index.js"));
    assert_eq!(
        resolver.remembered,
        Some("css-variable-lsp-0.1.9/bin/css-variable-lsp".to_string())
    );
}

#[test]
fn scenario_release_already_cached_is_not_downloaded_again() {
    let mut host = Host::new();
    host.registry = Ok(release("0.1.9"));
    host.add_file("css-variable-lsp-0.1.9/css-variable-lsp", 10);
    host.add_file("css-variable-lsp-0.1.8/css-variable-lsp", 20);
    let result = host.resolve(&mut Resolver::new(), None);
    assert_eq!(result, binary("css-variable-lsp-0.1.9/css-variable-lsp", Tier::LatestRelease));
    assert_eq!(host.log, vec!["ask DevBuild", "ask LatestRelease", "metadata"]);
    assert!(host.is_file("css-variable-lsp-0.1.8/css-variable-lsp"));
}

#[test]
fn scenario_cached_version_is_used_when_the_registry_is_down() {
    let mut host = Host::new();
    host.add_file("css-variable-lsp-0.9.0/css-variable-lsp", 10);
    host.add_file("css-variable-lsp-0.10.0/deep/down/css-variable-lsp", 20);
    host.add_file("css-variable-lsp-nightly/css-variable-lsp", 30);
    host.on_path = Some(("/usr/bin/css-variable-lsp".to_string(), "0.11.0".to_string()));
    let mut resolver = Resolver::new();
    let result = host.resolve(&mut resolver, None);
    assert_eq!(
        result,
        binary("css-variable-lsp-0.10.0/deep/down/css-variable-lsp", Tier::AnyCached)
    );
    assert_eq!(host.log, vec!["ask DevBuild", "ask LatestRelease", "metadata", "ask AnyCached"]);
}

#[test]
fn scenario_cached_directory_without_binary_is_passed_over() {
    let mut host = Host::new();
    host.add_file("css-variable-lsp-0.10.0/README.md", 20);
    host.add_file("css-variable-lsp-0.9.0/css-variable-lsp", 10);
    let result = host.resolve(&mut Resolver::new(), None);
    assert_eq!(result, binary("css-variable-lsp-0.9.0/css-variable-lsp", Tier::AnyCached));
}

#[test]
fn scenario_stale_path_binary_gives_way_to_the_alternate_channel() {
    let mut host = Host::new();
    host.on_path =
        Some(("/usr/bin/css-variable-lsp".to_string(), "css-variable-lsp 0.1.5".to_string()));
    host.version_setting = "0.1.6".to_string();
    host.install_works = true;
    let mut resolver = Resolver::new();
    let result = host.resolve(&mut resolver, None);
    assert_eq!(
        result,
        Ok(Resolved::Command(Command {
            command: "/opt/node".to_string(),
            args: vec![ENTRY_POINT.to_string()],
            env: vec![("PATH".to_string(), "/opt/homebrew/bin:/usr/local/bin".to_string())],
        }))
    );
    assert_eq!(
        host.log,
        vec![
            "ask DevBuild",
            "ask LatestRelease",
            "metadata",
            "ask AnyCached",
            "ask AmbientPath",
            "run /usr/bin/css-variable-lsp --version",
            "ask AltChannel",
            "install 0.1.6",
        ]
    );
    assert_eq!(resolver.remembered, None);
}

#[test]
fn scenario_path_binary_of_the_latest_version_is_launched_in_a_shell() {
    let mut host = Host::new();
    host.on_path =
        Some(("/usr/bin/css-variable-lsp".to_string(), "css-variable-lsp 0.1.6".to_string()));
    host.package_latest = Ok("0.1.6".to_string());
    let resolved = host.resolve(&mut Resolver::new(), None).unwrap();
    assert_eq!(
        resolved,
        Resolved::Binary(ResolvedBinary {
            path: "/usr/bin/css-variable-lsp".to_string(),
            tier: Tier::AmbientPath,
        })
    );
    let command = launch_command(resolved, host.platform, &Vec::new(), &Vec::new());
    assert_eq!(command.command, "/bin/sh");
    assert_eq!(
        command.args,
        vec![
            "-lc",
            "\"/usr/bin/css-variable-lsp\" --stdio 2>>\"/tmp/css-variables-lsp.log\"",
        ]
    );
}

#[test]
fn scenario_dev_build_newest_wins() {
    let mut host = Host::new();
    host.registry = Ok(release("0.1.9"));
    host.add_file("../css-variable-lsp/target/release/css-variable-lsp", 100);
    host.add_file("../css-variable-lsp/target/debug/css-variable-lsp", 300);
    host.add_file("../../css-variable-lsp/target/release/css-variable-lsp", 200);
    let result = host.resolve(&mut Resolver::new(), None);
    assert_eq!(result, binary("../css-variable-lsp/target/debug/css-variable-lsp", Tier::DevBuild));
    assert_eq!(host.log, vec!["ask DevBuild"]);
}

#[test]
fn scenario_remembered_path_is_validated() {
    let mut host = Host::new();
    host.registry = Ok(release("0.2.0"));
    let mut resolver = Resolver::new();
    let first = host.resolve(&mut resolver, None);
    assert_eq!(first, binary("css-variable-lsp-0.2.0/css-variable-lsp", Tier::LatestRelease));

    host.registry = Err("registry unreachable".to_string());
    host.log.clear();
    let second = host.resolve(&mut resolver, None);
    assert_eq!(second, binary("css-variable-lsp-0.2.0/css-variable-lsp", Tier::ValidatedCache));
    assert_eq!(host.log, vec!["ask DevBuild", "ask ValidatedCache"]);

    host.disk.clear();
    host.log.clear();
    let third = host.resolve(&mut resolver, None);
    assert_eq!(
        third,
        Err(ResolveError::Exhausted { release_error: "registry unreachable".to_string() })
    );
    assert_eq!(
        host.log,
        vec![
            "ask DevBuild",
            "ask ValidatedCache",
            "ask LatestRelease",
            "metadata",
            "ask AnyCached",
            "ask AmbientPath",
            "ask AltChannel",
        ]
    );
}

#[test]
fn scenario_unsupported_architecture_is_fatal() {
    let mut host = Host::new();
    host.arch = Arch::X86;
    host.registry = Ok(release("0.2.0"));
    host.add_file("css-variable-lsp-0.1.0/css-variable-lsp", 1);
    host.install_works = true;
    let result = host.resolve(&mut Resolver::new(), None);
    assert_eq!(result, Err(ResolveError::Unsupported));
    assert_eq!(host.log, vec!["ask DevBuild", "ask LatestRelease", "metadata"]);
}

#[test]
fn scenario_alternate_channel_without_entry_point_fails() {
    let mut host = Host::new();
    host.package_installed = Some("0.1.6".to_string());
    host.version_setting = "0.1.6".to_string();
    let result = host.resolve(&mut Resolver::new(), None);
    assert_eq!(
        result,
        Err(ResolveError::Exhausted { release_error: "registry unreachable".to_string() })
    );
    assert!(!host.log.contains(&"install 0.1.6".to_string()));
}
