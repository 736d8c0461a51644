use std::collections::{BTreeMap, BTreeSet};

use zed_elixir::failure::{Failure, FailureKind, InstallStep};
use zed_elixir::identity::{AssetNameTemplate, ChecksumPolicy, InstalledFile, ToolIdentity};
use zed_elixir::language_servers::{ElixirLs, Expert, Lexical};
use zed_elixir::platform::{Architecture, Os, Platform};
use zed_elixir::protocol::{
    Command, CommandSettings, Event, FileType, InstallationStatus, Reply, Request,
    ResolvedCommand,
};
use zed_elixir::release::{Asset, Release};
use zed_elixir::resolver::BinaryResolver;
use zed_elixir::store::DirEntry;

/// A host that lives in memory: a working directory, a search path, settings and a release
/// index, none of them real.
struct Host {
    settings: Option<CommandSettings>,
    on_path: Option<String>,
    release: Result<Release, String>,
    /// What each address unpacks to: paths below the destination.
    archives: BTreeMap<String, Vec<String>>,
    /// What each address downloads as.
    blobs: BTreeMap<String, Vec<u8>>,
    /// The regular files of the working directory, by path.
    files: BTreeMap<String, Vec<u8>>,
    /// The directories of the working directory that hold nothing.
    empty_dirs: BTreeSet<String>,
    executable: BTreeSet<String>,
    /// Entries of the working directory whose names are not Unicode.
    nameless_entries: usize,
    fail_make_executable: bool,
    /// The directories that cannot be created.
    locked: BTreeSet<String>,
    /// The files that cannot be read or moved.
    unreadable: BTreeSet<String>,
    log: Vec<Request>,
}

fn plain(path: &str) -> String {
    path.strip_prefix("./").unwrap_or(path).to_string()
}

impl Host {
    fn new() -> Host {
        Host {
            settings: None,
            on_path: None,
            release: Err("offline".to_string()),
            archives: BTreeMap::new(),
            blobs: BTreeMap::new(),
            files: BTreeMap::new(),
            empty_dirs: BTreeSet::new(),
            executable: BTreeSet::new(),
            nameless_entries: 0,
            fail_make_executable: false,
            locked: BTreeSet::new(),
            unreadable: BTreeSet::new(),
            log: Vec::new(),
        }
    }

    fn with_file(mut self, path: &str) -> Host {
        self.files.insert(path.to_string(), Vec::new());
        self
    }

    fn with_release(mut self, version: &str, assets: &[(&str, &str)]) -> Host {
        self.release = Ok(Release {
            version: version.to_string(),
            assets: assets
                .iter()
                .map(|(name, url)| Asset { name: name.to_string(), download_url: url.to_string() })
                .collect(),
        });
        self
    }

    fn with_archive(mut self, url: &str, files: &[&str]) -> Host {
        self.archives.insert(url.to_string(), files.iter().map(|file| file.to_string()).collect());
        self
    }

    fn with_blob(mut self, url: &str, bytes: &[u8]) -> Host {
        self.blobs.insert(url.to_string(), bytes.to_vec());
        self
    }

    fn entries(&self) -> BTreeSet<String> {
        let mut names = BTreeSet::new();
        for path in self.files.keys().chain(self.empty_dirs.iter()) {
            names.insert(path.split('/').next().unwrap().to_string());
        }
        names
    }

    fn is_file(&self, path: &str) -> bool {
        self.files.contains_key(&plain(path))
    }

    fn remove(&mut self, name: &str) {
        let prefix = format!("{}/", name);
        self.files.retain(|path, _| path != name && !path.starts_with(&prefix));
        self.empty_dirs.retain(|path| path != name && !path.starts_with(&prefix));
        self.executable.retain(|path| path != name && !path.starts_with(&prefix));
    }

    fn perform(&mut self, request: Request) -> Event {
        self.log.push(request.clone());
        match request {
            Request::ReadSettings { .. } => Event::Settings { binary: self.settings.clone() },
            Request::Which { .. } => Event::Located { path: self.on_path.clone() },
            Request::IsFile { path } => Event::FileProbed { is_file: self.is_file(&path) },
            Request::Report { .. } => Event::Acknowledged,
            Request::LatestRelease { .. } => Event::Release { release: self.release.clone() },
            Request::List { probe } => {
                let mut entries: Vec<DirEntry> = self
                    .entries()
                    .into_iter()
                    .map(|name| DirEntry {
                        holds_binary: probe
                            .as_ref()
                            .is_some_and(|probe| self.is_file(&format!("{}/{}", name, probe))),
                        name: Some(name),
                    })
                    .collect();
                for _ in 0..self.nameless_entries {
                    entries.push(DirEntry { name: None, holds_binary: true });
                }
                Event::Listing { entries }
            }
            Request::CreateDir { path } if self.locked.contains(&path) => {
                Event::Completed { outcome: Err("read-only".to_string()) }
            }
            Request::CreateDir { path } => {
                if !self.files.keys().any(|file| file.starts_with(&format!("{}/", path))) {
                    self.empty_dirs.insert(path);
                }
                Event::Completed { outcome: Ok(()) }
            }
            Request::Download { url, destination, file_type } => match file_type {
                FileType::Zip => match self.archives.get(&url).cloned() {
                    Some(files) => {
                        for file in files {
                            self.files.insert(format!("{}/{}", destination, file), Vec::new());
                        }
                        Event::Completed { outcome: Ok(()) }
                    }
                    None => Event::Completed { outcome: Err("not found".to_string()) },
                },
                FileType::Uncompressed => match self.blobs.get(&url).cloned() {
                    Some(bytes) => {
                        self.files.insert(destination, bytes);
                        Event::Completed { outcome: Ok(()) }
                    }
                    None => Event::Completed { outcome: Err("not found".to_string()) },
                },
            },
            Request::ReadFile { path } if self.unreadable.contains(&path) => {
                Event::Contents { contents: Err("denied".to_string()) }
            }
            Request::ReadFile { path } => Event::Contents {
                contents: self.files.get(&path).cloned().ok_or("no such file".to_string()),
            },
            Request::Rename { from, .. } if self.unreadable.contains(&from) => {
                Event::Completed { outcome: Err("denied".to_string()) }
            }
            Request::Rename { from, to } => match self.files.remove(&from) {
                Some(bytes) => {
                    self.files.insert(to, bytes);
                    Event::Completed { outcome: Ok(()) }
                }
                None => Event::Completed { outcome: Err("no such file".to_string()) },
            },
            Request::MakeExecutable { path } => {
                if self.fail_make_executable || !self.is_file(&path) {
                    Event::Completed { outcome: Err("not permitted".to_string()) }
                } else {
                    self.executable.insert(path);
                    Event::Completed { outcome: Ok(()) }
                }
            }
            Request::Remove { names } => {
                for name in names {
                    self.remove(&name);
                }
                Event::Acknowledged
            }
        }
    }

    fn asked_the_network(&self) -> bool {
        self.log.iter().any(|request| {
            matches!(request, Request::LatestRelease { .. } | Request::Download { .. })
        })
    }

    fn changed_files(&self) -> bool {
        self.log.iter().any(|request| {
            matches!(
                request,
                Request::CreateDir { .. }
                    | Request::Download { .. }
                    | Request::Rename { .. }
                    | Request::MakeExecutable { .. }
                    | Request::Remove { .. }
            )
        })
    }
}

fn resolve(
    resolver: &mut BinaryResolver,
    host: &mut Host,
    platform: Platform,
) -> Result<ResolvedCommand, Failure> {
    let mut event = Event::Start { platform };
    loop {
        match resolver.step(event) {
            Reply::Ask(request) => event = host.perform(request),
            Reply::Done(outcome) => {
                assert!(resolver.is_idle());
                return outcome;
            }
        }
    }
}

fn alpha() -> ToolIdentity {
    ToolIdentity {
        id: "alpha".to_string(),
        repository: "example/alpha".to_string(),
        asset_name_template: AssetNameTemplate::VersionedArchive,
        requires_prerelease: false,
        checksum_policy: ChecksumPolicy::Unverified,
        binary: InstalledFile { stem: "bin/alpha".to_string(), script: false },
        helpers: vec![InstalledFile { stem: "bin/helper".to_string(), script: true }],
        supports_windows: true,
    }
}

fn linux() -> Platform {
    Platform { os: Os::Linux, arch: Architecture::X8664 }
}

fn alpha_host() -> Host {
    Host::new()
        .with_release("1.2.0", &[("alpha-1.2.0.zip", "https://example.com/alpha-1.2.0.zip")])
        .with_archive("https://example.com/alpha-1.2.0.zip", &["bin/alpha", "bin/helper.sh"])
}

fn names(list: &[&str]) -> BTreeSet<String> {
    list.iter().map(|name| name.to_string()).collect()
}

#[test]
fn configured_path_wins_over_everything() {
    let mut host = alpha_host().with_file("alpha-1.0.0/bin/alpha");
    host.settings = Some(CommandSettings {
        path: Some("/opt/alpha/bin/alpha".to_string()),
        arguments: Some(vec!["--stdio".to_string()]),
    });
    host.on_path = Some("/usr/bin/alpha".to_string());
    let mut resolver = BinaryResolver::new(alpha());
    let command = resolve(&mut resolver, &mut host, linux()).unwrap();
    assert_eq!(
        command,
        ResolvedCommand {
            path: "/opt/alpha/bin/alpha".to_string(),
            args: Some(vec!["--stdio".to_string()]),
        }
    );
    assert_eq!(host.log, vec![Request::ReadSettings { server: "alpha".to_string() }]);
    assert_eq!(resolver.cached_binary_path(), None);
}

#[test]
fn configured_path_wins_on_an_unsupported_platform() {
    let mut host = Host::new();
    host.settings =
        Some(CommandSettings { path: Some("/opt/lexical".to_string()), arguments: None });
    let mut lexical = Lexical::new();
    let windows = Platform { os: Os::Windows, arch: Architecture::X8664 };
    let mut event = Event::Start { platform: windows };
    let command = loop {
        match lexical.language_server_command(event) {
            Reply::Ask(request) => event = host.perform(request),
            Reply::Done(outcome) => break outcome.unwrap(),
        }
    };
    assert_eq!(
        command,
        Command { command: "/opt/lexical".to_string(), args: Vec::new(), env: Vec::new() }
    );
    assert!(!host.asked_the_network());
}

#[test]
fn search_path_is_used_without_the_network() {
    let mut host = alpha_host();
    host.settings = Some(CommandSettings { path: None, arguments: Some(vec!["-v".to_string()]) });
    host.on_path = Some("/usr/bin/alpha".to_string());
    let mut resolver = BinaryResolver::new(alpha());
    let command = resolve(&mut resolver, &mut host, linux()).unwrap();
    assert_eq!(
        command,
        ResolvedCommand { path: "/usr/bin/alpha".to_string(), args: Some(vec!["-v".to_string()]) }
    );
    assert_eq!(
        host.log,
        vec![
            Request::ReadSettings { server: "alpha".to_string() },
            Request::Which { name: "alpha".to_string() },
        ]
    );
    assert!(!host.asked_the_network());
    assert!(!host.changed_files());
}

#[test]
fn fresh_install_of_alpha() {
    let mut host = alpha_host();
    let mut resolver = BinaryResolver::new(alpha());
    let command = resolve(&mut resolver, &mut host, linux()).unwrap();
    assert_eq!(command, ResolvedCommand { path: "alpha-1.2.0/bin/alpha".to_string(), args: None });
    assert_eq!(host.entries(), names(&["alpha-1.2.0"]));
    assert!(host.is_file("alpha-1.2.0/bin/alpha"));
    assert!(host.executable.contains("alpha-1.2.0/bin/alpha"));
    assert!(host.executable.contains("alpha-1.2.0/bin/helper.sh"));
    assert_eq!(resolver.cached_binary_path(), Some("alpha-1.2.0/bin/alpha".to_string()));
    assert_eq!(
        host.log,
        vec![
            Request::ReadSettings { server: "alpha".to_string() },
            Request::Which { name: "alpha".to_string() },
            Request::Report {
                server: "alpha".to_string(),
                status: InstallationStatus::CheckingForUpdate,
            },
            Request::LatestRelease {
                repository: "example/alpha".to_string(),
                require_assets: true,
                pre_release: false,
            },
            Request::IsFile { path: "alpha-1.2.0/bin/alpha".to_string() },
            Request::Report {
                server: "alpha".to_string(),
                status: InstallationStatus::Downloading,
            },
            Request::Download {
                url: "https://example.com/alpha-1.2.0.zip".to_string(),
                destination: "alpha-1.2.0".to_string(),
                file_type: FileType::Zip,
            },
            Request::MakeExecutable { path: "alpha-1.2.0/bin/alpha".to_string() },
            Request::MakeExecutable { path: "alpha-1.2.0/bin/helper.sh".to_string() },
            Request::List { probe: None },
            Request::Remove { names: Vec::new() },
        ]
    );
}

#[test]
fn second_resolution_is_a_cache_hit() {
    let mut host = alpha_host();
    let mut resolver = BinaryResolver::new(alpha());
    let first = resolve(&mut resolver, &mut host, linux()).unwrap();
    // The asset disappears from the release index; the installed copy stays.
    host.release = Ok(Release { version: "1.2.0".to_string(), assets: Vec::new() });
    host.log.clear();
    let second = resolve(&mut resolver, &mut host, linux()).unwrap();
    assert_eq!(second, first);
    assert_eq!(second.path, "alpha-1.2.0/bin/alpha");
    assert_eq!(
        host.log,
        vec![
            Request::ReadSettings { server: "alpha".to_string() },
            Request::Which { name: "alpha".to_string() },
            Request::IsFile { path: "alpha-1.2.0/bin/alpha".to_string() },
        ]
    );
    assert!(!host.asked_the_network());
    assert!(!host.changed_files());
}

#[test]
fn a_cached_path_that_is_gone_is_installed_again() {
    let mut host = alpha_host();
    let mut resolver = BinaryResolver::new(alpha());
    resolve(&mut resolver, &mut host, linux()).unwrap();
    host.remove("alpha-1.2.0");
    host.log.clear();
    let command = resolve(&mut resolver, &mut host, linux()).unwrap();
    assert_eq!(command.path, "alpha-1.2.0/bin/alpha");
    assert!(host.asked_the_network());
    assert!(host.is_file("alpha-1.2.0/bin/alpha"));
}

#[test]
fn an_installed_release_is_not_downloaded_again() {
    let mut host =
        alpha_host().with_file("alpha-1.2.0/bin/alpha").with_file("alpha-1.1.0/bin/alpha");
    let mut resolver = BinaryResolver::new(alpha());
    let command = resolve(&mut resolver, &mut host, linux()).unwrap();
    assert_eq!(command.path, "alpha-1.2.0/bin/alpha");
    assert!(!host.changed_files());
    // Nothing was installed, so nothing is collected.
    assert_eq!(host.entries(), names(&["alpha-1.1.0", "alpha-1.2.0"]));
    assert_eq!(resolver.cached_binary_path(), Some("alpha-1.2.0/bin/alpha".to_string()));
}

#[test]
fn install_removes_the_other_versions() {
    let mut host = alpha_host()
        .with_file("alpha-1.0.0/bin/alpha")
        .with_file("alpha-1.1.0/bin/alpha")
        .with_file("alphabet")
        .with_file("beta-0.3.0/bin/beta")
        .with_file("notes.txt");
    host.nameless_entries = 1;
    let mut resolver = BinaryResolver::new(alpha());
    let command = resolve(&mut resolver, &mut host, linux()).unwrap();
    assert_eq!(command.path, "alpha-1.2.0/bin/alpha");
    assert_eq!(host.entries(), names(&["alpha-1.2.0", "beta-0.3.0", "notes.txt"]));
    assert_eq!(
        host.log.last(),
        Some(&Request::Remove {
            names: vec![
                "alpha-1.0.0".to_string(),
                "alpha-1.1.0".to_string(),
                "alphabet".to_string(),
            ]
        })
    );
}

#[test]
fn offline_resolution_falls_back_on_an_installed_copy() {
    let mut host = Host::new()
        .with_file("alpha-0.9.0/README")
        .with_file("alpha-1.1.0/bin/alpha")
        .with_file("alpha-1.2.0/bin/alpha")
        .with_file("beta-1.0.0/bin/alpha");
    host.nameless_entries = 1;
    let mut resolver = BinaryResolver::new(alpha());
    let command = resolve(&mut resolver, &mut host, linux()).unwrap();
    assert_eq!(command.path, "./alpha-1.1.0/bin/alpha");
    assert_eq!(resolver.cached_binary_path(), Some("./alpha-1.1.0/bin/alpha".to_string()));
    assert!(host.log.contains(&Request::List { probe: Some("bin/alpha".to_string()) }));
    assert!(!host.changed_files());
    // The copy that was found is remembered.
    host.log.clear();
    let again = resolve(&mut resolver, &mut host, linux()).unwrap();
    assert_eq!(again.path, "./alpha-1.1.0/bin/alpha");
    assert!(!host.asked_the_network());
}

#[test]
fn offline_resolution_without_a_copy_is_a_network_failure() {
    let mut host = Host::new().with_file("beta-1.0.0/bin/alpha").with_file("alpha-1.0.0/README");
    let mut resolver = BinaryResolver::new(alpha());
    let failure = resolve(&mut resolver, &mut host, linux()).unwrap_err();
    assert_eq!(
        failure,
        Failure { tool: "alpha".to_string(), kind: FailureKind::ReleaseUnavailable }
    );
    assert!(failure.kind.is_network());
    assert_eq!(failure.message(), "alpha: failed to download latest github release");
    assert_eq!(resolver.cached_binary_path(), None);
}

#[test]
fn unsupported_architecture_is_refused_before_the_network() {
    let mut host = Host::new()
        .with_release("nightly", &[("expert_linux_amd64", "https://example.com/expert")])
        .with_blob("https://example.com/expert", b"binary");
    let mut expert = BinaryResolver::new(Expert::identity());
    let failure = resolve(
        &mut expert,
        &mut host,
        Platform { os: Os::Linux, arch: Architecture::X86 },
    )
    .unwrap_err();
    assert_eq!(
        failure,
        Failure {
            tool: "expert".to_string(),
            kind: FailureKind::UnsupportedArchitecture { arch: Architecture::X86 },
        }
    );
    assert!(failure.kind.is_unsupported_platform());
    assert!(!failure.kind.is_network());
    assert_eq!(failure.message(), "expert: unsupported architecture: Architecture::X86");
    assert_eq!(
        host.log,
        vec![
            Request::ReadSettings { server: "expert".to_string() },
            Request::Which { name: "expert".to_string() },
        ]
    );
}

#[test]
fn unsupported_system_is_refused_before_the_network() {
    let mut host = Host::new()
        .with_release("0.7.3", &[("lexical-0.7.3.zip", "https://example.com/lexical.zip")]);
    let mut lexical = BinaryResolver::new(Lexical::identity());
    let failure = resolve(
        &mut lexical,
        &mut host,
        Platform { os: Os::Windows, arch: Architecture::X8664 },
    )
    .unwrap_err();
    assert_eq!(failure.kind, FailureKind::UnsupportedSystem { os: Os::Windows });
    assert_eq!(failure.message(), "lexical: unsupported platform: Os::Windows");
    assert!(!host.asked_the_network());
    assert!(!host.changed_files());
}

#[test]
fn release_without_the_asset_names_the_expected_asset() {
    let mut host = Host::new().with_release(
        "1.2.0",
        &[
            ("alpha-1.2.0.tar.gz", "https://example.com/alpha-1.2.0.tar.gz"),
            ("alpha-1.1.0.zip", "https://example.com/alpha-1.1.0.zip"),
        ],
    );
    let mut resolver = BinaryResolver::new(alpha());
    let failure = resolve(&mut resolver, &mut host, linux()).unwrap_err();
    assert_eq!(
        failure,
        Failure {
            tool: "alpha".to_string(),
            kind: FailureKind::AssetNotFound { asset_name: "alpha-1.2.0.zip".to_string() },
        }
    );
    assert_eq!(failure.message(), "alpha: no asset found matching \"alpha-1.2.0.zip\"");
    assert!(!host.changed_files());
}

#[test]
fn release_without_the_platform_asset_names_the_expected_asset() {
    let mut host = Host::new()
        .with_release("nightly", &[("expert_linux_amd64", "https://example.com/expert")]);
    let mut expert = BinaryResolver::new(Expert::identity());
    let failure = resolve(
        &mut expert,
        &mut host,
        Platform { os: Os::Mac, arch: Architecture::Aarch64 },
    )
    .unwrap_err();
    assert_eq!(
        failure.kind,
        FailureKind::AssetNotFound { asset_name: "expert_darwin_arm64".to_string() }
    );
}

#[test]
fn the_first_asset_of_the_name_is_downloaded() {
    let mut host = Host::new()
        .with_release(
            "1.2.0",
            &[
                ("other.zip", "https://example.com/other"),
                ("alpha-1.2.0.zip", "https://example.com/first"),
                ("alpha-1.2.0.zip", "https://example.com/second"),
            ],
        )
        .with_archive("https://example.com/first", &["bin/alpha", "bin/helper.sh"]);
    let mut resolver = BinaryResolver::new(alpha());
    resolve(&mut resolver, &mut host, linux()).unwrap();
    assert!(host.log.contains(&Request::Download {
        url: "https://example.com/first".to_string(),
        destination: "alpha-1.2.0".to_string(),
        file_type: FileType::Zip,
    }));
}

#[test]
fn failed_download_is_a_network_failure_and_is_not_remembered() {
    let mut host =
        Host::new().with_release("1.2.0", &[("alpha-1.2.0.zip", "https://example.com/gone")]);
    let mut resolver = BinaryResolver::new(alpha());
    let failure = resolve(&mut resolver, &mut host, linux()).unwrap_err();
    assert_eq!(failure.kind, FailureKind::DownloadFailed { reason: "not found".to_string() });
    assert!(failure.kind.is_network());
    assert_eq!(failure.message(), "alpha: failed to download file: not found");
    assert_eq!(resolver.cached_binary_path(), None);
}

#[test]
fn failure_to_make_executable_fails_the_installation() {
    let mut host = alpha_host().with_file("alpha-1.1.0/bin/alpha");
    host.fail_make_executable = true;
    let mut resolver = BinaryResolver::new(alpha());
    let failure = resolve(&mut resolver, &mut host, linux()).unwrap_err();
    assert_eq!(
        failure.kind,
        FailureKind::InstallFailed {
            step: InstallStep::MakeExecutable,
            reason: "not permitted".to_string(),
        }
    );
    assert_eq!(failure.message(), "alpha: not permitted");
    // Nothing is collected after a failed installation.
    assert!(host.entries().contains("alpha-1.1.0"));
}

#[test]
fn expert_is_installed_under_the_digest_of_the_download() {
    let mut host = Host::new()
        .with_release(
            "nightly",
            &[
                ("expert_darwin_arm64", "https://example.com/expert_darwin_arm64"),
                ("expert_linux_amd64", "https://example.com/expert_linux_amd64"),
            ],
        )
        .with_blob("https://example.com/expert_linux_amd64", b"hello world")
        .with_file("expert-0123/expert")
        .with_file("lexical-0.7.3/lexical/bin/start_lexical.sh");
    let mut expert = Expert::new();
    let mut event = Event::Start { platform: linux() };
    let binary = loop {
        match expert.language_server_binary(event) {
            Reply::Ask(request) => event = host.perform(request),
            Reply::Done(outcome) => break outcome.unwrap(),
        }
    };
    let directory = "expert-b94d27b9934d3e08a52e52d7da7dabfac484efe37a5380ee9088f7ace2efcde9";
    assert_eq!(binary.path, format!("{}/expert", directory));
    assert_eq!(binary.args, None);
    assert_eq!(host.files.get(&binary.path), Some(&b"hello world".to_vec()));
    assert!(host.executable.contains(&binary.path));
    assert_eq!(host.entries(), names(&[directory, "lexical-0.7.3"]));
    assert_eq!(
        host.log,
        vec![
            Request::ReadSettings { server: "expert".to_string() },
            Request::Which { name: "expert".to_string() },
            Request::Report {
                server: "expert".to_string(),
                status: InstallationStatus::CheckingForUpdate,
            },
            Request::LatestRelease {
                repository: "elixir-lang/expert".to_string(),
                require_assets: true,
                pre_release: true,
            },
            Request::CreateDir { path: "expert-tmp".to_string() },
            Request::Report {
                server: "expert".to_string(),
                status: InstallationStatus::Downloading,
            },
            Request::Download {
                url: "https://example.com/expert_linux_amd64".to_string(),
                destination: "expert-tmp/temporary-download".to_string(),
                file_type: FileType::Uncompressed,
            },
            Request::ReadFile { path: "expert-tmp/temporary-download".to_string() },
            Request::CreateDir { path: directory.to_string() },
            Request::IsFile { path: format!("{}/expert", directory) },
            Request::Rename {
                from: "expert-tmp/temporary-download".to_string(),
                to: format!("{}/expert", directory),
            },
            Request::MakeExecutable { path: format!("{}/expert", directory) },
            Request::List { probe: None },
            Request::Remove { names: vec!["expert-0123".to_string(), "expert-tmp".to_string()] },
            Request::Remove { names: vec!["expert-tmp".to_string()] },
        ]
    );
}

#[test]
fn expert_with_the_same_download_is_not_installed_twice() {
    let directory = "expert-b94d27b9934d3e08a52e52d7da7dabfac484efe37a5380ee9088f7ace2efcde9";
    let mut host = Host::new()
        .with_release("nightly", &[("expert_linux_amd64", "https://example.com/expert")])
        .with_blob("https://example.com/expert", b"hello world")
        .with_file(&format!("{}/expert", directory))
        .with_file("expert-0123/expert");
    let mut expert = BinaryResolver::new(Expert::identity());
    let command = resolve(&mut expert, &mut host, linux()).unwrap();
    assert_eq!(command.path, format!("{}/expert", directory));
    // The scratch directory is gone; nothing was moved, nothing collected.
    assert_eq!(host.entries(), names(&[directory, "expert-0123"]));
    assert!(!host.log.iter().any(|request| matches!(request, Request::Rename { .. })));
    assert_eq!(host.log.last(), Some(&Request::Remove { names: vec!["expert-tmp".to_string()] }));
}

#[test]
fn expert_removes_the_scratch_directory_when_the_download_fails() {
    let mut host = Host::new()
        .with_release("nightly", &[("expert_linux_amd64", "https://example.com/expert")]);
    let mut expert = BinaryResolver::new(Expert::identity());
    let failure = resolve(&mut expert, &mut host, linux()).unwrap_err();
    assert_eq!(failure.kind, FailureKind::DownloadFailed { reason: "not found".to_string() });
    assert_eq!(host.entries(), names(&[]));
    assert_eq!(host.log.last(), Some(&Request::Remove { names: vec!["expert-tmp".to_string()] }));
    assert_eq!(expert.cached_binary_path(), None);
}

fn expert_host() -> Host {
    Host::new()
        .with_release("nightly", &[("expert_linux_amd64", "https://example.com/expert")])
        .with_blob("https://example.com/expert", b"hello world")
}

#[test]
fn expert_fails_when_the_scratch_directory_cannot_be_created() {
    let mut host = expert_host();
    host.locked.insert("expert-tmp".to_string());
    let mut expert = BinaryResolver::new(Expert::identity());
    let failure = resolve(&mut expert, &mut host, linux()).unwrap_err();
    assert_eq!(
        failure.kind,
        FailureKind::InstallFailed {
            step: InstallStep::CreateDirectory,
            reason: "read-only".to_string(),
        }
    );
    assert_eq!(failure.message(), "expert: failed to create directory: read-only");
    assert_eq!(host.log.last(), Some(&Request::CreateDir { path: "expert-tmp".to_string() }));
}

#[test]
fn expert_fails_when_the_download_cannot_be_read() {
    let mut host = expert_host();
    host.unreadable.insert("expert-tmp/temporary-download".to_string());
    let mut expert = BinaryResolver::new(Expert::identity());
    let failure = resolve(&mut expert, &mut host, linux()).unwrap_err();
    assert_eq!(
        failure.kind,
        FailureKind::InstallFailed { step: InstallStep::ReadDownload, reason: "denied".to_string() }
    );
    assert_eq!(host.entries(), names(&[]));
    assert_eq!(host.log.last(), Some(&Request::Remove { names: vec!["expert-tmp".to_string()] }));
}

#[test]
fn expert_fails_when_the_digest_directory_cannot_be_created() {
    let directory = "expert-b94d27b9934d3e08a52e52d7da7dabfac484efe37a5380ee9088f7ace2efcde9";
    let mut host = expert_host();
    host.locked.insert(directory.to_string());
    let mut expert = BinaryResolver::new(Expert::identity());
    let failure = resolve(&mut expert, &mut host, linux()).unwrap_err();
    assert_eq!(
        failure.kind,
        FailureKind::InstallFailed {
            step: InstallStep::CreateDirectory,
            reason: "read-only".to_string(),
        }
    );
    assert_eq!(host.entries(), names(&[]));
}

#[test]
fn expert_fails_when_the_download_cannot_be_moved() {
    let mut host = expert_host().with_file("expert-0123/expert");
    let mut expert = BinaryResolver::new(Expert::identity());
    let mut event = Event::Start { platform: linux() };
    let failure = loop {
        match expert.step(event) {
            Reply::Ask(request) => {
                if matches!(request, Request::Rename { .. }) {
                    host.unreadable.insert("expert-tmp/temporary-download".to_string());
                }
                event = host.perform(request);
            }
            Reply::Done(outcome) => break outcome.unwrap_err(),
        }
    };
    assert_eq!(
        failure.kind,
        FailureKind::InstallFailed { step: InstallStep::MoveFile, reason: "denied".to_string() }
    );
    assert_eq!(failure.message(), "expert: failed to move file: denied");
    // The scratch directory is gone; the copy that was there before is not.
    assert!(!host.entries().contains("expert-tmp"));
    assert!(host.entries().contains("expert-0123"));
    assert_eq!(expert.cached_binary_path(), None);
}

#[test]
fn expert_falls_back_on_an_installed_copy_when_offline() {
    let mut host = Host::new().with_file("expert-0123/expert");
    let mut expert = BinaryResolver::new(Expert::identity());
    let command = resolve(&mut expert, &mut host, linux()).unwrap();
    assert_eq!(command.path, "./expert-0123/expert");
}

#[test]
fn elixir_ls_is_installed_with_its_scripts() {
    let mut host = Host::new()
        .with_release("v0.28.0", &[("elixir-ls-v0.28.0.zip", "https://example.com/elixir-ls.zip")])
        .with_archive(
            "https://example.com/elixir-ls.zip",
            &["language_server.sh", "launch.sh", "debug_adapter.sh", "language_server.bat"],
        )
        .with_file("elixir-ls-v0.27.0/language_server.sh");
    host.settings = Some(CommandSettings { path: None, arguments: None });
    let mut elixir_ls = ElixirLs::new();
    let mac = Platform { os: Os::Mac, arch: Architecture::Aarch64 };
    let mut event = Event::Start { platform: mac };
    let command = loop {
        match elixir_ls.language_server_command(event) {
            Reply::Ask(request) => event = host.perform(request),
            Reply::Done(outcome) => break outcome.unwrap(),
        }
    };
    assert_eq!(
        command,
        Command {
            command: "elixir-ls-v0.28.0/language_server.sh".to_string(),
            args: Vec::new(),
            env: Vec::new(),
        }
    );
    assert_eq!(
        host.executable,
        names(&[
            "elixir-ls-v0.28.0/language_server.sh",
            "elixir-ls-v0.28.0/launch.sh",
            "elixir-ls-v0.28.0/debug_adapter.sh",
        ])
    );
    assert_eq!(host.entries(), names(&["elixir-ls-v0.28.0"]));
}

#[test]
fn elixir_ls_on_windows_uses_batch_files() {
    let mut host = Host::new()
        .with_release("v0.28.0", &[("elixir-ls-v0.28.0.zip", "https://example.com/elixir-ls.zip")])
        .with_archive(
            "https://example.com/elixir-ls.zip",
            &["language_server.bat", "launch.bat", "debug_adapter.bat"],
        );
    let mut elixir_ls = BinaryResolver::new(ElixirLs::identity());
    let command = resolve(
        &mut elixir_ls,
        &mut host,
        Platform { os: Os::Windows, arch: Architecture::X86 },
    )
    .unwrap();
    assert_eq!(command.path, "elixir-ls-v0.28.0/language_server.bat");
}

#[test]
fn lexical_is_installed_with_its_scripts() {
    let mut host = Host::new()
        .with_release("v0.7.3", &[("lexical-v0.7.3.zip", "https://example.com/lexical.zip")])
        .with_archive(
            "https://example.com/lexical.zip",
            &[
                "lexical/bin/start_lexical.sh",
                "lexical/priv/port_wrapper.sh",
                "lexical/bin/debug_shell.sh",
            ],
        );
    let mut lexical = BinaryResolver::new(Lexical::identity());
    let command = resolve(&mut lexical, &mut host, linux()).unwrap();
    assert_eq!(command.path, "lexical-v0.7.3/lexical/bin/start_lexical.sh");
    assert_eq!(host.executable.len(), 3);
}

#[test]
fn an_answer_out_of_turn_ends_the_resolution() {
    let mut resolver = BinaryResolver::new(alpha());
    let reply = resolver.step(Event::Acknowledged);
    assert_eq!(
        reply,
        Reply::Done(Err(Failure { tool: "alpha".to_string(), kind: FailureKind::OutOfTurn }))
    );
    assert!(matches!(resolver.step(Event::Start { platform: linux() }), Reply::Ask(_)));
    let reply = resolver.step(Event::FileProbed { is_file: true });
    assert_eq!(
        reply,
        Reply::Done(Err(Failure { tool: "alpha".to_string(), kind: FailureKind::OutOfTurn }))
    );
    assert!(resolver.is_idle());
}

#[test]
fn a_new_resolver_is_idle_and_remembers_nothing() {
    let resolver = BinaryResolver::new(alpha());
    assert!(resolver.is_idle());
    assert_eq!(resolver.cached_binary_path(), None);
    assert_eq!(resolver.identity(), &alpha());
}
