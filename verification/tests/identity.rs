use zed_elixir::identity::{AssetNameTemplate, ChecksumPolicy, InstalledFile, ToolIdentity};
use zed_elixir::language_servers::{ElixirLs, Expert, Lexical};
use zed_elixir::platform::{Architecture, Os, Platform};

fn platform(os: Os, arch: Architecture) -> Platform {
    Platform { os, arch }
}

#[test]
fn elixir_ls_asset_is_the_versioned_archive() {
    let identity = ElixirLs::identity();
    assert_eq!(
        identity.asset_name("v0.28.0", platform(Os::Linux, Architecture::X86)),
        Some("elixir-ls-v0.28.0.zip".to_string())
    );
}

#[test]
fn expert_asset_names_follow_the_platform() {
    let identity = Expert::identity();
    assert_eq!(
        identity.asset_name("nightly", platform(Os::Mac, Architecture::Aarch64)),
        Some("expert_darwin_arm64".to_string())
    );
    assert_eq!(
        identity.asset_name("nightly", platform(Os::Linux, Architecture::X8664)),
        Some("expert_linux_amd64".to_string())
    );
    assert_eq!(
        identity.asset_name("nightly", platform(Os::Windows, Architecture::X8664)),
        Some("expert_windows_amd64.exe".to_string())
    );
    assert_eq!(identity.asset_name("nightly", platform(Os::Linux, Architecture::X86)), None);
}

#[test]
fn lexical_does_not_support_windows() {
    let identity = Lexical::identity();
    assert!(!identity.supports(platform(Os::Windows, Architecture::X8664)));
    assert!(identity.supports(platform(Os::Linux, Architecture::X86)));
    assert!(identity.supports(platform(Os::Mac, Architecture::Aarch64)));
}

#[test]
fn installed_paths_are_built_from_id_tag_and_file() {
    let identity = ElixirLs::identity();
    assert_eq!(identity.directory("v0.28.0"), "elixir-ls-v0.28.0");
    assert_eq!(identity.binary_path("v0.28.0", Os::Linux), "elixir-ls-v0.28.0/language_server.sh");
    assert_eq!(
        identity.binary_path("v0.28.0", Os::Windows),
        "elixir-ls-v0.28.0/language_server.bat"
    );
    assert_eq!(
        identity.path_of(&identity.helpers[1], "v0.28.0", Os::Mac),
        "elixir-ls-v0.28.0/debug_adapter.sh"
    );
    let expert = Expert::identity();
    assert_eq!(expert.scratch_directory(), "expert-tmp");
    assert_eq!(expert.scratch_file(), "expert-tmp/temporary-download");
}

#[test]
fn a_tool_of_ones_own_is_named_the_same_way() {
    let alpha = ToolIdentity {
        id: "alpha".to_string(),
        repository: "example/alpha".to_string(),
        asset_name_template: AssetNameTemplate::VersionedArchive,
        requires_prerelease: false,
        checksum_policy: ChecksumPolicy::Unverified,
        binary: InstalledFile { stem: "bin/alpha".to_string(), script: false },
        helpers: Vec::new(),
        supports_windows: true,
    };
    assert_eq!(
        alpha.asset_name("1.2.0", platform(Os::Linux, Architecture::X8664)),
        Some("alpha-1.2.0.zip".to_string())
    );
    assert_eq!(alpha.binary_path("1.2.0", Os::Linux), "alpha-1.2.0/bin/alpha");
}
