use zed_elixir::failure::{Failure, FailureKind, InstallStep};
use zed_elixir::language_servers::{ElixirLs, Expert, LanguageServer, Lexical};
use zed_elixir::platform::{Architecture, Os};
use zed_elixir::protocol::{
    get_binary_args, get_binary_path, Command, CommandSettings, ResolvedCommand,
};
use zed_elixir::release::{Asset, Release};
use zed_elixir::store::{find_existing_binary, outdated_versions, DirEntry};
use zed_elixir::text::{copy_texts, join2, join3, same_text};

fn entry(name: &str, holds_binary: bool) -> DirEntry {
    DirEntry { name: Some(name.to_string()), holds_binary }
}

fn asset(name: &str, url: &str) -> Asset {
    Asset { name: name.to_string(), download_url: url.to_string() }
}

#[test]
fn platform_names_for_assets() {
    assert_eq!(Os::Mac.asset_name(), "darwin");
    assert_eq!(Os::Linux.asset_name(), "linux");
    assert_eq!(Os::Windows.asset_name(), "windows");
    assert_eq!(Architecture::Aarch64.asset_name(), Some("arm64"));
    assert_eq!(Architecture::X8664.asset_name(), Some("amd64"));
    assert_eq!(Architecture::X86.asset_name(), None);
    assert_eq!(Os::Windows.executable_suffix(), ".exe");
    assert_eq!(Os::Linux.executable_suffix(), "");
    assert_eq!(Os::Mac.script_extension(), "sh");
    assert_eq!(Os::Windows.script_extension(), "bat");
}

#[test]
fn text_helpers() {
    assert_eq!(join2("a", "bc"), "abc");
    assert_eq!(join3("a", "", "bc"), "abc");
    assert!(same_text("expert", "expert"));
    assert!(!same_text("expert", "experts"));
    let list = vec!["x".to_string(), "".to_string(), "yz".to_string()];
    assert_eq!(copy_texts(&list), list);
}

#[test]
fn outdated_versions_are_those_of_the_tool_but_the_one_kept() {
    let entries = vec![
        entry("expert-aaa", false),
        entry("elixir-ls-v0.1", false),
        entry("expert-bbb", true),
        DirEntry { name: None, holds_binary: false },
        entry("expert", false),
        entry("exper", false),
        entry("expert-tmp", false),
        entry("my-expert-ccc", false),
    ];
    assert_eq!(
        outdated_versions(&entries, "expert", &"expert-bbb".to_string()),
        vec!["expert-aaa".to_string(), "expert".to_string(), "expert-tmp".to_string()]
    );
    assert_eq!(
        outdated_versions(&entries, "lexical", &"lexical-1".to_string()),
        Vec::<String>::new()
    );
    assert_eq!(outdated_versions(&Vec::new(), "expert", &"expert-bbb".to_string()).len(), 0);
}

#[test]
fn outdated_versions_never_hold_the_directory_kept() {
    let entries = vec![entry("alpha-1", true), entry("alpha-1", true), entry("alpha-2", true)];
    assert_eq!(
        outdated_versions(&entries, "alpha", &"alpha-1".to_string()),
        vec!["alpha-2".to_string()]
    );
}

#[test]
fn find_existing_binary_takes_the_first_copy_that_holds_it() {
    let entries = vec![
        entry("lexical-0.1", false),
        entry("other-0.2", true),
        DirEntry { name: None, holds_binary: true },
        entry("lexical-0.3", true),
        entry("lexical-0.4", true),
    ];
    assert_eq!(
        find_existing_binary(&entries, "lexical", "lexical/bin/start_lexical.sh"),
        Some("./lexical-0.3/lexical/bin/start_lexical.sh".to_string())
    );
    assert_eq!(find_existing_binary(&entries, "expert", "expert"), None);
    assert_eq!(find_existing_binary(&Vec::new(), "lexical", "x"), None);
}

#[test]
fn release_position_is_that_of_the_first_asset_of_the_name() {
    let release = Release {
        version: "1.0".to_string(),
        assets: vec![asset("a", "u0"), asset("b", "u1"), asset("b", "u2"), asset("c", "u3")],
    };
    assert_eq!(release.position(&"a".to_string()), Some(0));
    assert_eq!(release.position(&"b".to_string()), Some(1));
    assert_eq!(release.position(&"c".to_string()), Some(3));
    assert_eq!(release.position(&"d".to_string()), None);
    assert_eq!(release.position(&"".to_string()), None);
    let bare = Release { version: "1.0".to_string(), assets: Vec::new() };
    assert_eq!(bare.position(&"a".to_string()), None);
}

#[test]
fn settings_accessors() {
    let settings = Some(CommandSettings {
        path: Some("/bin/x".to_string()),
        arguments: Some(vec!["-a".to_string(), "-b".to_string()]),
    });
    assert_eq!(get_binary_path(&settings), Some("/bin/x".to_string()));
    assert_eq!(get_binary_args(&settings), Some(vec!["-a".to_string(), "-b".to_string()]));
    let bare = Some(CommandSettings { path: None, arguments: None });
    assert_eq!(get_binary_path(&bare), None);
    assert_eq!(get_binary_args(&bare), None);
    assert_eq!(get_binary_path(&None), None);
    assert_eq!(get_binary_args(&None), None);
}

#[test]
fn resolved_command_becomes_a_command_line() {
    let with_arguments =
        ResolvedCommand { path: "/bin/x".to_string(), args: Some(vec!["--stdio".to_string()]) };
    assert_eq!(
        with_arguments.command(),
        Command {
            command: "/bin/x".to_string(),
            args: vec!["--stdio".to_string()],
            env: Vec::new(),
        }
    );
    let without = ResolvedCommand { path: "/bin/x".to_string(), args: None };
    assert_eq!(
        without.command(),
        Command { command: "/bin/x".to_string(), args: Vec::new(), env: Vec::new() }
    );
}

#[test]
fn language_servers_are_told_apart_by_id() {
    assert_eq!(LanguageServer::from_id("expert"), Some(LanguageServer::Expert));
    assert_eq!(LanguageServer::from_id("elixir-ls"), Some(LanguageServer::ElixirLs));
    assert_eq!(LanguageServer::from_id("lexical"), Some(LanguageServer::Lexical));
    assert_eq!(LanguageServer::from_id("Expert"), None);
    assert_eq!(LanguageServer::from_id(""), None);
    assert_eq!(LanguageServer::Expert.id(), "expert");
    assert_eq!(LanguageServer::ElixirLs.id(), "elixir-ls");
    assert_eq!(LanguageServer::Lexical.id(), "lexical");
    assert_eq!(LanguageServer::unknown("gleam"), "unknown language server: gleam");
    assert_eq!(Expert::LANGUAGE_SERVER_ID, "expert");
    assert_eq!(ElixirLs::LANGUAGE_SERVER_ID, "elixir-ls");
    assert_eq!(Lexical::LANGUAGE_SERVER_ID, "lexical");
}

#[test]
fn failure_messages_name_the_tool() {
    let message = |kind: FailureKind| Failure { tool: "lexical".to_string(), kind }.message();
    assert_eq!(
        message(FailureKind::UnsupportedSystem { os: Os::Windows }),
        "lexical: unsupported platform: Os::Windows"
    );
    assert_eq!(
        message(FailureKind::UnsupportedArchitecture { arch: Architecture::X86 }),
        "lexical: unsupported architecture: Architecture::X86"
    );
    assert_eq!(
        message(FailureKind::AssetNotFound { asset_name: "lexical-1.zip".to_string() }),
        "lexical: no asset found matching \"lexical-1.zip\""
    );
    assert_eq!(
        message(FailureKind::ReleaseUnavailable),
        "lexical: failed to download latest github release"
    );
    assert_eq!(
        message(FailureKind::DownloadFailed { reason: "timed out".to_string() }),
        "lexical: failed to download file: timed out"
    );
    assert_eq!(
        message(FailureKind::InstallFailed {
            step: InstallStep::CreateDirectory,
            reason: "denied".to_string()
        }),
        "lexical: failed to create directory: denied"
    );
    assert_eq!(
        message(FailureKind::InstallFailed {
            step: InstallStep::ReadDownload,
            reason: "denied".to_string()
        }),
        "lexical: failed to read downloaded file: denied"
    );
    assert_eq!(
        message(FailureKind::InstallFailed {
            step: InstallStep::MoveFile,
            reason: "denied".to_string()
        }),
        "lexical: failed to move file: denied"
    );
    assert_eq!(
        message(FailureKind::InstallFailed {
            step: InstallStep::MakeExecutable,
            reason: "denied".to_string()
        }),
        "lexical: denied"
    );
    assert_eq!(
        message(FailureKind::OutOfTurn),
        "lexical: the host answered a question that was not asked"
    );
}

#[test]
fn failure_classes() {
    assert!(FailureKind::ReleaseUnavailable.is_network());
    assert!(FailureKind::DownloadFailed { reason: String::new() }.is_network());
    assert!(!FailureKind::OutOfTurn.is_network());
    assert!(!FailureKind::AssetNotFound { asset_name: String::new() }.is_network());
    assert!(FailureKind::UnsupportedSystem { os: Os::Mac }.is_unsupported_platform());
    assert!(!FailureKind::ReleaseUnavailable.is_unsupported_platform());
}

#[test]
fn new_servers_have_their_identities() {
    assert_eq!(ElixirLs::identity().repository, "elixir-lsp/elixir-ls");
    assert_eq!(Lexical::identity().repository, "lexical-lsp/lexical");
    assert_eq!(Expert::identity().repository, "elixir-lang/expert");
    assert!(Expert::identity().requires_prerelease);
    assert!(!ElixirLs::identity().requires_prerelease);
    assert_eq!(Expert::identity().helpers.len(), 0);
    assert_eq!(Lexical::identity().helpers.len(), 2);
}
