//! Tool identities: what tells one language server from another, and the names that follow
//! from it (release assets, installed directories, the files inside them).

use crate::platform::{arch_name, executable_suffix, os_name, script_extension, Os, Platform};
use crate::text::{join2, join3, text_of};
use vstd::prelude::*;
use vstd::string::*;

verus! {

/// How an installed copy is told from another, and how far the download is trusted.
#[derive(Clone, Copy, Debug, PartialEq, Eq, Structural)]
pub enum ChecksumPolicy {
    /// The release asset is an archive, unpacked as it comes into a directory named by the
    /// release version. Nothing is verified.
    Unverified,
    /// The release asset is the executable itself. It is downloaded into a scratch directory,
    /// digested, and moved into a directory named by its SHA-256 digest.
    ComputeSha256,
}

/// The convention by which a tool's releases name the asset to download.
#[derive(Clone, Copy, Debug, PartialEq, Eq, Structural)]
pub enum AssetNameTemplate {
    /// `<id>-<version>.zip`, the same on every platform.
    VersionedArchive,
    /// `<id>_<os>_<arch>`, with `.exe` on Windows. No asset exists for 32-bit x86.
    PlatformBinary,
}

/// A file of an installed directory that has to be executable.
#[derive(Clone, Debug, PartialEq, Eq)]
pub struct InstalledFile {
    /// The path below the installed directory, without the extension of a script.
    pub stem: String,
    /// Whether the file is a shell script, named `<stem>.sh` or, on Windows, `<stem>.bat`.
    pub script: bool,
}

/// What an [`InstalledFile`] holds, as plain values.
pub struct InstalledFileView {
    pub stem: Seq<char>,
    pub script: bool,
}

impl View for InstalledFile {
    type V = InstalledFileView;

    open spec fn view(&self) -> InstalledFileView {
        InstalledFileView { stem: self.stem@, script: self.script }
    }
}

/// The views of a list of installed files, in order.
pub open spec fn file_views(files: Seq<InstalledFile>) -> Seq<InstalledFileView> {
    Seq::new(files.len(), |i: int| files[i]@)
}

/// One supported language server.
#[derive(Clone, Debug, PartialEq, Eq)]
pub struct ToolIdentity {
    /// The name the editor and the settings know the tool by. Installed directories begin
    /// with it.
    pub id: String,
    /// The repository that publishes the releases, as `<owner>/<name>`.
    pub repository: String,
    pub asset_name_template: AssetNameTemplate,
    /// Whether the latest release may be a pre-release.
    pub requires_prerelease: bool,
    pub checksum_policy: ChecksumPolicy,
    /// The executable the editor starts.
    pub binary: InstalledFile,
    /// Further files the tool ships that have to be executable.
    pub helpers: Vec<InstalledFile>,
    /// Whether the tool runs on Windows.
    pub supports_windows: bool,
}

/// What a [`ToolIdentity`] holds, as plain values.
pub struct ToolIdentityView {
    pub id: Seq<char>,
    pub repository: Seq<char>,
    pub asset_name_template: AssetNameTemplate,
    pub requires_prerelease: bool,
    pub checksum_policy: ChecksumPolicy,
    pub binary: InstalledFileView,
    pub helpers: Seq<InstalledFileView>,
    pub supports_windows: bool,
}

impl View for ToolIdentity {
    type V = ToolIdentityView;

    open spec fn view(&self) -> ToolIdentityView {
        ToolIdentityView {
            id: self.id@,
            repository: self.repository@,
            asset_name_template: self.asset_name_template,
            requires_prerelease: self.requires_prerelease,
            checksum_policy: self.checksum_policy,
            binary: self.binary@,
            helpers: file_views(self.helpers@),
            supports_windows: self.supports_windows,
        }
    }
}

impl InstalledFileView {
    /// The path of the file below the installed directory.
    pub open spec fn name(self, os: Os) -> Seq<char> {
        if self.script {
            self.stem + "."@ + script_extension(os)
        } else {
            self.stem
        }
    }
}

impl ToolIdentityView {
    /// Whether the tool runs on the operating system.
    pub open spec fn runs_on(self, os: Os) -> bool {
        os == Os::Windows ==> self.supports_windows
    }

    /// Whether the tool runs on the platform and publishes a release asset for it.
    pub open spec fn supports(self, platform: Platform) -> bool {
        &&& self.runs_on(platform.os)
        &&& self.asset_name_template == AssetNameTemplate::PlatformBinary ==> arch_name(
            platform.arch,
        ) is Some
    }

    /// The name of the release asset for the platform; none where the tool publishes no asset
    /// for it.
    pub open spec fn asset_name(self, version: Seq<char>, platform: Platform) -> Option<
        Seq<char>,
    > {
        match self.asset_name_template {
            AssetNameTemplate::VersionedArchive => Some(self.id + "-"@ + version + ".zip"@),
            AssetNameTemplate::PlatformBinary => match arch_name(platform.arch) {
                Some(arch) => Some(
                    self.id + "_"@ + os_name(platform.os) + "_"@ + arch + executable_suffix(
                        platform.os,
                    ),
                ),
                None => None,
            },
        }
    }

    /// The installed directory that holds the copy tagged `tag`: a release version or a digest.
    pub open spec fn directory(self, tag: Seq<char>) -> Seq<char> {
        self.id + "-"@ + tag
    }

    /// The path of `file` in the installed directory tagged `tag`.
    pub open spec fn path_of(self, file: InstalledFileView, tag: Seq<char>, os: Os) -> Seq<char> {
        self.directory(tag) + "/"@ + file.name(os)
    }

    /// The path of the tool's executable in the installed directory tagged `tag`.
    pub open spec fn binary_path(self, tag: Seq<char>, os: Os) -> Seq<char> {
        self.path_of(self.binary, tag, os)
    }

    /// The directory a download rests in until its digest is known.
    pub open spec fn scratch_directory(self) -> Seq<char> {
        self.id + "-tmp"@
    }

    /// The file a download rests in until its digest is known.
    pub open spec fn scratch_file(self) -> Seq<char> {
        self.scratch_directory() + "/temporary-download"@
    }
}

/// An installed directory is named by its tag and by nothing else: two tags give the same
/// directory only if they are the same tag. So two downloads share a directory exactly when
/// they have the same digest.
pub proof fn lemma_directory_tells_tags_apart(
    identity: ToolIdentityView,
    first: Seq<char>,
    second: Seq<char>,
)
    requires
        identity.directory(first) == identity.directory(second),
    ensures
        first == second,
{
    let prefix = identity.id + "-"@;
    assert(first == (prefix + first).subrange(prefix.len() as int, (prefix + first).len() as int));
    assert(second == (prefix + second).subrange(
        prefix.len() as int,
        (prefix + second).len() as int,
    ));
}

/// A tool that publishes one executable for each platform has one asset name for each: two
/// platforms it supports share the name of their asset only if they are the same platform.
pub proof fn lemma_one_asset_per_platform(
    identity: ToolIdentityView,
    version: Seq<char>,
    first: Platform,
    second: Platform,
)
    requires
        identity.asset_name_template == AssetNameTemplate::PlatformBinary,
        identity.asset_name(version, first) is Some,
        identity.asset_name(version, first) == identity.asset_name(version, second),
    ensures
        first == second,
{
    reveal_strlit("_");
    reveal_strlit("darwin");
    reveal_strlit("linux");
    reveal_strlit("windows");
    reveal_strlit("arm64");
    reveal_strlit("amd64");
    reveal_strlit(".exe");
    reveal_strlit("");
    let a = identity.asset_name(version, first)->0;
    let b = identity.asset_name(version, second)->0;
    let at = identity.id.len() as int;
    // The first letter of the operating system follows the id and the underscore.
    assert(a[at + 1] == os_name(first.os)[0]);
    assert(b[at + 1] == os_name(second.os)[0]);
    assert(first.os == second.os);
    // The second letter of the architecture tells `arm64` from `amd64`.
    let arch_at = at + 1 + os_name(first.os).len() + 1;
    assert(a[arch_at + 1] == arch_name(first.arch)->0[1]);
    assert(b[arch_at + 1] == arch_name(second.arch)->0[1]);
}

impl InstalledFile {
    /// The path of the file below the installed directory.
    pub fn name(&self, os: Os) -> (name: String)
        ensures
            name@ == self@.name(os),
    {
        if self.script {
            join3(self.stem.as_str(), ".", os.script_extension())
        } else {
            self.stem.clone()
        }
    }
}

impl ToolIdentity {
    /// Whether the tool runs on the operating system.
    pub fn runs_on(&self, os: Os) -> (runs: bool)
        ensures
            runs == self@.runs_on(os),
    {
        match os {
            Os::Windows => self.supports_windows,
            _ => true,
        }
    }

    /// Whether the tool runs on the platform and publishes a release asset for it.
    pub fn supports(&self, platform: Platform) -> (supported: bool)
        ensures
            supported == self@.supports(platform),
    {
        let os_fits = self.runs_on(platform.os);
        let arch_fits = match self.asset_name_template {
            AssetNameTemplate::VersionedArchive => true,
            AssetNameTemplate::PlatformBinary => platform.arch.asset_name().is_some(),
        };
        os_fits && arch_fits
    }

    /// The name of the release asset for the platform, or `None` where the tool publishes no
    /// asset for it.
    pub fn asset_name(&self, version: &str, platform: Platform) -> (name: Option<String>)
        ensures
            text_of(name) == self@.asset_name(version@, platform),
    {
        match self.asset_name_template {
            AssetNameTemplate::VersionedArchive => {
                let mut name = join3(self.id.as_str(), "-", version);
                name.append(".zip");
                Some(name)
            },
            AssetNameTemplate::PlatformBinary => {
                match platform.arch.asset_name() {
                    Some(arch) => {
                        let mut name = join3(self.id.as_str(), "_", platform.os.asset_name());
                        name.append("_");
                        name.append(arch);
                        name.append(platform.os.executable_suffix());
                        Some(name)
                    },
                    None => None,
                }
            },
        }
    }

    /// The installed directory that holds the copy tagged `tag`.
    pub fn directory(&self, tag: &str) -> (directory: String)
        ensures
            directory@ == self@.directory(tag@),
    {
        join3(self.id.as_str(), "-", tag)
    }

    /// The path of `file` in the installed directory tagged `tag`.
    pub fn path_of(&self, file: &InstalledFile, tag: &str, os: Os) -> (path: String)
        ensures
            path@ == self@.path_of(file@, tag@, os),
    {
        let mut path = self.directory(tag);
        path.append("/");
        let name = file.name(os);
        path.append(name.as_str());
        path
    }

    /// The path of the tool's executable in the installed directory tagged `tag`.
    pub fn binary_path(&self, tag: &str, os: Os) -> (path: String)
        ensures
            path@ == self@.binary_path(tag@, os),
    {
        self.path_of(&self.binary, tag, os)
    }

    /// The directory a download rests in until its digest is known.
    pub fn scratch_directory(&self) -> (directory: String)
        ensures
            directory@ == self@.scratch_directory(),
    {
        join2(self.id.as_str(), "-tmp")
    }

    /// The file a download rests in until its digest is known.
    pub fn scratch_file(&self) -> (file: String)
        ensures
            file@ == self@.scratch_file(),
    {
        join3(self.id.as_str(), "-tmp", "/temporary-download")
    }
}

} // verus!
