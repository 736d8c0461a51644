//! The resolution as a state machine over plain values: what a resolver knows between two
//! events, and what it answers to each.
//!
//! A resolution consults, in this order and no further than the first that yields an
//! executable: the user's settings, the search path of the project, the path remembered from
//! an earlier resolution, and the release index. Only where the release index cannot be reached
//! does an installed copy stand in for a fresh one.

use crate::digest::sha256_hex;
use crate::failure::{FailureKindView, FailureView, InstallStep};
use crate::identity::{ChecksumPolicy, ToolIdentityView};
use crate::platform::Platform;
use crate::protocol::{
    configured_arguments, configured_path, CommandSettingsView, EventView, FileType,
    InstallationStatus, ReplyView, RequestView, ResolutionView, ResolvedCommandView,
};
use crate::release::ReleaseView;
use crate::store::{existing_binary, outdated, DirEntryView};
use vstd::prelude::*;

verus! {

/// Where a resolution stands: the request that is out, if any.
#[derive(Clone, Copy, Debug, PartialEq, Eq)]
pub enum Stage {
    /// No resolution is in progress.
    Idle,
    /// The settings are being read.
    Settings,
    /// The search path is being consulted.
    PathSearch,
    /// The remembered path is being looked at.
    CacheProbe,
    /// The editor is being told that an update is looked for.
    CheckingNotice,
    /// The latest release is being fetched.
    Release,
    /// The working directory is being searched for an installed copy.
    LocalScan,
    /// The executable of the wanted copy is being looked for.
    InstalledProbe,
    /// The scratch directory is being created.
    ScratchDir,
    /// The editor is being told that a download begins.
    DownloadNotice,
    /// The asset is being downloaded.
    Download,
    /// The downloaded file is being read.
    ScratchRead,
    /// The directory named by the digest is being created.
    ChecksumDir,
    /// The downloaded file is being moved to its place.
    Move,
    /// A file is being made executable: the tool's executable, or, after that many of them,
    /// one of its helpers.
    Executable(usize),
    /// The working directory is being listed to find outdated copies.
    Listing,
    /// Outdated copies are being removed.
    Removal,
    /// The scratch directory is being removed.
    Cleanup,
}

/// What a resolver knows between two events.
pub struct ResolverView {
    pub identity: ToolIdentityView,
    /// The executable the last installation or offline search came up with.
    pub cache: Option<Seq<char>>,
    pub stage: Stage,
    /// The platform of the resolution in progress.
    pub platform: Platform,
    /// The arguments the settings name, once they are read.
    pub arguments: Option<Seq<Seq<char>>>,
    /// The address of the asset, once it is selected.
    pub download_url: Seq<char>,
    /// What tells the wanted copy from others: the release version, or the digest of the
    /// download once it is known.
    pub tag: Seq<char>,
    /// The failure to report once the scratch directory is removed.
    pub failure: Option<FailureKindView>,
}

impl ResolverView {
    /// A resolver for `identity` that is at rest and remembers `cache`.
    pub open spec fn at_rest(
        identity: ToolIdentityView,
        cache: Option<Seq<char>>,
        platform: Platform,
    ) -> ResolverView {
        ResolverView {
            identity,
            cache,
            stage: Stage::Idle,
            platform,
            arguments: None,
            download_url: Seq::empty(),
            tag: Seq::empty(),
            failure: None,
        }
    }

    /// Whether the tag is the digest of a download: the tool is installed under its digest,
    /// and the download has been read and not been given up.
    pub open spec fn knows_digest(self) -> bool {
        &&& self.identity.checksum_policy == ChecksumPolicy::ComputeSha256
        &&& self.failure is None
        &&& match self.stage {
            Stage::ChecksumDir
            | Stage::InstalledProbe
            | Stage::Move
            | Stage::Executable(_)
            | Stage::Listing
            | Stage::Removal
            | Stage::Cleanup => true,
            _ => false,
        }
    }

    /// Whether the stage is one of those that only an installation under the digest has: the
    /// scratch directory is made, read or removed, or the download is moved to its place.
    pub open spec fn at_digest_stage(self) -> bool {
        match self.stage {
            Stage::ScratchDir
            | Stage::ScratchRead
            | Stage::ChecksumDir
            | Stage::Move
            | Stage::Cleanup => true,
            _ => false,
        }
    }

    /// What holds of a resolver at every moment: a failure is kept back only while the scratch
    /// directory is removed, a scratch directory is used only by a tool that is installed under
    /// its digest, and a digest has 64 characters.
    pub open spec fn consistent(self) -> bool {
        &&& self.failure is Some ==> self.stage is Cleanup
        &&& self.at_digest_stage() ==> self.identity.checksum_policy
            == ChecksumPolicy::ComputeSha256
        &&& self.knows_digest() ==> self.tag.len() == 64
    }

    /// The path of the tool's executable below an installed directory.
    pub open spec fn binary_name(self) -> Seq<char> {
        self.identity.binary.name(self.platform.os)
    }

    /// The installed directory of the wanted copy.
    pub open spec fn directory(self) -> Seq<char> {
        self.identity.directory(self.tag)
    }

    /// The executable of the wanted copy.
    pub open spec fn binary_path(self) -> Seq<char> {
        self.identity.binary_path(self.tag, self.platform.os)
    }

    /// Why the platform is refused: the operating system first, then the architecture.
    pub open spec fn refusal(self) -> FailureKindView {
        if !self.identity.runs_on(self.platform.os) {
            FailureKindView::UnsupportedSystem { os: self.platform.os }
        } else {
            FailureKindView::UnsupportedArchitecture { arch: self.platform.arch }
        }
    }

    /// Puts `request` to the host and waits at `stage` for the answer.
    pub open spec fn ask(self, stage: Stage, request: RequestView) -> (
        ResolverView,
        ResolutionView,
    ) {
        (ResolverView { stage, ..self }, ReplyView::Ask(request))
    }

    /// Ends the resolution with a failure.
    pub open spec fn fail(self, kind: FailureKindView) -> (ResolverView, ResolutionView) {
        (
            ResolverView { stage: Stage::Idle, arguments: None, failure: None, ..self },
            ReplyView::Done(Err(FailureView { tool: self.identity.id, kind })),
        )
    }

    /// Ends the resolution with an executable that is not the resolver's to remember: one the
    /// user configured, or one on the search path.
    pub open spec fn answer(self, path: Seq<char>) -> (ResolverView, ResolutionView) {
        (
            ResolverView { stage: Stage::Idle, arguments: None, failure: None, ..self },
            ReplyView::Done(Ok(ResolvedCommandView { path, args: self.arguments })),
        )
    }

    /// Ends the resolution with an executable of an installed copy, and remembers it.
    pub open spec fn succeed(self, path: Seq<char>) -> (ResolverView, ResolutionView) {
        (
            ResolverView {
                stage: Stage::Idle,
                cache: Some(path),
                arguments: None,
                failure: None,
                ..self
            },
            ReplyView::Done(Ok(ResolvedCommandView { path, args: self.arguments })),
        )
    }

    /// Removes the scratch directory; the outcome follows.
    pub open spec fn clean_up(self) -> (ResolverView, ResolutionView) {
        self.ask(
            Stage::Cleanup,
            RequestView::Remove { names: seq![self.identity.scratch_directory()] },
        )
    }

    /// Gives an installation up. Where a scratch directory is in use it is removed first.
    pub open spec fn abort(self, kind: FailureKindView) -> (ResolverView, ResolutionView) {
        match self.identity.checksum_policy {
            ChecksumPolicy::Unverified => self.fail(kind),
            ChecksumPolicy::ComputeSha256 => ResolverView {
                failure: Some(kind),
                ..self
            }.clean_up(),
        }
    }

    /// Turns to the release index. A platform the tool does not support is refused here,
    /// before anything is asked of the network.
    pub open spec fn fresh(self) -> (ResolverView, ResolutionView) {
        if self.identity.supports(self.platform) {
            self.ask(
                Stage::CheckingNotice,
                RequestView::Report {
                    server: self.identity.id,
                    status: InstallationStatus::CheckingForUpdate,
                },
            )
        } else {
            self.fail(self.refusal())
        }
    }

    /// Makes the tool's executable executable.
    pub open spec fn mark_binary(self) -> (ResolverView, ResolutionView) {
        self.ask(Stage::Executable(0), RequestView::MakeExecutable { path: self.binary_path() })
    }

    /// A resolution begins with the settings. What an earlier one left behind, but for the
    /// remembered executable, is forgotten.
    pub open spec fn on_start(self, platform: Platform) -> (ResolverView, ResolutionView) {
        ResolverView::at_rest(self.identity, self.cache, platform).ask(
            Stage::Settings,
            RequestView::ReadSettings { server: self.identity.id },
        )
    }

    /// An executable the user configured is the answer, whatever else is the case.
    pub open spec fn on_settings(self, binary: Option<CommandSettingsView>) -> (
        ResolverView,
        ResolutionView,
    ) {
        let next = ResolverView { arguments: configured_arguments(binary), ..self };
        match configured_path(binary) {
            Some(path) => next.answer(path),
            None => next.ask(Stage::PathSearch, RequestView::Which { name: self.identity.id }),
        }
    }

    /// An executable on the search path is the answer. Without one, the remembered executable
    /// is looked at, if there is one.
    pub open spec fn on_located(self, path: Option<Seq<char>>) -> (ResolverView, ResolutionView) {
        match path {
            Some(path) => self.answer(path),
            None => match self.cache {
                Some(cached) => self.ask(Stage::CacheProbe, RequestView::IsFile { path: cached }),
                None => self.fresh(),
            },
        }
    }

    /// A remembered executable that is still a regular file is the answer.
    pub open spec fn on_cache_probed(self, is_file: bool) -> (ResolverView, ResolutionView) {
        match self.cache {
            Some(cached) if is_file => self.answer(cached),
            _ => self.fresh(),
        }
    }

    /// Once the editor shows that an update is looked for, the latest release is asked for.
    pub open spec fn on_checking_reported(self) -> (ResolverView, ResolutionView) {
        self.ask(
            Stage::Release,
            RequestView::LatestRelease {
                repository: self.identity.repository,
                require_assets: true,
                pre_release: self.identity.requires_prerelease,
            },
        )
    }

    /// Selects the asset of the release, or falls back on an installed copy where there is no
    /// release to select from.
    pub open spec fn on_release(self, outcome: Result<ReleaseView, Seq<char>>) -> (
        ResolverView,
        ResolutionView,
    ) {
        match outcome {
            Err(_) => self.ask(
                Stage::LocalScan,
                RequestView::List { probe: Some(self.binary_name()) },
            ),
            Ok(release) => match self.identity.asset_name(release.version, self.platform) {
                None => self.fail(self.refusal()),
                Some(asset_name) => match release.download_url(asset_name) {
                    None => self.fail(FailureKindView::AssetNotFound { asset_name }),
                    Some(url) => match self.identity.checksum_policy {
                        ChecksumPolicy::Unverified => {
                            let next = ResolverView {
                                download_url: url,
                                tag: release.version,
                                ..self
                            };
                            next.ask(
                                Stage::InstalledProbe,
                                RequestView::IsFile { path: next.binary_path() },
                            )
                        },
                        ChecksumPolicy::ComputeSha256 => ResolverView {
                            download_url: url,
                            ..self
                        }.ask(
                            Stage::ScratchDir,
                            RequestView::CreateDir { path: self.identity.scratch_directory() },
                        ),
                    },
                },
            },
        }
    }

    /// The first installed copy that is found stands in for a fresh one. Without one the
    /// resolution fails for want of the release index.
    pub open spec fn on_local_scan(self, entries: Seq<DirEntryView>) -> (
        ResolverView,
        ResolutionView,
    ) {
        match existing_binary(entries, self.identity.id, self.binary_name()) {
            Some(path) => self.succeed(path),
            None => self.fail(FailureKindView::ReleaseUnavailable),
        }
    }

    /// A copy that is installed already is not installed again.
    pub open spec fn on_installed_probed(self, is_file: bool) -> (ResolverView, ResolutionView) {
        match self.identity.checksum_policy {
            ChecksumPolicy::Unverified => if is_file {
                self.succeed(self.binary_path())
            } else {
                self.ask(
                    Stage::DownloadNotice,
                    RequestView::Report {
                        server: self.identity.id,
                        status: InstallationStatus::Downloading,
                    },
                )
            },
            ChecksumPolicy::ComputeSha256 => if is_file {
                self.clean_up()
            } else {
                self.ask(
                    Stage::Move,
                    RequestView::Rename {
                        from: self.identity.scratch_file(),
                        to: self.binary_path(),
                    },
                )
            },
        }
    }

    /// Once the scratch directory is there, the download is announced.
    pub open spec fn on_scratch_created(self, outcome: Result<(), Seq<char>>) -> (
        ResolverView,
        ResolutionView,
    ) {
        match outcome {
            Ok(_) => self.ask(
                Stage::DownloadNotice,
                RequestView::Report {
                    server: self.identity.id,
                    status: InstallationStatus::Downloading,
                },
            ),
            Err(reason) => self.fail(
                FailureKindView::InstallFailed { step: InstallStep::CreateDirectory, reason },
            ),
        }
    }

    /// Once the editor shows that a download begins, the asset is downloaded: an archive into
    /// the directory of its version, an executable into the scratch directory.
    pub open spec fn on_download_reported(self) -> (ResolverView, ResolutionView) {
        self.ask(
            Stage::Download,
            match self.identity.checksum_policy {
                ChecksumPolicy::Unverified => RequestView::Download {
                    url: self.download_url,
                    destination: self.directory(),
                    file_type: FileType::Zip,
                },
                ChecksumPolicy::ComputeSha256 => RequestView::Download {
                    url: self.download_url,
                    destination: self.identity.scratch_file(),
                    file_type: FileType::Uncompressed,
                },
            },
        )
    }

    /// An archive that was downloaded is unpacked in place, so its executable is marked next.
    /// An executable that was downloaded is read for its digest.
    pub open spec fn on_downloaded(self, outcome: Result<(), Seq<char>>) -> (
        ResolverView,
        ResolutionView,
    ) {
        match outcome {
            Err(reason) => self.abort(FailureKindView::DownloadFailed { reason }),
            Ok(_) => match self.identity.checksum_policy {
                ChecksumPolicy::Unverified => self.mark_binary(),
                ChecksumPolicy::ComputeSha256 => self.ask(
                    Stage::ScratchRead,
                    RequestView::ReadFile { path: self.identity.scratch_file() },
                ),
            },
        }
    }

    /// The digest of what was downloaded names the directory it is installed in.
    pub open spec fn on_contents(self, outcome: Result<Seq<u8>, Seq<char>>) -> (
        ResolverView,
        ResolutionView,
    ) {
        match outcome {
            Err(reason) => self.abort(
                FailureKindView::InstallFailed { step: InstallStep::ReadDownload, reason },
            ),
            Ok(bytes) => {
                let next = ResolverView { tag: sha256_hex(bytes), ..self };
                next.ask(Stage::ChecksumDir, RequestView::CreateDir { path: next.directory() })
            },
        }
    }

    /// Once the directory named by the digest is there, the executable is looked for in it.
    pub open spec fn on_directory_created(self, outcome: Result<(), Seq<char>>) -> (
        ResolverView,
        ResolutionView,
    ) {
        match outcome {
            Err(reason) => self.abort(
                FailureKindView::InstallFailed { step: InstallStep::CreateDirectory, reason },
            ),
            Ok(_) => self.ask(
                Stage::InstalledProbe,
                RequestView::IsFile { path: self.binary_path() },
            ),
        }
    }

    /// The executable that was moved to its place is marked next.
    pub open spec fn on_moved(self, outcome: Result<(), Seq<char>>) -> (
        ResolverView,
        ResolutionView,
    ) {
        match outcome {
            Err(reason) => self.abort(
                FailureKindView::InstallFailed { step: InstallStep::MoveFile, reason },
            ),
            Ok(_) => self.mark_binary(),
        }
    }

    /// After the executable come the helpers, one by one; after the last of them the outdated
    /// copies are looked for.
    pub open spec fn on_made_executable(self, done: usize, outcome: Result<(), Seq<char>>) -> (
        ResolverView,
        ResolutionView,
    ) {
        match outcome {
            Err(reason) => self.abort(
                FailureKindView::InstallFailed { step: InstallStep::MakeExecutable, reason },
            ),
            Ok(_) => if done < self.identity.helpers.len() {
                self.ask(
                    Stage::Executable((done + 1) as usize),
                    RequestView::MakeExecutable {
                        path: self.identity.path_of(
                            self.identity.helpers[done as int],
                            self.tag,
                            self.platform.os,
                        ),
                    },
                )
            } else {
                self.ask(Stage::Listing, RequestView::List { probe: None })
            },
        }
    }

    /// Every directory of the tool but the one just installed is removed.
    pub open spec fn on_listing(self, entries: Seq<DirEntryView>) -> (
        ResolverView,
        ResolutionView,
    ) {
        self.ask(
            Stage::Removal,
            RequestView::Remove { names: outdated(entries, self.identity.id, self.directory()) },
        )
    }

    /// Once the outdated copies are removed, the installation is over, but for the scratch
    /// directory where one is in use.
    pub open spec fn on_removed(self) -> (ResolverView, ResolutionView) {
        match self.identity.checksum_policy {
            ChecksumPolicy::Unverified => self.succeed(self.binary_path()),
            ChecksumPolicy::ComputeSha256 => self.clean_up(),
        }
    }

    /// Once the scratch directory is removed, the outcome is given: the failure that was kept
    /// back, or else the executable in the directory named by the digest.
    pub open spec fn on_cleaned(self) -> (ResolverView, ResolutionView) {
        match self.failure {
            Some(kind) => self.fail(kind),
            None => self.succeed(self.binary_path()),
        }
    }

    /// What the resolver becomes and answers when the host reports `event`. An event that
    /// does not answer the request that is out ends the resolution.
    pub open spec fn step(self, event: EventView) -> (ResolverView, ResolutionView) {
        match (self.stage, event) {
            (Stage::Idle, EventView::Start { platform }) => self.on_start(platform),
            (Stage::Settings, EventView::Settings { binary }) => self.on_settings(binary),
            (Stage::PathSearch, EventView::Located { path }) => self.on_located(path),
            (Stage::CacheProbe, EventView::FileProbed { is_file }) => self.on_cache_probed(
                is_file,
            ),
            (Stage::CheckingNotice, EventView::Acknowledged) => self.on_checking_reported(),
            (Stage::Release, EventView::Release { release }) => self.on_release(release),
            (Stage::LocalScan, EventView::Listing { entries }) => self.on_local_scan(entries),
            (Stage::InstalledProbe, EventView::FileProbed { is_file }) => {
                self.on_installed_probed(is_file)
            },
            (Stage::ScratchDir, EventView::Completed { outcome }) => self.on_scratch_created(
                outcome,
            ),
            (Stage::DownloadNotice, EventView::Acknowledged) => self.on_download_reported(),
            (Stage::Download, EventView::Completed { outcome }) => self.on_downloaded(outcome),
            (Stage::ScratchRead, EventView::Contents { contents }) => self.on_contents(contents),
            (Stage::ChecksumDir, EventView::Completed { outcome }) => self.on_directory_created(
                outcome,
            ),
            (Stage::Move, EventView::Completed { outcome }) => self.on_moved(outcome),
            (Stage::Executable(done), EventView::Completed { outcome }) => {
                self.on_made_executable(done, outcome)
            },
            (Stage::Listing, EventView::Listing { entries }) => self.on_listing(entries),
            (Stage::Removal, EventView::Acknowledged) => self.on_removed(),
            (Stage::Cleanup, EventView::Acknowledged) => self.on_cleaned(),
            _ => self.fail(FailureKindView::OutOfTurn),
        }
    }
}

} // verus!
