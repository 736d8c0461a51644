//! The resolver: one per tool, kept for the life of the process. It is fed the host's events
//! one by one and answers each with the next request or with the outcome.

use crate::digest::sha256_hex_of;
use crate::failure::{Failure, FailureKind, InstallStep};
use crate::identity::{ChecksumPolicy, ToolIdentity};
use crate::model::{ResolverView, Stage};
use crate::platform::{Architecture, Os, Platform};
use crate::protocol::{
    settings_view, CommandSettings, Event, FileType, InstallationStatus, Reply, Request,
    Resolution, ResolvedCommand,
};
use crate::release::Release;
use crate::store::{find_existing_binary, outdated_versions, DirEntry};
use crate::text::{text_of, texts_of};
use vstd::prelude::*;
use vstd::string::*;

verus! {

/// Resolves the executable of one tool, and remembers where it last installed or found it.
#[derive(Debug)]
pub struct BinaryResolver {
    identity: ToolIdentity,
    cached_binary_path: Option<String>,
    stage: Stage,
    platform: Platform,
    arguments: Option<Vec<String>>,
    download_url: String,
    tag: String,
    failure: Option<FailureKind>,
}

impl View for BinaryResolver {
    type V = ResolverView;

    closed spec fn view(&self) -> ResolverView {
        ResolverView {
            identity: self.identity@,
            cache: text_of(self.cached_binary_path),
            stage: self.stage,
            platform: self.platform,
            arguments: texts_of(self.arguments),
            download_url: self.download_url@,
            tag: self.tag@,
            failure: match self.failure {
                Some(kind) => Some(kind@),
                None => None,
            },
        }
    }
}

impl BinaryResolver {
    /// A resolver for the tool that remembers nothing yet.
    pub fn new(identity: ToolIdentity) -> (resolver: Self)
        ensures
            resolver@ == ResolverView::at_rest(identity@, None, resolver@.platform),
            resolver@.consistent(),
    {
        BinaryResolver {
            identity,
            cached_binary_path: None,
            stage: Stage::Idle,
            platform: Platform { os: Os::Linux, arch: Architecture::X8664 },
            arguments: None,
            download_url: String::new(),
            tag: String::new(),
            failure: None,
        }
    }

    /// The tool this resolver is for.
    pub fn identity(&self) -> (identity: &ToolIdentity)
        ensures
            identity@ == self@.identity,
    {
        &self.identity
    }

    /// The executable the last installation or offline search came up with.
    pub fn cached_binary_path(&self) -> (path: Option<String>)
        ensures
            text_of(path) == self@.cache,
    {
        match &self.cached_binary_path {
            Some(path) => Some(path.clone()),
            None => None,
        }
    }

    /// Whether no resolution is in progress.
    pub fn is_idle(&self) -> (idle: bool)
        ensures
            idle == (self@.stage is Idle),
    {
        match self.stage {
            Stage::Idle => true,
            _ => false,
        }
    }

    fn ask(&mut self, stage: Stage, request: Request) -> (reply: Resolution)
        ensures
            (final(self)@, reply@) == old(self)@.ask(stage, request@),
    {
        self.stage = stage;
        Reply::Ask(request)
    }

    fn fail(&mut self, kind: FailureKind) -> (reply: Resolution)
        ensures
            (final(self)@, reply@) == old(self)@.fail(kind@),
    {
        self.stage = Stage::Idle;
        self.arguments = None;
        self.failure = None;
        Reply::Done(Err(Failure { tool: self.identity.id.clone(), kind }))
    }

    fn answer(&mut self, path: String) -> (reply: Resolution)
        ensures
            (final(self)@, reply@) == old(self)@.answer(path@),
    {
        self.stage = Stage::Idle;
        self.failure = None;
        let args = self.arguments.take();
        Reply::Done(Ok(ResolvedCommand { path, args }))
    }

    fn succeed(&mut self, path: String) -> (reply: Resolution)
        ensures
            (final(self)@, reply@) == old(self)@.succeed(path@),
    {
        self.stage = Stage::Idle;
        self.failure = None;
        self.cached_binary_path = Some(path.clone());
        let args = self.arguments.take();
        Reply::Done(Ok(ResolvedCommand { path, args }))
    }

    fn binary_name(&self) -> (name: String)
        ensures
            name@ == self@.binary_name(),
    {
        self.identity.binary.name(self.platform.os)
    }

    fn directory(&self) -> (directory: String)
        ensures
            directory@ == self@.directory(),
    {
        self.identity.directory(self.tag.as_str())
    }

    fn binary_path(&self) -> (path: String)
        ensures
            path@ == self@.binary_path(),
    {
        self.identity.binary_path(self.tag.as_str(), self.platform.os)
    }

    fn refusal(&self) -> (kind: FailureKind)
        ensures
            kind@ == self@.refusal(),
    {
        if !self.identity.runs_on(self.platform.os) {
            FailureKind::UnsupportedSystem { os: self.platform.os }
        } else {
            FailureKind::UnsupportedArchitecture { arch: self.platform.arch }
        }
    }

    fn report(&self, status: InstallationStatus) -> (request: Request)
        ensures
            request@ == (crate::protocol::RequestView::Report {
                server: self@.identity.id,
                status,
            }),
    {
        Request::Report { server: self.identity.id.clone(), status }
    }

    fn clean_up(&mut self) -> (reply: Resolution)
        ensures
            (final(self)@, reply@) == old(self)@.clean_up(),
    {
        let mut names: Vec<String> = Vec::new();
        names.push(self.identity.scratch_directory());
        assert(crate::text::texts(names@) == seq![self@.identity.scratch_directory()]);
        self.ask(Stage::Cleanup, Request::Remove { names })
    }

    fn abort(&mut self, kind: FailureKind) -> (reply: Resolution)
        ensures
            (final(self)@, reply@) == old(self)@.abort(kind@),
    {
        match self.identity.checksum_policy {
            ChecksumPolicy::Unverified => self.fail(kind),
            ChecksumPolicy::ComputeSha256 => {
                self.failure = Some(kind);
                self.clean_up()
            },
        }
    }

    fn fresh(&mut self) -> (reply: Resolution)
        ensures
            (final(self)@, reply@) == old(self)@.fresh(),
    {
        if self.identity.supports(self.platform) {
            let request = self.report(InstallationStatus::CheckingForUpdate);
            self.ask(Stage::CheckingNotice, request)
        } else {
            let kind = self.refusal();
            self.fail(kind)
        }
    }

    fn mark_binary(&mut self) -> (reply: Resolution)
        ensures
            (final(self)@, reply@) == old(self)@.mark_binary(),
    {
        let path = self.binary_path();
        self.ask(Stage::Executable(0), Request::MakeExecutable { path })
    }

    fn on_start(&mut self, platform: Platform) -> (reply: Resolution)
        ensures
            (final(self)@, reply@) == old(self)@.on_start(platform),
    {
        self.platform = platform;
        self.arguments = None;
        self.download_url = String::new();
        self.tag = String::new();
        self.failure = None;
        let server = self.identity.id.clone();
        self.ask(Stage::Settings, Request::ReadSettings { server })
    }

    fn on_settings(&mut self, binary: Option<CommandSettings>) -> (reply: Resolution)
        ensures
            (final(self)@, reply@) == old(self)@.on_settings(settings_view(binary)),
    {
        match binary {
            Some(settings) => {
                self.arguments = settings.arguments;
                match settings.path {
                    Some(path) => self.answer(path),
                    None => {
                        let name = self.identity.id.clone();
                        self.ask(Stage::PathSearch, Request::Which { name })
                    },
                }
            },
            None => {
                self.arguments = None;
                let name = self.identity.id.clone();
                self.ask(Stage::PathSearch, Request::Which { name })
            },
        }
    }

    fn on_located(&mut self, path: Option<String>) -> (reply: Resolution)
        ensures
            (final(self)@, reply@) == old(self)@.on_located(text_of(path)),
    {
        match path {
            Some(path) => self.answer(path),
            None => {
                match &self.cached_binary_path {
                    Some(cached) => {
                        let path = cached.clone();
                        self.ask(Stage::CacheProbe, Request::IsFile { path })
                    },
                    None => self.fresh(),
                }
            },
        }
    }

    fn on_cache_probed(&mut self, is_file: bool) -> (reply: Resolution)
        ensures
            (final(self)@, reply@) == old(self)@.on_cache_probed(is_file),
    {
        if is_file {
            match &self.cached_binary_path {
                Some(cached) => {
                    let path = cached.clone();
                    self.answer(path)
                },
                None => self.fresh(),
            }
        } else {
            self.fresh()
        }
    }

    fn on_checking_reported(&mut self) -> (reply: Resolution)
        ensures
            (final(self)@, reply@) == old(self)@.on_checking_reported(),
    {
        let repository = self.identity.repository.clone();
        let pre_release = self.identity.requires_prerelease;
        self.ask(
            Stage::Release,
            Request::LatestRelease { repository, require_assets: true, pre_release },
        )
    }

    fn on_release(&mut self, outcome: Result<Release, String>) -> (reply: Resolution)
        ensures
            (final(self)@, reply@) == old(self)@.on_release(
                match outcome {
                    Ok(release) => Ok(release@),
                    Err(reason) => Err(reason@),
                },
            ),
    {
        match outcome {
            Err(_) => {
                let probe = Some(self.binary_name());
                self.ask(Stage::LocalScan, Request::List { probe })
            },
            Ok(release) => {
                match self.identity.asset_name(release.version.as_str(), self.platform) {
                    None => {
                        let kind = self.refusal();
                        self.fail(kind)
                    },
                    Some(asset_name) => {
                        match release.position(&asset_name) {
                            None => self.fail(FailureKind::AssetNotFound { asset_name }),
                            Some(i) => {
                                self.download_url = release.assets[i].download_url.clone();
                                match self.identity.checksum_policy {
                                    ChecksumPolicy::Unverified => {
                                        self.tag = release.version;
                                        let path = self.binary_path();
                                        self.ask(Stage::InstalledProbe, Request::IsFile { path })
                                    },
                                    ChecksumPolicy::ComputeSha256 => {
                                        let path = self.identity.scratch_directory();
                                        self.ask(Stage::ScratchDir, Request::CreateDir { path })
                                    },
                                }
                            },
                        }
                    },
                }
            },
        }
    }

    fn on_local_scan(&mut self, entries: Vec<DirEntry>) -> (reply: Resolution)
        ensures
            (final(self)@, reply@) == old(self)@.on_local_scan(
                crate::store::entry_views(entries@),
            ),
    {
        let binary_name = self.binary_name();
        match find_existing_binary(&entries, self.identity.id.as_str(), binary_name.as_str()) {
            Some(path) => self.succeed(path),
            None => self.fail(FailureKind::ReleaseUnavailable),
        }
    }

    fn on_installed_probed(&mut self, is_file: bool) -> (reply: Resolution)
        ensures
            (final(self)@, reply@) == old(self)@.on_installed_probed(is_file),
    {
        match self.identity.checksum_policy {
            ChecksumPolicy::Unverified => {
                if is_file {
                    let path = self.binary_path();
                    self.succeed(path)
                } else {
                    let request = self.report(InstallationStatus::Downloading);
                    self.ask(Stage::DownloadNotice, request)
                }
            },
            ChecksumPolicy::ComputeSha256 => {
                if is_file {
                    self.clean_up()
                } else {
                    let from = self.identity.scratch_file();
                    let to = self.binary_path();
                    self.ask(Stage::Move, Request::Rename { from, to })
                }
            },
        }
    }

    fn on_scratch_created(&mut self, outcome: Result<(), String>) -> (reply: Resolution)
        ensures
            (final(self)@, reply@) == old(self)@.on_scratch_created(
                match outcome {
                    Ok(_) => Ok(()),
                    Err(reason) => Err(reason@),
                },
            ),
    {
        match outcome {
            Ok(_) => {
                let request = self.report(InstallationStatus::Downloading);
                self.ask(Stage::DownloadNotice, request)
            },
            Err(reason) => self.fail(
                FailureKind::InstallFailed { step: InstallStep::CreateDirectory, reason },
            ),
        }
    }

    fn on_download_reported(&mut self) -> (reply: Resolution)
        ensures
            (final(self)@, reply@) == old(self)@.on_download_reported(),
    {
        let url = self.download_url.clone();
        let request = match self.identity.checksum_policy {
            ChecksumPolicy::Unverified => Request::Download {
                url,
                destination: self.directory(),
                file_type: FileType::Zip,
            },
            ChecksumPolicy::ComputeSha256 => Request::Download {
                url,
                destination: self.identity.scratch_file(),
                file_type: FileType::Uncompressed,
            },
        };
        self.ask(Stage::Download, request)
    }

    fn on_downloaded(&mut self, outcome: Result<(), String>) -> (reply: Resolution)
        ensures
            (final(self)@, reply@) == old(self)@.on_downloaded(
                match outcome {
                    Ok(_) => Ok(()),
                    Err(reason) => Err(reason@),
                },
            ),
    {
        match outcome {
            Err(reason) => self.abort(FailureKind::DownloadFailed { reason }),
            Ok(_) => match self.identity.checksum_policy {
                ChecksumPolicy::Unverified => self.mark_binary(),
                ChecksumPolicy::ComputeSha256 => {
                    let path = self.identity.scratch_file();
                    self.ask(Stage::ScratchRead, Request::ReadFile { path })
                },
            },
        }
    }

    fn on_contents(&mut self, outcome: Result<Vec<u8>, String>) -> (reply: Resolution)
        ensures
            (final(self)@, reply@) == old(self)@.on_contents(
                match outcome {
                    Ok(bytes) => Ok(bytes@),
                    Err(reason) => Err(reason@),
                },
            ),
            outcome is Ok ==> final(self)@.tag.len() == 64,
    {
        match outcome {
            Err(reason) => self.abort(
                FailureKind::InstallFailed { step: InstallStep::ReadDownload, reason },
            ),
            Ok(bytes) => {
                self.tag = sha256_hex_of(&bytes);
                let path = self.directory();
                self.ask(Stage::ChecksumDir, Request::CreateDir { path })
            },
        }
    }

    fn on_directory_created(&mut self, outcome: Result<(), String>) -> (reply: Resolution)
        ensures
            (final(self)@, reply@) == old(self)@.on_directory_created(
                match outcome {
                    Ok(_) => Ok(()),
                    Err(reason) => Err(reason@),
                },
            ),
    {
        match outcome {
            Err(reason) => self.abort(
                FailureKind::InstallFailed { step: InstallStep::CreateDirectory, reason },
            ),
            Ok(_) => {
                let path = self.binary_path();
                self.ask(Stage::InstalledProbe, Request::IsFile { path })
            },
        }
    }

    fn on_moved(&mut self, outcome: Result<(), String>) -> (reply: Resolution)
        ensures
            (final(self)@, reply@) == old(self)@.on_moved(
                match outcome {
                    Ok(_) => Ok(()),
                    Err(reason) => Err(reason@),
                },
            ),
    {
        match outcome {
            Err(reason) => self.abort(
                FailureKind::InstallFailed { step: InstallStep::MoveFile, reason },
            ),
            Ok(_) => self.mark_binary(),
        }
    }

    fn on_made_executable(&mut self, done: usize, outcome: Result<(), String>) -> (reply:
        Resolution)
        ensures
            (final(self)@, reply@) == old(self)@.on_made_executable(
                done,
                match outcome {
                    Ok(_) => Ok(()),
                    Err(reason) => Err(reason@),
                },
            ),
    {
        match outcome {
            Err(reason) => self.abort(
                FailureKind::InstallFailed { step: InstallStep::MakeExecutable, reason },
            ),
            Ok(_) => {
                if done < self.identity.helpers.len() {
                    let path = self.identity.path_of(
                        &self.identity.helpers[done],
                        self.tag.as_str(),
                        self.platform.os,
                    );
                    self.ask(Stage::Executable(done + 1), Request::MakeExecutable { path })
                } else {
                    self.ask(Stage::Listing, Request::List { probe: None })
                }
            },
        }
    }

    fn on_listing(&mut self, entries: Vec<DirEntry>) -> (reply: Resolution)
        ensures
            (final(self)@, reply@) == old(self)@.on_listing(crate::store::entry_views(entries@)),
    {
        let keep = self.directory();
        let names = outdated_versions(&entries, self.identity.id.as_str(), &keep);
        self.ask(Stage::Removal, Request::Remove { names })
    }

    fn on_removed(&mut self) -> (reply: Resolution)
        ensures
            (final(self)@, reply@) == old(self)@.on_removed(),
    {
        match self.identity.checksum_policy {
            ChecksumPolicy::Unverified => {
                let path = self.binary_path();
                self.succeed(path)
            },
            ChecksumPolicy::ComputeSha256 => self.clean_up(),
        }
    }

    fn on_cleaned(&mut self) -> (reply: Resolution)
        ensures
            (final(self)@, reply@) == old(self)@.on_cleaned(),
    {
        match self.failure.take() {
            Some(kind) => self.fail(kind),
            None => {
                let path = self.binary_path();
                self.succeed(path)
            },
        }
    }

    /// Takes the host's report and answers it: with the next request, or, where the
    /// resolution is over, with the executable to start or the reason there is none.
    ///
    /// A resolution begins with `Event::Start`. After `Reply::Done` the resolver is at rest,
    /// and remembers the executable if it installed or found it on disk.
    pub fn step(&mut self, event: Event) -> (reply: Resolution)
        ensures
            (final(self)@, reply@) == old(self)@.step(event@),
            old(self)@.consistent() ==> final(self)@.consistent(),
    {
        let reply = match self.stage {
            Stage::Idle => match event {
                Event::Start { platform } => self.on_start(platform),
                _ => self.fail(FailureKind::OutOfTurn),
            },
            Stage::Settings => match event {
                Event::Settings { binary } => self.on_settings(binary),
                _ => self.fail(FailureKind::OutOfTurn),
            },
            Stage::PathSearch => match event {
                Event::Located { path } => self.on_located(path),
                _ => self.fail(FailureKind::OutOfTurn),
            },
            Stage::CacheProbe => match event {
                Event::FileProbed { is_file } => self.on_cache_probed(is_file),
                _ => self.fail(FailureKind::OutOfTurn),
            },
            Stage::CheckingNotice => match event {
                Event::Acknowledged => self.on_checking_reported(),
                _ => self.fail(FailureKind::OutOfTurn),
            },
            Stage::Release => match event {
                Event::Release { release } => self.on_release(release),
                _ => self.fail(FailureKind::OutOfTurn),
            },
            Stage::LocalScan => match event {
                Event::Listing { entries } => self.on_local_scan(entries),
                _ => self.fail(FailureKind::OutOfTurn),
            },
            Stage::InstalledProbe => match event {
                Event::FileProbed { is_file } => self.on_installed_probed(is_file),
                _ => self.fail(FailureKind::OutOfTurn),
            },
            Stage::ScratchDir => match event {
                Event::Completed { outcome } => self.on_scratch_created(outcome),
                _ => self.fail(FailureKind::OutOfTurn),
            },
            Stage::DownloadNotice => match event {
                Event::Acknowledged => self.on_download_reported(),
                _ => self.fail(FailureKind::OutOfTurn),
            },
            Stage::Download => match event {
                Event::Completed { outcome } => self.on_downloaded(outcome),
                _ => self.fail(FailureKind::OutOfTurn),
            },
            Stage::ScratchRead => match event {
                Event::Contents { contents } => self.on_contents(contents),
                _ => self.fail(FailureKind::OutOfTurn),
            },
            Stage::ChecksumDir => match event {
                Event::Completed { outcome } => self.on_directory_created(outcome),
                _ => self.fail(FailureKind::OutOfTurn),
            },
            Stage::Move => match event {
                Event::Completed { outcome } => self.on_moved(outcome),
                _ => self.fail(FailureKind::OutOfTurn),
            },
            Stage::Executable(done) => match event {
                Event::Completed { outcome } => self.on_made_executable(done, outcome),
                _ => self.fail(FailureKind::OutOfTurn),
            },
            Stage::Listing => match event {
                Event::Listing { entries } => self.on_listing(entries),
                _ => self.fail(FailureKind::OutOfTurn),
            },
            Stage::Removal => match event {
                Event::Acknowledged => self.on_removed(),
                _ => self.fail(FailureKind::OutOfTurn),
            },
            Stage::Cleanup => match event {
                Event::Acknowledged => self.on_cleaned(),
                _ => self.fail(FailureKind::OutOfTurn),
            },
        };
        reply
    }
}

} // verus!
