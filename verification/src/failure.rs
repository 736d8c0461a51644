//! Why a resolution failed, and how the failure is told to the user.

use crate::platform::{Architecture, Os};
use crate::text::join3;
use vstd::prelude::*;
use vstd::string::*;

verus! {

/// The step of an installation that the file system refused.
#[derive(Clone, Copy, Debug, PartialEq, Eq, Structural)]
pub enum InstallStep {
    CreateDirectory,
    ReadDownload,
    MoveFile,
    MakeExecutable,
}

/// What went wrong.
#[derive(Clone, Debug, PartialEq, Eq)]
pub enum FailureKind {
    /// The tool does not run on the operating system.
    UnsupportedSystem { os: Os },
    /// The tool publishes no asset for the architecture.
    UnsupportedArchitecture { arch: Architecture },
    /// The latest release has no asset of the name the tool's convention gives.
    AssetNotFound { asset_name: String },
    /// The release index could not be reached, and no installed copy could stand in.
    ReleaseUnavailable,
    /// The asset could not be downloaded. `reason` is the host's account.
    DownloadFailed { reason: String },
    /// The file system refused a step of the installation. `reason` is the host's account.
    InstallFailed { step: InstallStep, reason: String },
    /// The host answered a question that had not been asked.
    OutOfTurn,
}

/// What a [`FailureKind`] holds, as plain values.
pub enum FailureKindView {
    UnsupportedSystem { os: Os },
    UnsupportedArchitecture { arch: Architecture },
    AssetNotFound { asset_name: Seq<char> },
    ReleaseUnavailable,
    DownloadFailed { reason: Seq<char> },
    InstallFailed { step: InstallStep, reason: Seq<char> },
    OutOfTurn,
}

impl View for FailureKind {
    type V = FailureKindView;

    open spec fn view(&self) -> FailureKindView {
        match self {
            FailureKind::UnsupportedSystem { os } => FailureKindView::UnsupportedSystem { os: *os },
            FailureKind::UnsupportedArchitecture { arch } => {
                FailureKindView::UnsupportedArchitecture { arch: *arch }
            },
            FailureKind::AssetNotFound { asset_name } => FailureKindView::AssetNotFound {
                asset_name: asset_name@,
            },
            FailureKind::ReleaseUnavailable => FailureKindView::ReleaseUnavailable,
            FailureKind::DownloadFailed { reason } => FailureKindView::DownloadFailed {
                reason: reason@,
            },
            FailureKind::InstallFailed { step, reason } => FailureKindView::InstallFailed {
                step: *step,
                reason: reason@,
            },
            FailureKind::OutOfTurn => FailureKindView::OutOfTurn,
        }
    }
}

/// A failed resolution: the tool it was for, and what went wrong.
#[derive(Clone, Debug, PartialEq, Eq)]
pub struct Failure {
    /// The id of the tool.
    pub tool: String,
    pub kind: FailureKind,
}

/// What a [`Failure`] holds, as plain values.
pub struct FailureView {
    pub tool: Seq<char>,
    pub kind: FailureKindView,
}

impl View for Failure {
    type V = FailureView;

    open spec fn view(&self) -> FailureView {
        FailureView { tool: self.tool@, kind: self.kind@ }
    }
}

/// How an operating system is called in a message.
pub open spec fn os_label(os: Os) -> Seq<char> {
    match os {
        Os::Mac => "Os::Mac"@,
        Os::Linux => "Os::Linux"@,
        Os::Windows => "Os::Windows"@,
    }
}

/// How an architecture is called in a message.
pub open spec fn arch_label(arch: Architecture) -> Seq<char> {
    match arch {
        Architecture::Aarch64 => "Architecture::Aarch64"@,
        Architecture::X86 => "Architecture::X86"@,
        Architecture::X8664 => "Architecture::X8664"@,
    }
}

/// What a message says of a refused installation step, before the host's account. Of a file
/// that could not be made executable the host's account is all that is said.
pub open spec fn step_label(step: InstallStep) -> Seq<char> {
    match step {
        InstallStep::CreateDirectory => "failed to create directory: "@,
        InstallStep::ReadDownload => "failed to read downloaded file: "@,
        InstallStep::MoveFile => "failed to move file: "@,
        InstallStep::MakeExecutable => ""@,
    }
}

impl FailureKindView {
    /// Whether the failure is one of the network: the release index or a download.
    pub open spec fn is_network(self) -> bool {
        self is ReleaseUnavailable || self is DownloadFailed
    }

    /// Whether the failure is that the platform is not supported.
    pub open spec fn is_unsupported_platform(self) -> bool {
        self is UnsupportedSystem || self is UnsupportedArchitecture
    }

    /// What happened, without the name of the tool.
    pub open spec fn detail(self) -> Seq<char> {
        match self {
            FailureKindView::UnsupportedSystem { os } => "unsupported platform: "@ + os_label(os),
            FailureKindView::UnsupportedArchitecture { arch } => "unsupported architecture: "@
                + arch_label(arch),
            FailureKindView::AssetNotFound { asset_name } => "no asset found matching \""@
                + asset_name + "\""@,
            FailureKindView::ReleaseUnavailable => "failed to download latest github release"@,
            FailureKindView::DownloadFailed { reason } => "failed to download file: "@ + reason,
            FailureKindView::InstallFailed { step, reason } => step_label(step) + reason,
            FailureKindView::OutOfTurn => "the host answered a question that was not asked"@,
        }
    }
}

impl FailureView {
    /// The message for the user: the tool's id, a colon, and what happened.
    pub open spec fn message(self) -> Seq<char> {
        self.tool + ": "@ + self.kind.detail()
    }
}

/// Every message begins with the id of the tool that failed, so that the user can tell the
/// language servers apart.
pub proof fn lemma_message_names_tool(failure: FailureView)
    ensures
        failure.tool.is_prefix_of(failure.message()),
{
    assert(failure.message().subrange(0, failure.tool.len() as int) == failure.tool);
}

impl Os {
    /// How the operating system is called in a message.
    pub fn label(self) -> (label: &'static str)
        ensures
            label@ == os_label(self),
    {
        match self {
            Os::Mac => "Os::Mac",
            Os::Linux => "Os::Linux",
            Os::Windows => "Os::Windows",
        }
    }
}

impl Architecture {
    /// How the architecture is called in a message.
    pub fn label(self) -> (label: &'static str)
        ensures
            label@ == arch_label(self),
    {
        match self {
            Architecture::Aarch64 => "Architecture::Aarch64",
            Architecture::X86 => "Architecture::X86",
            Architecture::X8664 => "Architecture::X8664",
        }
    }
}

impl InstallStep {
    /// What a message says of the step, before the host's account.
    pub fn label(self) -> (label: &'static str)
        ensures
            label@ == step_label(self),
    {
        match self {
            InstallStep::CreateDirectory => "failed to create directory: ",
            InstallStep::ReadDownload => "failed to read downloaded file: ",
            InstallStep::MoveFile => "failed to move file: ",
            InstallStep::MakeExecutable => "",
        }
    }
}

impl FailureKind {
    /// Whether the failure is one of the network: the release index or a download.
    pub fn is_network(&self) -> (network: bool)
        ensures
            network == self@.is_network(),
    {
        match self {
            FailureKind::ReleaseUnavailable => true,
            FailureKind::DownloadFailed { .. } => true,
            _ => false,
        }
    }

    /// Whether the failure is that the platform is not supported.
    pub fn is_unsupported_platform(&self) -> (unsupported: bool)
        ensures
            unsupported == self@.is_unsupported_platform(),
    {
        match self {
            FailureKind::UnsupportedSystem { .. } => true,
            FailureKind::UnsupportedArchitecture { .. } => true,
            _ => false,
        }
    }

    /// What happened, without the name of the tool.
    pub fn detail(&self) -> (detail: String)
        ensures
            detail@ == self@.detail(),
    {
        match self {
            FailureKind::UnsupportedSystem { os } => {
                String::from_str("unsupported platform: ").concat(os.label())
            },
            FailureKind::UnsupportedArchitecture { arch } => {
                String::from_str("unsupported architecture: ").concat(arch.label())
            },
            FailureKind::AssetNotFound { asset_name } => {
                join3("no asset found matching \"", asset_name.as_str(), "\"")
            },
            FailureKind::ReleaseUnavailable => {
                String::from_str("failed to download latest github release")
            },
            FailureKind::DownloadFailed { reason } => {
                String::from_str("failed to download file: ").concat(reason.as_str())
            },
            FailureKind::InstallFailed { step, reason } => {
                String::from_str(step.label()).concat(reason.as_str())
            },
            FailureKind::OutOfTurn => {
                String::from_str("the host answered a question that was not asked")
            },
        }
    }
}

impl Failure {
    /// The message for the user: the tool's id, a colon, and what happened.
    pub fn message(&self) -> (message: String)
        ensures
            message@ == self@.message(),
    {
        let detail = self.kind.detail();
        join3(self.tool.as_str(), ": ", detail.as_str())
    }
}

} // verus!
