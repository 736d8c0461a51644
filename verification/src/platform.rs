//! The machine a tool is to run on, and the names release assets use for it.

use vstd::prelude::*;

verus! {

/// An operating system.
#[derive(Clone, Copy, Debug, PartialEq, Eq, Structural)]
pub enum Os {
    Mac,
    Linux,
    Windows,
}

/// A processor architecture.
#[derive(Clone, Copy, Debug, PartialEq, Eq, Structural)]
pub enum Architecture {
    Aarch64,
    X86,
    X8664,
}

/// The operating system and architecture of the running editor.
#[derive(Clone, Copy, Debug, PartialEq, Eq, Structural)]
pub struct Platform {
    pub os: Os,
    pub arch: Architecture,
}

/// The name release assets use for an operating system.
pub open spec fn os_name(os: Os) -> Seq<char> {
    match os {
        Os::Mac => "darwin"@,
        Os::Linux => "linux"@,
        Os::Windows => "windows"@,
    }
}

/// The name release assets use for an architecture; 32-bit x86 has none.
pub open spec fn arch_name(arch: Architecture) -> Option<Seq<char>> {
    match arch {
        Architecture::Aarch64 => Some("arm64"@),
        Architecture::X8664 => Some("amd64"@),
        Architecture::X86 => None,
    }
}

/// What follows the name of an executable file: `.exe` on Windows, nothing elsewhere.
pub open spec fn executable_suffix(os: Os) -> Seq<char> {
    match os {
        Os::Windows => ".exe"@,
        _ => ""@,
    }
}

/// The extension of a shell script: `bat` on Windows, `sh` elsewhere.
pub open spec fn script_extension(os: Os) -> Seq<char> {
    match os {
        Os::Windows => "bat"@,
        _ => "sh"@,
    }
}

impl Os {
    /// The name release assets use for this operating system.
    pub fn asset_name(self) -> (name: &'static str)
        ensures
            name@ == os_name(self),
    {
        match self {
            Os::Mac => "darwin",
            Os::Linux => "linux",
            Os::Windows => "windows",
        }
    }

    /// What follows the name of an executable file on this operating system.
    pub fn executable_suffix(self) -> (suffix: &'static str)
        ensures
            suffix@ == executable_suffix(self),
    {
        match self {
            Os::Windows => ".exe",
            _ => "",
        }
    }

    /// The extension of a shell script on this operating system.
    pub fn script_extension(self) -> (extension: &'static str)
        ensures
            extension@ == script_extension(self),
    {
        match self {
            Os::Windows => "bat",
            _ => "sh",
        }
    }
}

impl Architecture {
    /// The name release assets use for this architecture, if it has one.
    pub fn asset_name(self) -> (name: Option<&'static str>)
        ensures
            name is Some <==> arch_name(self) is Some,
            name is Some ==> name->0@ == arch_name(self)->0,
    {
        match self {
            Architecture::Aarch64 => Some("arm64"),
            Architecture::X8664 => Some("amd64"),
            Architecture::X86 => None,
        }
    }
}

} // verus!
