use crate::text::{join2, same_text};
use vstd::prelude::*;

verus! {

/// A processor architecture for which release archives are published.
#[derive(Clone, Copy, Debug, PartialEq, Eq, Structural)]
pub enum Arch {
    X86_64,
    Aarch64,
}

/// An operating system for which release archives are published.
#[derive(Clone, Copy, Debug, PartialEq, Eq, Structural)]
pub enum Os {
    Linux,
    Macos,
    Windows,
}

/// How a release archive is packed.
#[derive(Clone, Copy, Debug, PartialEq, Eq, Structural)]
pub enum ArchiveKind {
    /// A zip archive that holds the executable among its entries.
    Zip,
    /// A gzip stream of the executable itself.
    Gzip,
}

/// An architecture and operating system pair with a published release.
#[derive(Clone, Copy, Debug, PartialEq, Eq, Structural)]
pub struct Target {
    pub arch: Arch,
    pub os: Os,
}

/// The architecture named by the host's identifier, if it is a known one.
pub open spec fn spec_parse_arch(name: Seq<char>) -> Option<Arch> {
    if name == "x86_64"@ {
        Some(Arch::X86_64)
    } else if name == "aarch64"@ {
        Some(Arch::Aarch64)
    } else {
        None
    }
}

/// The operating system named by the host's identifier, if it is a known one.
pub open spec fn spec_parse_os(name: Seq<char>) -> Option<Os> {
    if name == "linux"@ {
        Some(Os::Linux)
    } else if name == "macos"@ {
        Some(Os::Macos)
    } else if name == "windows"@ {
        Some(Os::Windows)
    } else {
        None
    }
}

/// The target named by the host's two identifiers; both must be known.
pub open spec fn spec_parse_target(arch: Seq<char>, os: Seq<char>) -> Option<Target> {
    match (spec_parse_arch(arch), spec_parse_os(os)) {
        (Some(a), Some(o)) => Some(Target { arch: a, os: o }),
        _ => None,
    }
}

/// The architecture part of a release name.
pub open spec fn arch_part(arch: Arch) -> Seq<char> {
    match arch {
        Arch::X86_64 => "x86_64"@,
        Arch::Aarch64 => "aarch64"@,
    }
}

/// The vendor and system part of a release name.
pub open spec fn os_part(os: Os) -> Seq<char> {
    match os {
        Os::Linux => "unknown-linux-gnu"@,
        Os::Macos => "apple-darwin"@,
        Os::Windows => "pc-windows-msvc"@,
    }
}

/// The name shared by a target's archive and executable, without extension:
/// `rust-analyzer-<arch>-<system>`.
pub open spec fn release_stem(target: Target) -> Seq<char> {
    "rust-analyzer-"@ + arch_part(target.arch) + "-"@ + os_part(target.os)
}

/// The file name under which the executable is stored: the stem, with `.exe`
/// on Windows.
pub open spec fn spec_binary_name(target: Target) -> Seq<char> {
    if target.os == Os::Windows {
        release_stem(target) + ".exe"@
    } else {
        release_stem(target)
    }
}

/// How the target's release archive is packed: zip on Windows, gzip elsewhere.
pub open spec fn spec_archive_kind(target: Target) -> ArchiveKind {
    if target.os == Os::Windows {
        ArchiveKind::Zip
    } else {
        ArchiveKind::Gzip
    }
}

/// The file name of the release archive: the stem with `.zip` or `.gz`.
pub open spec fn spec_archive_name(target: Target) -> Seq<char> {
    match spec_archive_kind(target) {
        ArchiveKind::Zip => release_stem(target) + ".zip"@,
        ArchiveKind::Gzip => release_stem(target) + ".gz"@,
    }
}

/// The address from which the release archive is fetched.
pub open spec fn spec_download_url(target: Target) -> Seq<char> {
    "https://github.com/rust-lang/rust-analyzer/releases/latest/download/"@ + spec_archive_name(
        target,
    )
}

/// The command looked up on the search path when none is configured:
/// `rust-analyzer`, with `.exe` where the host reports Windows.
pub open spec fn spec_default_command(os: Seq<char>) -> Seq<char> {
    if os == "windows"@ {
        "rust-analyzer.exe"@
    } else {
        "rust-analyzer"@
    }
}

/// Reads the host's architecture identifier.
pub fn parse_arch(name: &str) -> (r: Option<Arch>)
    ensures
        r == spec_parse_arch(name@),
{
    if same_text(name, "x86_64") {
        Some(Arch::X86_64)
    } else if same_text(name, "aarch64") {
        Some(Arch::Aarch64)
    } else {
        None
    }
}

/// Reads the host's operating system identifier.
pub fn parse_os(name: &str) -> (r: Option<Os>)
    ensures
        r == spec_parse_os(name@),
{
    if same_text(name, "linux") {
        Some(Os::Linux)
    } else if same_text(name, "macos") {
        Some(Os::Macos)
    } else if same_text(name, "windows") {
        Some(Os::Windows)
    } else {
        None
    }
}

/// The command looked up on the search path when none is configured.
pub fn default_command(os: &str) -> (r: String)
    ensures
        r@ == spec_default_command(os@),
{
    if same_text(os, "windows") {
        String::from_str("rust-analyzer.exe")
    } else {
        String::from_str("rust-analyzer")
    }
}

impl Target {
    /// The target that the host's two identifiers name, where both are known.
    pub fn from_host(arch: &str, os: &str) -> (r: Option<Target>)
        ensures
            r == spec_parse_target(arch@, os@),
    {
        match parse_arch(arch) {
            Some(a) => match parse_os(os) {
                Some(o) => Some(Target { arch: a, os: o }),
                None => None,
            },
            None => None,
        }
    }

    /// Whether the target is a Windows system.
    pub fn is_windows(&self) -> (r: bool)
        ensures
            r == (self.os == Os::Windows),
    {
        match self.os {
            Os::Windows => true,
            _ => false,
        }
    }

    /// How the target's release archive is packed.
    pub fn archive_kind(&self) -> (r: ArchiveKind)
        ensures
            r == spec_archive_kind(*self),
    {
        if self.is_windows() {
            ArchiveKind::Zip
        } else {
            ArchiveKind::Gzip
        }
    }

    fn stem(&self) -> (r: String)
        ensures
            r@ == release_stem(*self),
    {
        let arch = match self.arch {
            Arch::X86_64 => "x86_64",
            Arch::Aarch64 => "aarch64",
        };
        let os = match self.os {
            Os::Linux => "unknown-linux-gnu",
            Os::Macos => "apple-darwin",
            Os::Windows => "pc-windows-msvc",
        };
        let mut out = join2("rust-analyzer-", arch);
        out.append("-");
        out.append(os);
        out
    }

    /// The file name under which the executable is stored.
    pub fn binary_name(&self) -> (r: String)
        ensures
            r@ == spec_binary_name(*self),
    {
        let mut out = self.stem();
        if self.is_windows() {
            out.append(".exe");
        }
        out
    }

    /// The file name of the release archive.
    pub fn archive_name(&self) -> (r: String)
        ensures
            r@ == spec_archive_name(*self),
    {
        let mut out = self.stem();
        match self.archive_kind() {
            ArchiveKind::Zip => out.append(".zip"),
            ArchiveKind::Gzip => out.append(".gz"),
        }
        out
    }

    /// The address from which the release archive is fetched.
    pub fn download_url(&self) -> (r: String)
        ensures
            r@ == spec_download_url(*self),
    {
        let name = self.archive_name();
        join2(
            "https://github.com/rust-lang/rust-analyzer/releases/latest/download/",
            name.as_str(),
        )
    }
}

} // verus!
