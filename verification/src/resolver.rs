//! The platform resolver: a pure map from a host platform and a release
//! version to the name of the release asset that carries its build.

use vstd::prelude::*;
use vstd::string::StringExecFns;

verus! {

/// Operating systems a host may report.
#[derive(Clone, Copy, PartialEq, Eq, Structural, Debug)]
pub enum OsKind {
    Mac,
    Linux,
    Windows,
}

/// Processor architectures a host may report.
#[derive(Clone, Copy, PartialEq, Eq, Structural, Debug)]
pub enum ArchKind {
    Aarch64,
    X8664,
    X86,
}

/// Which rule rejected a platform: the operating system itself, the
/// architecture itself, or the particular combination of the two.
#[derive(Clone, Copy, PartialEq, Eq, Structural, Debug)]
pub enum RejectReason {
    Os,
    Arch,
    ArchOsCombo,
}

/// A platform pair that has no published build, with the rule that
/// rejected it.
#[derive(Clone, Copy, PartialEq, Eq, Structural, Debug)]
pub struct UnsupportedPlatform {
    pub os: OsKind,
    pub arch: ArchKind,
    pub reason: RejectReason,
}

/// The platform pairs for which a build is published: both macOS
/// architectures, and 64-bit x86 Linux.
pub open spec fn supported(os: OsKind, arch: ArchKind) -> bool {
    ||| (os == OsKind::Mac && arch == ArchKind::Aarch64)
    ||| (os == OsKind::Mac && arch == ArchKind::X8664)
    ||| (os == OsKind::Linux && arch == ArchKind::X8664)
}

/// The reason reported for an unsupported pair.  The operating system is
/// examined first, so Windows is rejected as such even on 32-bit x86.
pub open spec fn rejection_reason(os: OsKind, arch: ArchKind) -> RejectReason {
    if os == OsKind::Windows {
        RejectReason::Os
    } else if arch == ArchKind::X86 {
        RejectReason::Arch
    } else {
        RejectReason::ArchOsCombo
    }
}

/// The textual token naming a supported operating system in asset names.
pub open spec fn os_token(os: OsKind) -> Seq<char> {
    match os {
        OsKind::Mac => "darwin"@,
        OsKind::Linux => "linux"@,
        OsKind::Windows => Seq::<char>::empty(),
    }
}

/// The textual token naming a supported architecture in asset names.
pub open spec fn arch_token(arch: ArchKind) -> Seq<char> {
    match arch {
        ArchKind::Aarch64 => "aarch64"@,
        ArchKind::X8664 => "x86_64"@,
        ArchKind::X86 => Seq::<char>::empty(),
    }
}

/// Linux builds are statically linked against an alternate C library and
/// carry a fixed marker for it; other builds append nothing.
pub open spec fn linkage_suffix(os: OsKind) -> Seq<char> {
    if os == OsKind::Linux {
        "-musl"@
    } else {
        Seq::<char>::empty()
    }
}

/// The asset filename expected for a release version on a supported
/// platform.
pub open spec fn spec_asset_name(version: Seq<char>, os: OsKind, arch: ArchKind) -> Seq<char> {
    "shebe-"@ + version + "-"@ + os_token(os) + "-"@ + arch_token(arch) + linkage_suffix(os)
        + ".tar.gz"@
}

/// Whether a build is published for this platform pair.
pub fn platform_supported(os: OsKind, arch: ArchKind) -> (b: bool)
    ensures
        b == supported(os, arch),
{
    (os == OsKind::Mac && (arch == ArchKind::Aarch64 || arch == ArchKind::X8664)) || (os
        == OsKind::Linux && arch == ArchKind::X8664)
}

/// The rejection reported for an unsupported platform pair.
pub fn reject(os: OsKind, arch: ArchKind) -> (e: UnsupportedPlatform)
    requires
        !supported(os, arch),
    ensures
        e == (UnsupportedPlatform { os, arch, reason: rejection_reason(os, arch) }),
{
    let reason = if os == OsKind::Windows {
        RejectReason::Os
    } else if arch == ArchKind::X86 {
        RejectReason::Arch
    } else {
        RejectReason::ArchOsCombo
    };
    UnsupportedPlatform { os, arch, reason }
}

/// Compute the asset filename for a release version on the given platform,
/// or reject the platform if no build is published for it.
pub fn resolve(version: &str, os: OsKind, arch: ArchKind) -> (r: Result<
    String,
    UnsupportedPlatform,
>)
    ensures
        supported(os, arch) ==> (r matches Ok(name) && name@ == spec_asset_name(
            version@,
            os,
            arch,
        )),
        !supported(os, arch) ==> (r matches Err(e) && e == (UnsupportedPlatform {
            os,
            arch,
            reason: rejection_reason(os, arch),
        })),
{
    if !platform_supported(os, arch) {
        return Err(reject(os, arch));
    }
    let os_tok: &str = if os == OsKind::Linux {
        "linux"
    } else {
        "darwin"
    };
    let arch_tok: &str = if arch == ArchKind::Aarch64 {
        "aarch64"
    } else {
        "x86_64"
    };
    let mut name: String = "shebe-".to_owned();
    name.append(version);
    name.append("-");
    name.append(os_tok);
    name.append("-");
    name.append(arch_tok);
    if os == OsKind::Linux {
        name.append("-musl");
    }
    name.append(".tar.gz");
    proof {
        assert(name@ =~= spec_asset_name(version@, os, arch));
    }
    Ok(name)
}

/// Resolution is deterministic: two names resolved for the same version
/// and platform are the same name.
pub proof fn lemma_resolve_deterministic(
    version: Seq<char>,
    os: OsKind,
    arch: ArchKind,
    n1: Seq<char>,
    n2: Seq<char>,
)
    requires
        n1 == spec_asset_name(version, os, arch),
        n2 == spec_asset_name(version, os, arch),
    ensures
        n1 == n2,
{
}

/// Linux on aarch64 is rejected whatever the version: `resolve` never
/// consults the version when it refuses a platform, and reports the
/// combination, not either component, as the reason.
pub proof fn lemma_linux_aarch64_rejected()
    ensures
        !supported(OsKind::Linux, ArchKind::Aarch64),
        rejection_reason(OsKind::Linux, ArchKind::Aarch64) == RejectReason::ArchOsCombo,
{
}

/// Windows is rejected with every architecture, whatever the version,
/// and the operating system is named as the reason.
pub proof fn lemma_windows_rejected(arch: ArchKind)
    ensures
        !supported(OsKind::Windows, arch),
        rejection_reason(OsKind::Windows, arch) == RejectReason::Os,
{
}

/// 32-bit x86 is rejected with every operating system, whatever the
/// version; anywhere but Windows the architecture is named as the reason.
pub proof fn lemma_x86_rejected(os: OsKind)
    ensures
        !supported(os, ArchKind::X86),
        os != OsKind::Windows ==> rejection_reason(os, ArchKind::X86) == RejectReason::Arch,
{
}

} // verus!
