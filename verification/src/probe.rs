use vstd::prelude::*;

use crate::container::{ContainerManager, PodmanManager};

verus! {

/// The major, minor and patch numbers of `s` read as a semantic version, if
/// it is one.
pub uninterp spec fn semver_triple(s: Seq<char>) -> Option<(u64, u64, u64)>;

/// Relies on semver::Version::parse: the three numeric components of a
/// semantic version.  The result depends on the text alone.
#[verifier::external_body]
pub fn parse_version_triple(s: &str) -> (r: Option<(u64, u64, u64)>)
    ensures
        r == semver_triple(s@),
{
    match semver::Version::parse(s) {
        Ok(v) => Some((v.major, v.minor, v.patch)),
        Err(_) => None,
    }
}

/// The minimum Podman version this tool drives: the flags it passes are
/// assumed present from 4.6 on.
pub open spec fn spec_podman_version_ok(major: u64, minor: u64) -> bool {
    major > 4 || (major == 4 && minor >= 6)
}

/// Whether a Podman of that version may be used.
pub fn podman_version_ok(major: u64, minor: u64) -> (r: bool)
    ensures
        r == spec_podman_version_ok(major, minor),
{
    major > 4 || (major == 4 && minor >= 6)
}

/// Why probing an engine failed.  A too-old version is its own diagnostic
/// rather than a silent degradation.
#[derive(Debug, Clone, Copy, Eq, PartialEq, Structural)]
pub enum ProbeError {
    /// The engine binary could not be run at all.
    NotFound,
    /// The binary exists but its version query failed.
    NoVersion,
    /// The version query answered with text that is not a version.
    UnparseableVersion,
    /// The version is below the minimum this tool drives.
    VersionTooOld,
}

/// Whether Docker may be used, given whether its binary answered at all and
/// what its version query yielded.  Docker has no minimum version: any
/// parseable version answer is accepted.
pub fn probe_docker(exists: bool, version: &Option<String>) -> (r: bool)
    ensures
        r == (exists && version is Some),
{
    exists && version.is_some()
}

/// Whether Podman may be used: the binary must answer, the version query
/// must yield a semantic version, and the version must meet the minimum.
pub fn probe_podman(exists: bool, version: &Option<String>) -> (r: Result<
    ContainerManager,
    ProbeError,
>)
    ensures
        !exists ==> r == Err::<ContainerManager, ProbeError>(ProbeError::NotFound),
        exists && version is None ==> r == Err::<ContainerManager, ProbeError>(
            ProbeError::NoVersion,
        ),
        exists ==> (version matches Some(v) ==> match semver_triple(v@) {
            Some((major, minor, patch)) => if spec_podman_version_ok(major, minor) {
                r matches Ok(m) && m is Podman
            } else {
                r == Err::<ContainerManager, ProbeError>(ProbeError::VersionTooOld)
            },
            None => r == Err::<ContainerManager, ProbeError>(ProbeError::UnparseableVersion),
        }),
{
    if !exists {
        return Err(ProbeError::NotFound);
    }
    let v = match version {
        Some(v) => v,
        None => {
            return Err(ProbeError::NoVersion);
        },
    };
    match parse_version_triple(v.as_str()) {
        Some((major, minor, _patch)) => {
            if podman_version_ok(major, minor) {
                Ok(ContainerManager::Podman(PodmanManager::new()))
            } else {
                Err(ProbeError::VersionTooOld)
            }
        },
        None => Err(ProbeError::UnparseableVersion),
    }
}

} // verus!
