//! The backend invoker's decision logic: the image tag, the exact invocation
//! arguments, and the classification of the capability probe and of the
//! build's exit outcome. The surrounding application runs the external build
//! backend itself.

use vstd::prelude::*;
use crate::errors::BackendError;

verus! {

/// Computes the tag the built image is labelled with: `<name>:<version>`.
pub fn image_tag(name: &str, version: &str) -> (r: String)
    ensures
        r@ == name@ + ":"@ + version@,
{
    let mut r = String::from_str(name);
    r.append(":");
    r.append(version);
    r
}

/// The arguments of the build invocation: an extended build that exports a
/// locally loadable image archive named `image.tar` (never pushed to a
/// registry), labelled with the tag, with the staging directory — the
/// process's working directory — as build context.
pub open spec fn build_invocation(tag: Seq<char>) -> Seq<Seq<char>> {
    seq![
        "buildx"@,
        "build"@,
        "--output"@,
        "type=docker,dest=image.tar"@,
        "--tag"@,
        tag,
        "."@,
    ]
}

/// Computes the argument list of the build invocation for one tag; the
/// backend executable itself is the application's concern.
pub fn build_args(tag: &str) -> (r: Vec<String>)
    ensures
        r.deep_view() == build_invocation(tag@),
{
    let mut r: Vec<String> = Vec::new();
    r.push(String::from_str("buildx"));
    r.push(String::from_str("build"));
    r.push(String::from_str("--output"));
    r.push(String::from_str("type=docker,dest=image.tar"));
    r.push(String::from_str("--tag"));
    r.push(String::from_str(tag));
    r.push(String::from_str("."));
    assert(r.deep_view() =~= build_invocation(tag@));
    r
}

/// Classifies the extended-capability probe: succeeds exactly when the probe
/// did, and otherwise reports the missing capability — a configuration
/// problem, to be fixed by the operator before any build is attempted.
pub fn check_capability(probe_succeeded: bool) -> (r: Result<(), BackendError>)
    ensures
        r is Ok <==> probe_succeeded,
        r matches Err(e) ==> e is CapabilityMissing,
{
    if probe_succeeded {
        Ok(())
    } else {
        Err(BackendError::CapabilityMissing)
    }
}

/// Classifies the build invocation's exit: succeeds exactly when the backend
/// exited successfully, and otherwise reports the failed build, directing
/// the caller to the backend's own streamed diagnostics.
pub fn check_build_exit(build_succeeded: bool) -> (r: Result<(), BackendError>)
    ensures
        r is Ok <==> build_succeeded,
        r matches Err(e) ==> e is BuildFailed,
{
    if build_succeeded {
        Ok(())
    } else {
        Err(BackendError::BuildFailed)
    }
}

} // verus!
