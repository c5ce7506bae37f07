use vstd::prelude::*;

use crate::container::{CmdOutput, EngineError};
use crate::json::{extract_running_at, extract_version_at, inspect_running_at, json_version_at};

verus! {

// Direct Podman queries.  The caller runs the `podman` binary and hands the
// captured output streams to the functions below.

/// Arguments of the inspect query behind `running`.
pub fn inspect_args(name: &str) -> (r: Vec<String>)
    ensures
        r.deep_view() == seq!["inspect"@, name@],
{
    let mut out: Vec<String> = Vec::new();
    out.push("inspect".to_owned());
    out.push(name.to_owned());
    assert(out.deep_view() =~= seq!["inspect"@, name@]);
    out
}

/// Arguments of the image-inspect query behind `image_exists`.
pub fn image_inspect_args(name: &str) -> (r: Vec<String>)
    ensures
        r.deep_view() == seq!["image"@, "inspect"@, name@],
{
    let mut out: Vec<String> = Vec::new();
    out.push("image".to_owned());
    out.push("inspect".to_owned());
    out.push(name.to_owned());
    assert(out.deep_view() =~= seq!["image"@, "inspect"@, name@]);
    out
}

/// Arguments of the version query behind `version`.
pub fn version_args() -> (r: Vec<String>)
    ensures
        r.deep_view() == seq!["version"@, "--format"@, "{{json .}}"@],
{
    let mut out: Vec<String> = Vec::new();
    out.push("version".to_owned());
    out.push("--format".to_owned());
    out.push("{{json .}}".to_owned());
    assert(out.deep_view() =~= seq!["version"@, "--format"@, "{{json .}}"@]);
    out
}

/// Whether the inspected container is running.  Anything written to the
/// error stream, or an answer of another shape, collapses to false.
pub fn running(stdout: &[u8], stderr: &[u8]) -> (r: bool)
    ensures
        r == (stderr@.len() == 0 && inspect_running_at(stdout@, 0) == Some(true)),
{
    if stderr.len() != 0 {
        return false;
    }
    match extract_running_at(stdout, 0) {
        Some(running) => running,
        None => false,
    }
}

/// Whether the image-inspect invocation succeeded, which is how an image's
/// existence is observed.
pub fn image_exists(success: bool) -> (r: bool)
    ensures
        r == success,
{
    success
}

/// The client version from the version query's answer.
pub fn version(output: &CmdOutput) -> (r: Result<String, EngineError>)
    ensures
        !output.success ==> (r matches Err(EngineError::Failed { stderr }) && stderr@
            == output.stderr@),
        output.success ==> match json_version_at(output.stdout@, "Client"@) {
            Some(v) => r matches Ok(s) && s@ == v,
            None => r matches Err(EngineError::Parse),
        },
{
    if !output.success {
        return Err(EngineError::Failed { stderr: crate::container::clone_bytes(&output.stderr) });
    }
    match extract_version_at(output.stdout.as_slice(), "Client") {
        Some(v) => Ok(v),
        None => Err(EngineError::Parse),
    }
}

} // verus!
