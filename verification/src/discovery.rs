//! Decision logic of the build-time capability discovery step: which
//! external probing tool to run, and what its captured exit status and
//! streams mean. Spawning processes and writing the generated artifact are
//! the build runner's side; every decision in between is made here.

use vstd::prelude::*;
use vstd::string::StringExecFns;

verus! {

/// Why discovery failed; each failure is fatal to the build.
#[derive(Debug)]
pub enum DiscoveryError {
    /// No candidate tool responded to the trivial version probe; carries
    /// every name tried, for the diagnostic.
    ToolNotFound { tried: Vec<String> },
    /// The tool ran but exited with a non-zero status; carries both
    /// captured streams, for the diagnostic. No artifact is produced.
    ToolFailed { stdout: Vec<u8>, stderr: Vec<u8> },
}

/// Resolves which tool to run: an explicit override is used
/// unconditionally; otherwise the first candidate whose version probe
/// succeeded; otherwise a failure enumerating every candidate tried.
/// `probe_ok[i]` reports the probe of `candidates[i]`.
pub fn select_tool(explicit: Option<String>, candidates: Vec<String>, probe_ok: Vec<bool>) -> (r:
    Result<String, DiscoveryError>)
    requires
        candidates@.len() == probe_ok@.len(),
    ensures
        match explicit {
            Some(name) => (r matches Ok(n) && n@ == name@),
            None => match r {
                Ok(n) => exists|i: int|
                    0 <= i < candidates@.len() && #[trigger] probe_ok@[i] && n@
                        == candidates.deep_view()[i] && forall|j: int| 0 <= j < i ==> !probe_ok@[j],
                Err(DiscoveryError::ToolNotFound { tried }) => tried.deep_view()
                    == candidates.deep_view() && forall|i: int|
                    0 <= i < probe_ok@.len() ==> !(#[trigger] probe_ok@[i]),
                Err(DiscoveryError::ToolFailed { .. }) => false,
            },
        },
{
    match explicit {
        Some(name) => Ok(name),
        None => {
            let n = candidates.len();
            let mut i: usize = 0;
            while i < n
                invariant
                    explicit is None,
                    0 <= i <= n,
                    n == candidates@.len(),
                    n == probe_ok@.len(),
                    forall|j: int| 0 <= j < i ==> !(#[trigger] probe_ok@[j]),
                decreases n - i,
            {
                if probe_ok[i] {
                    let name = candidates[i].clone();
                    proof {
                        assert(probe_ok@[i as int] && name@ == candidates.deep_view()[i as int]);
                    }
                    return Ok(name);
                }
                i = i + 1;
            }
            Err(DiscoveryError::ToolNotFound { tried: candidates })
        },
    }
}

/// Interprets one synchronous run of the tool: on a successful exit its
/// standard-output bytes are the discovery artifact, verbatim; on any other
/// exit the build fails with both captured streams and no artifact exists.
pub fn evaluate_run(exit_ok: bool, stdout: Vec<u8>, stderr: Vec<u8>) -> (r: Result<
    Vec<u8>,
    DiscoveryError,
>)
    ensures
        exit_ok ==> (r matches Ok(artifact) && artifact@ == stdout@),
        !exit_ok ==> (r matches Err(DiscoveryError::ToolFailed { stdout: out, stderr: err })
            && out@ == stdout@ && err@ == stderr@),
{
    if exit_ok {
        Ok(stdout)
    } else {
        Err(DiscoveryError::ToolFailed { stdout, stderr })
    }
}

/// The ordered candidate tool names probed on Unix-like hosts when no
/// override is given.
pub fn unix_tool_candidates() -> (r: Vec<String>)
    ensures
        r.deep_view() =~= seq!["python3.8"@, "python3"@, "python"@],
{
    let mut v: Vec<String> = Vec::new();
    v.push(String::from_str("python3.8"));
    v.push(String::from_str("python3"));
    v.push(String::from_str("python"));
    v
}

/// The ordered candidate tool names probed on Windows hosts when no
/// override is given.
pub fn windows_tool_candidates() -> (r: Vec<String>)
    ensures
        r.deep_view() =~= seq!["python3.8.exe"@, "python38.exe"@, "python.exe"@],
{
    let mut v: Vec<String> = Vec::new();
    v.push(String::from_str("python3.8.exe"));
    v.push(String::from_str("python38.exe"));
    v.push(String::from_str("python.exe"));
    v
}

/// The fixed name of the variable overriding the tool path.
pub fn tool_override_var_name() -> (r: &'static str)
    ensures
        r@ == "PYTHON3"@,
{
    "PYTHON3"
}

/// The fixed file name of the generated artifact under the build output
/// directory.
pub fn artifact_file_name() -> (r: &'static str)
    ensures
        r@ == "gstreamer_plugins.rs"@,
{
    "gstreamer_plugins.rs"
}

} // verus!
