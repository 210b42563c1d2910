//! Shaping captured toolchain output into responses.

use vstd::prelude::*;

use crate::errors::AppError;
use crate::render::render_output;
use crate::render::spec_render;

verus! {

/// What a check, compile or execute request answers: both captured streams,
/// rewritten for the web client. The process exit code is not surfaced; a
/// toolchain failure is ordinary content here, not an error.
pub struct ExecutionOutput {
    pub stdout: String,
    pub stderr: String,
}

/// Builds the response body of a check, compile or execute request: each
/// stream is rendered to HTML, or passed through unchanged where the
/// converter rejects it.
pub fn eval_output(stdout: String, stderr: String) -> (r: ExecutionOutput)
    ensures
        r.stdout@ == spec_render(stdout@),
        r.stderr@ == spec_render(stderr@),
{
    let out = render_output(stdout);
    let err = render_output(stderr);
    ExecutionOutput { stdout: out, stderr: err }
}

/// Decides a version request: any stderr output from the sandboxed invocation
/// fails the request; only a silent stderr returns the captured stdout as the
/// version string, unchanged.
pub fn version_response(stdout: String, stderr: &String) -> (r: Result<String, AppError>)
    ensures
        r is Ok <==> stderr@.len() == 0,
        r matches Ok(v) ==> v@ == stdout@,
        r matches Err(e) ==> e == AppError::UnknownError,
{
    if stderr.as_str().is_empty() {
        Ok(stdout)
    } else {
        Err(AppError::UnknownError)
    }
}

} // verus!
