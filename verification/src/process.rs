//! Judging what a finished child process reported.
//!
//! Running the process is the surrounding application's work; it hands the
//! exit status and the captured streams back as plain values. The rule is the
//! library's: a successful exit is success, and any other exit surfaces the
//! tool's own captured output verbatim in a tool-execution error, never a
//! generic failure.

use vstd::prelude::*;
use vstd::string::StringExecFns;

use crate::error::{KawsError, KawsErrorKind, KawsResult};

verus! {

/// What a finished child process left behind: its exit verdict, its raw
/// standard output for structured decoding, and the operator-facing text
/// renderings of both streams that the runner produced.
pub struct ProcessOutput {
    pub success: bool,
    pub stdout: Vec<u8>,
    pub stdout_text: String,
    pub stderr_text: String,
}

/// The message of a tool-execution error for the named invocation.
pub open spec fn exec_failure_message(description: Seq<char>) -> Seq<char> {
    "Execution of `"@ + description + "` failed."@
}

/// Builds the message of a tool-execution error for the named invocation.
pub fn failure_message(description: &str) -> (r: String)
    ensures
        r@ == exec_failure_message(description@),
{
    let mut m = String::from_str("Execution of `");
    m.append(description);
    m.append("` failed.");
    m
}

/// The judgment on a finished child process: success is silent, and a
/// nonzero exit becomes a tool-execution error that carries the tool's own
/// captured streams.
pub fn process_outcome(description: &str, output: &ProcessOutput) -> (r: KawsResult)
    ensures
        output.success ==> (r matches Ok(m) && m is None),
        !output.success ==> (r matches Err(e) && {
            &&& e.kind == KawsErrorKind::ToolExecution
            &&& e.message@ == exec_failure_message(description@)
            &&& e.stdout matches Some(o) && o@ == output.stdout_text@
            &&& e.stderr matches Some(s) && s@ == output.stderr_text@
        }),
{
    if output.success {
        Ok(None)
    } else {
        Err(
            KawsError::with_std_streams(
                failure_message(description),
                output.stdout_text.clone(),
                output.stderr_text.clone(),
            ),
        )
    }
}

} // verus!
