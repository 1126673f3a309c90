//! The crate-wide error type.
//!
//! Every fallible operation reports a `KawsError`: a kind that places the
//! failure in the taxonomy (filesystem, external tool, malformed tool output,
//! remote key-management service, unexpected binary data), a message, and,
//! for tool failures, the captured standard streams of the tool so that its
//! own diagnostic text reaches the operator verbatim.

use vstd::prelude::*;
use vstd::string::StringExecFns;

verus! {

/// Classifies a failure. `General` covers internal conditions that none of
/// the narrower kinds describes (for example a missing handle to a child
/// process's stdin).
#[derive(Clone, Copy, Debug, PartialEq, Eq, Structural)]
pub enum KawsErrorKind {
    General,
    Io,
    ToolExecution,
    Parse,
    RemoteService,
    Utf8,
}

/// An error, with the captured standard streams of a failed external tool
/// when they are available.
#[derive(Debug)]
pub struct KawsError {
    pub kind: KawsErrorKind,
    pub message: String,
    pub stdout: Option<String>,
    pub stderr: Option<String>,
}

/// The result type shared by the crate's operations: success may carry a
/// message for the operator.
pub type KawsResult = Result<Option<String>, KawsError>;

impl KawsError {
    /// A general error with a message and no captured streams.
    pub fn new(message: String) -> (r: KawsError)
        ensures
            r.kind == KawsErrorKind::General,
            r.message@ == message@,
            r.stdout is None,
            r.stderr is None,
    {
        KawsError { kind: KawsErrorKind::General, message, stdout: None, stderr: None }
    }

    /// A tool-execution error carrying the standard streams captured from the
    /// failed tool.
    pub fn with_std_streams(message: String, stdout: String, stderr: String) -> (r: KawsError)
        ensures
            r.kind == KawsErrorKind::ToolExecution,
            r.message@ == message@,
            r.stdout matches Some(o) && o@ == stdout@,
            r.stderr matches Some(e) && e@ == stderr@,
    {
        KawsError {
            kind: KawsErrorKind::ToolExecution,
            message,
            stdout: Some(stdout),
            stderr: Some(stderr),
        }
    }

    /// A filesystem error.
    pub fn io(message: String) -> (r: KawsError)
        ensures
            r.kind == KawsErrorKind::Io,
            r.message@ == message@,
            r.stdout is None,
            r.stderr is None,
    {
        KawsError { kind: KawsErrorKind::Io, message, stdout: None, stderr: None }
    }

    /// A malformed-output error: an external tool's structured output could
    /// not be decoded.
    pub fn parse(message: String) -> (r: KawsError)
        ensures
            r.kind == KawsErrorKind::Parse,
            r.message@ == message@,
            r.stdout is None,
            r.stderr is None,
    {
        KawsError { kind: KawsErrorKind::Parse, message, stdout: None, stderr: None }
    }

    /// A remote key-management service error.
    pub fn remote_service(message: String) -> (r: KawsError)
        ensures
            r.kind == KawsErrorKind::RemoteService,
            r.message@ == message@,
            r.stdout is None,
            r.stderr is None,
    {
        KawsError { kind: KawsErrorKind::RemoteService, message, stdout: None, stderr: None }
    }

    /// An unexpected-binary-data error: text was assumed and not found.
    pub fn utf8(message: String) -> (r: KawsError)
        ensures
            r.kind == KawsErrorKind::Utf8,
            r.message@ == message@,
            r.stdout is None,
            r.stderr is None,
    {
        KawsError { kind: KawsErrorKind::Utf8, message, stdout: None, stderr: None }
    }

    /// The text shown to the operator: the message, followed by the captured
    /// standard streams of the underlying tool when both were captured.
    pub fn display_string(&self) -> (r: String)
        ensures
            r@ == display_of(
                self.message@,
                match self.stdout {
                    Some(o) => Some(o@),
                    None => None,
                },
                match self.stderr {
                    Some(e) => Some(e@),
                    None => None,
                },
            ),
    {
        match (&self.stdout, &self.stderr) {
            (Some(out), Some(err)) => {
                let mut r = self.message.clone();
                r.append("\n\nstdout:\n");
                r.append(out.as_str());
                r.append("\n\nstderr:\n");
                r.append(err.as_str());
                r
            },
            _ => self.message.clone(),
        }
    }
}

/// What `display_string` returns: the message alone, unless both streams were
/// captured, in which case they follow under small headers.
pub open spec fn display_of(
    message: Seq<char>,
    stdout: Option<Seq<char>>,
    stderr: Option<Seq<char>>,
) -> Seq<char> {
    match (stdout, stderr) {
        (Some(o), Some(e)) => message + "\n\nstdout:\n"@ + o + "\n\nstderr:\n"@ + e,
        _ => message,
    }
}

} // verus!
