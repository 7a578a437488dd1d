//! The end of a run: exit status and what is written on each stream.

use vstd::prelude::*;
use vstd::string::StringExecFns;

use crate::cli::UsageError;
use crate::response::{Response, ResponseV, render_response, spec_render_response};

verus! {

/// How a run ends: the process exit status, what is printed on standard
/// output, and what is printed on standard error.
#[derive(Clone, PartialEq, Eq, Debug)]
pub struct Outcome {
    pub exit_code: u8,
    pub stdout: String,
    pub stderr: String,
}

/// Specification-level image of an outcome.
pub struct OutcomeV {
    pub exit_code: u8,
    pub stdout: Seq<char>,
    pub stderr: Seq<char>,
}

impl View for Outcome {
    type V = OutcomeV;

    open spec fn view(&self) -> OutcomeV {
        OutcomeV { exit_code: self.exit_code, stdout: self.stdout@, stderr: self.stderr@ }
    }
}

/// The outcome of a version request: the version line on standard output
/// and a successful exit.
pub open spec fn spec_version_outcome() -> OutcomeV {
    OutcomeV { exit_code: 0, stdout: "http_dispatch 0.1.0\n"@, stderr: Seq::empty() }
}

/// Builds the outcome of a version request.
pub fn version_outcome() -> (o: Outcome)
    ensures
        o@ == spec_version_outcome(),
{
    Outcome {
        exit_code: 0,
        stdout: String::from_str("http_dispatch 0.1.0\n"),
        stderr: String::new(),
    }
}

/// The line that names a usage error.
pub open spec fn spec_error_line(e: UsageError) -> Seq<char> {
    match e {
        UsageError::MissingUrl => "error: a non-empty URL is required"@,
        UsageError::BadMethod => "error: the method must be get or post"@,
        UsageError::DuplicateMethod => "error: the method option may appear only once"@,
        UsageError::MissingMethodValue => "error: the method option requires a value"@,
        UsageError::UnknownOption => "error: unrecognized option"@,
        UsageError::ExtraPositional => "error: too many arguments"@,
    }
}

/// The usage line printed after every usage error.
pub open spec fn spec_usage_line() -> Seq<char> {
    "\nusage: http_dispatch [-m <get|post>] <URL>\n"@
}

/// The outcome of a rejected argument vector: the error and the usage line
/// on standard error, nothing on standard output, and a failing exit. No
/// request is attempted.
pub open spec fn spec_usage_outcome(e: UsageError) -> OutcomeV {
    OutcomeV { exit_code: 1, stdout: Seq::empty(), stderr: spec_error_line(e) + spec_usage_line() }
}

/// Builds the outcome of a rejected argument vector.
pub fn usage_outcome(e: UsageError) -> (o: Outcome)
    ensures
        o@ == spec_usage_outcome(e),
{
    let mut msg = match e {
        UsageError::MissingUrl => String::from_str("error: a non-empty URL is required"),
        UsageError::BadMethod => String::from_str("error: the method must be get or post"),
        UsageError::DuplicateMethod => String::from_str(
            "error: the method option may appear only once",
        ),
        UsageError::MissingMethodValue => String::from_str(
            "error: the method option requires a value",
        ),
        UsageError::UnknownOption => String::from_str("error: unrecognized option"),
        UsageError::ExtraPositional => String::from_str("error: too many arguments"),
    };
    msg.append("\nusage: http_dispatch [-m <get|post>] <URL>\n");
    Outcome { exit_code: 1, stdout: String::new(), stderr: msg }
}

/// What standard error carries when the transport fails: the description of
/// the failure behind the fixed context, and a newline.
pub open spec fn spec_failure_message(desc: Seq<char>) -> Seq<char> {
    "request failed: "@ + desc + "\n"@
}

/// Specification-level image of the transport's result.
pub open spec fn sent_view(sent: Result<Response, String>) -> Result<ResponseV, Seq<char>> {
    match sent {
        Ok(r) => Ok(r@),
        Err(d) => Err(d@),
    }
}

/// The outcome the transport's result decides: on success the rendered
/// response on standard output and a successful exit; on failure nothing on
/// standard output — in particular no status line — the failure message on
/// standard error, and a failing exit.
pub open spec fn spec_finish(sent: Result<ResponseV, Seq<char>>) -> OutcomeV {
    match sent {
        Ok(r) => OutcomeV { exit_code: 0, stdout: spec_render_response(r), stderr: Seq::empty() },
        Err(d) => OutcomeV { exit_code: 1, stdout: Seq::empty(), stderr: spec_failure_message(d) },
    }
}

/// Turns the transport's result — the response it returned, or the
/// description of its failure — into the outcome of the run.
pub fn finish(sent: Result<Response, String>) -> (o: Outcome)
    ensures
        o@ == spec_finish(sent_view(sent)),
{
    match sent {
        Ok(resp) => Outcome {
            exit_code: 0,
            stdout: render_response(&resp),
            stderr: String::new(),
        },
        Err(desc) => {
            let mut msg = String::from_str("request failed: ");
            msg.append(desc.as_str());
            msg.append("\n");
            Outcome { exit_code: 1, stdout: String::new(), stderr: msg }
        },
    }
}

} // verus!
