//! The outcome of one call: how the worker's exit status and its two output
//! streams are reconciled into exactly one terminal response.

use crate::outside::{decode_text, json_decode, lossy_text, utf8_lossy};
use crate::json::{Json, JsonValue};
use crate::text::{chain, contains_run, decimal, decimal_text};
use vstd::prelude::*;
use vstd::utf8::{decode_utf8, valid_utf8};

verus! {

/// The exit code that stands for a missing runtime or environment.
pub const RUNTIME_MISSING_CODE: i32 = 2;

/// The key under which the worker reports a failure of its own.
pub const ERROR_KEY: &'static str = "error";

/// The message for a payload whose `error` member is no text.
pub const UNWORDED_ERROR: &'static str = "worker reported an error without a message";

/// The message for a worker that exited well without a decodable payload.
pub const INVALID_RESULT: &'static str = "result was not valid structured data";

/// The message for a worker that wrote a payload and still exited badly.
pub const PAYLOAD_WITH_FAILURE: &'static str = "worker reported a result but exited with a failure status";

/// The message for a worker that exited badly without a decodable payload.
pub const WORKER_FAILED: &'static str = "worker exited with a failure status";

/// The hint for the exit code of a missing runtime or environment.
pub const RUNTIME_MISSING_HINT: &'static str =
    "\nhint: the worker runtime or its environment is missing: ensure the worker runtime is installed and on the search path, that the entry script is in place, and that the worker's dependencies are installed";

/// The hint for every other failing exit code.
pub const GENERIC_HINT: &'static str =
    "\nhint: make sure that the worker script and its dependencies are installed correctly";

/// How the worker process ended: its exit code, or none where the system gave none.
#[derive(Clone, Copy, Debug, PartialEq, Eq)]
pub struct ExitStatus {
    pub code: Option<i32>,
}

impl ExitStatus {
    /// The process ended with exit code 0.
    pub open spec fn succeeded(self) -> bool {
        self.code == Some(0i32)
    }

    /// Tells whether the process ended with exit code 0.
    pub fn success(&self) -> (r: bool)
        ensures
            r == self.succeeded(),
    {
        match self.code {
            Some(code) => code == 0,
            None => false,
        }
    }
}

/// The terminal outcome of a call.
#[derive(Debug, PartialEq, Eq)]
pub enum Response {
    /// The worker delivered a payload that reports no failure.
    Success { result: Json },
    /// The worker delivered a payload that reports a failure of its own.
    ApplicationError { message: String },
    /// The exchange itself failed.
    TransportError { message: String, diagnostics: String, exit_code: Option<i32> },
}

/// What a [`Response`] holds.
pub enum Outcome {
    Success { result: JsonValue },
    ApplicationError { message: Seq<char> },
    TransportError { message: Seq<char>, diagnostics: Seq<char>, exit_code: Option<i32> },
}

impl View for Response {
    type V = Outcome;

    open spec fn view(&self) -> Outcome {
        match self {
            Response::Success { result } => Outcome::Success { result: result@ },
            Response::ApplicationError { message } => Outcome::ApplicationError {
                message: message@,
            },
            Response::TransportError { message, diagnostics, exit_code } => Outcome::TransportError {
                message: message@,
                diagnostics: diagnostics@,
                exit_code: *exit_code,
            },
        }
    }
}

/// The failure that a payload reports, if it reports one.
///
/// A payload reports a failure exactly when it has an `error` member, whatever
/// that member holds. The words of the failure are the member's text; a member
/// that is no text stands for a failure without words of its own.
pub open spec fn reported_error(value: JsonValue) -> Option<Seq<char>> {
    match value.field(ERROR_KEY@) {
        Some(JsonValue::Text(message)) => Some(message),
        Some(_) => Some(UNWORDED_ERROR@),
        None => None,
    }
}

/// One labelled section of diagnostics; nothing for an empty stream.
pub open spec fn section(label: Seq<char>, content: Seq<char>) -> Seq<char> {
    if content.len() == 0 {
        Seq::empty()
    } else {
        label + content + seq!['\n']
    }
}

/// Both output streams as diagnostics: the result stream, then the diagnostic
/// stream, each under its label and each left out where it is empty.
pub open spec fn both_streams(stdout: Seq<char>, stderr: Seq<char>) -> Seq<char> {
    section("stdout: "@, stdout) + section("stderr: "@, stderr)
}

/// The remediation hint for a failing exit code.
pub open spec fn hint_for(code: Option<i32>) -> Seq<char> {
    if code == Some(RUNTIME_MISSING_CODE) {
        RUNTIME_MISSING_HINT@
    } else {
        GENERIC_HINT@
    }
}

/// The outcome of a call, from how the process ended, what its result stream
/// decoded to, and the text of both streams.
pub open spec fn outcome_of(
    status: ExitStatus,
    decoded: Option<JsonValue>,
    stdout: Seq<char>,
    stderr: Seq<char>,
) -> Outcome {
    match decoded {
        Some(value) => match reported_error(value) {
            Some(message) => Outcome::ApplicationError { message },
            None => if status.succeeded() {
                Outcome::Success { result: value }
            } else {
                Outcome::TransportError {
                    message: PAYLOAD_WITH_FAILURE@,
                    diagnostics: both_streams(stdout, stderr),
                    exit_code: status.code,
                }
            },
        },
        None => if status.succeeded() {
            Outcome::TransportError {
                message: INVALID_RESULT@,
                diagnostics: stdout,
                exit_code: status.code,
            }
        } else {
            Outcome::TransportError {
                message: WORKER_FAILED@ + hint_for(status.code),
                diagnostics: both_streams(stdout, stderr),
                exit_code: status.code,
            }
        },
    }
}

/// The note on the exit code in the text of a failure; nothing where there is no code.
pub open spec fn exit_note(code: Option<i32>) -> Seq<char> {
    match code {
        Some(c) => "\nexit code: "@ + decimal(c as int),
        None => Seq::empty(),
    }
}

/// The diagnostics in the text of a failure, on a line of their own; nothing
/// where there are none.
pub open spec fn details(diagnostics: Seq<char>) -> Seq<char> {
    if diagnostics.len() == 0 {
        Seq::empty()
    } else {
        seq!['\n'] + diagnostics
    }
}

/// The one text that describes a failed call to its caller; `None` for a success.
///
/// An application error is described by the worker's own words, unchanged. A
/// transport error is described by its message, then its exit code and its
/// diagnostics as far as it has them.
pub open spec fn failure_of(outcome: Outcome) -> Option<Seq<char>> {
    match outcome {
        Outcome::Success { .. } => None,
        Outcome::ApplicationError { message } => Some(message),
        Outcome::TransportError { message, diagnostics, exit_code } => Some(
            message + exit_note(exit_code) + details(diagnostics),
        ),
    }
}

/// Appends one labelled section of diagnostics to `out`.
fn push_section(out: &mut String, label: &str, content: &str)
    ensures
        final(out)@ == old(out)@ + section(label@, content@),
{
    if !content.is_empty() {
        proof {
            reveal_strlit("\n");
        }
        out.append(label);
        out.append(content);
        out.append("\n");
    }
}

/// Lays both output streams out as diagnostics.
fn diagnostics_of(stdout: &str, stderr: &str) -> (r: String)
    ensures
        r@ == both_streams(stdout@, stderr@),
{
    let mut out = String::new();
    push_section(&mut out, "stdout: ", stdout);
    push_section(&mut out, "stderr: ", stderr);
    out
}

/// Picks the remediation hint for a failing exit code.
fn hint(code: Option<i32>) -> (r: &'static str)
    ensures
        r@ == hint_for(code),
{
    match code {
        Some(c) => if c == RUNTIME_MISSING_CODE {
            RUNTIME_MISSING_HINT
        } else {
            GENERIC_HINT
        },
        None => GENERIC_HINT,
    }
}

/// Reads the failure that a payload reports, if it reports one.
fn read_reported_error(value: &Json) -> (r: Option<String>)
    ensures
        match r {
            Some(message) => reported_error(value@) == Some(message@),
            None => reported_error(value@) is None,
        },
{
    match value.get(ERROR_KEY) {
        Some(Json::Text(message)) => Some(message.clone()),
        Some(_) => Some(UNWORDED_ERROR.to_owned()),
        None => None,
    }
}

/// Decides the outcome of a call whose result stream has been decoded.
///
/// A payload with an `error` member is an application error, however the
/// process ended. Any other payload is the result of a process that exited
/// with code 0, and a transport error otherwise. Without a payload the call
/// failed in transport: as a protocol violation after exit code 0, and with the
/// hint for the exit code otherwise.
pub fn classify(status: ExitStatus, decoded: Option<Json>, stdout: &str, stderr: &str) -> (r:
    Response)
    ensures
        r@ == outcome_of(
            status,
            match decoded {
                Some(value) => Some(value@),
                None => None,
            },
            stdout@,
            stderr@,
        ),
{
    match decoded {
        Some(value) => match read_reported_error(&value) {
            Some(message) => Response::ApplicationError { message },
            None => if status.success() {
                Response::Success { result: value }
            } else {
                Response::TransportError {
                    message: PAYLOAD_WITH_FAILURE.to_owned(),
                    diagnostics: diagnostics_of(stdout, stderr),
                    exit_code: status.code,
                }
            },
        },
        None => if status.success() {
            Response::TransportError {
                message: INVALID_RESULT.to_owned(),
                diagnostics: stdout.to_owned(),
                exit_code: status.code,
            }
        } else {
            Response::TransportError {
                message: chain(WORKER_FAILED, hint(status.code)),
                diagnostics: diagnostics_of(stdout, stderr),
                exit_code: status.code,
            }
        },
    }
}

/// Reconciles how the worker ended with what it wrote: reads both streams as
/// text, decodes the result stream, and decides the one outcome of the call.
///
/// A stream that is valid UTF-8 is read as the text it encodes, so that a
/// failing exit without a payload keeps such a diagnostic stream verbatim.
pub fn reconcile(status: ExitStatus, stdout: &[u8], stderr: &[u8]) -> (r: Response)
    ensures
        r@ == outcome_of(
            status,
            json_decode(utf8_lossy(stdout@)),
            utf8_lossy(stdout@),
            utf8_lossy(stderr@),
        ),
        !status.succeeded() && json_decode(utf8_lossy(stdout@)) is None && valid_utf8(stderr@)
            ==> r@ is TransportError && contains_run(r@->diagnostics, decode_utf8(stderr@)),
        status.succeeded() && json_decode(utf8_lossy(stdout@)) is None && valid_utf8(stdout@)
            ==> r@ is TransportError && r@->diagnostics == decode_utf8(stdout@),
{
    let out_text = lossy_text(stdout);
    let err_text = lossy_text(stderr);
    let decoded = decode_text(out_text.as_str());
    proof {
        if !status.succeeded() {
            lemma_failed_exit_keeps_diagnostics(status, out_text@, err_text@);
        }
    }
    classify(status, decoded, out_text.as_str(), err_text.as_str())
}

impl Response {
    /// Describes a failed call in one text that can be shown as it is.
    pub fn failure_text(&self) -> (r: Option<String>)
        ensures
            match r {
                Some(text) => failure_of(self@) == Some(text@),
                None => failure_of(self@) is None,
            },
    {
        match self {
            Response::Success { .. } => None,
            Response::ApplicationError { message } => Some(message.clone()),
            Response::TransportError { message, diagnostics, exit_code } => {
                let mut out = message.clone();
                match exit_code {
                    Some(code) => {
                        out.append("\nexit code: ");
                        let number = decimal_text(*code);
                        out.append(number.as_str());
                    },
                    None => {},
                }
                if !diagnostics.as_str().is_empty() {
                    proof {
                        reveal_strlit("\n");
                    }
                    out.append("\n");
                    out.append(diagnostics.as_str());
                }
                Some(out)
            },
        }
    }
}

/// A worker that exits with code 0 and writes a payload without an `error`
/// member succeeds with that payload: no transport error comes of it.
pub proof fn lemma_clean_exit_succeeds(
    status: ExitStatus,
    value: JsonValue,
    stdout: Seq<char>,
    stderr: Seq<char>,
)
    requires
        status.succeeded(),
        value.field(ERROR_KEY@) is None,
    ensures
        outcome_of(status, Some(value), stdout, stderr) == (Outcome::Success { result: value }),
{
}

/// A payload with an `error` member never succeeds, whatever the member holds
/// and whatever the exit code: the outcome is the application error with the
/// member's text, or with the words for a member that is no text.
pub proof fn lemma_reported_error_never_succeeds(
    status: ExitStatus,
    value: JsonValue,
    stdout: Seq<char>,
    stderr: Seq<char>,
)
    requires
        value.field(ERROR_KEY@) is Some,
    ensures
        !(outcome_of(status, Some(value), stdout, stderr) is Success),
        outcome_of(status, Some(value), stdout, stderr) == (Outcome::ApplicationError {
            message: match value.field(ERROR_KEY@)->0 {
                JsonValue::Text(message) => message,
                _ => UNWORDED_ERROR@,
            },
        }),
{
}

/// A call succeeds if and only if the worker exited with code 0 and its result
/// stream decoded to a payload without an `error` member; the result is then
/// that payload.
pub proof fn lemma_success_exactly_when(
    status: ExitStatus,
    decoded: Option<JsonValue>,
    stdout: Seq<char>,
    stderr: Seq<char>,
)
    ensures
        outcome_of(status, decoded, stdout, stderr) is Success <==> status.succeeded()
            && decoded is Some && decoded->0.field(ERROR_KEY@) is None,
        outcome_of(status, decoded, stdout, stderr) matches Outcome::Success { result }
            ==> decoded == Some(result),
{
}

/// A failing exit without a decodable payload is a transport error that carries
/// the exit code and, within its diagnostics, the diagnostic stream verbatim.
pub proof fn lemma_failed_exit_keeps_diagnostics(
    status: ExitStatus,
    stdout: Seq<char>,
    stderr: Seq<char>,
)
    requires
        !status.succeeded(),
    ensures
        outcome_of(status, None, stdout, stderr) matches Outcome::TransportError {
            diagnostics,
            exit_code,
            ..
        } && exit_code == status.code && contains_run(diagnostics, stderr),
{
    let diagnostics = both_streams(stdout, stderr);
    let before = section("stdout: "@, stdout);
    if stderr.len() == 0 {
        assert(diagnostics.subrange(0int, 0int + stderr.len()) =~= stderr);
    } else {
        let at = (before.len() + "stderr: "@.len()) as int;
        assert(diagnostics.subrange(at, at + stderr.len()) =~= stderr);
    }
}

} // verus!
