//! One call of the worker, from the search for it to its one response.
//!
//! The call does no work outside itself. It says what is to be done next, is
//! told what came of it, and ends in exactly one response.

use crate::locator::{
    initial, probe_of, step, Environment, EnvironmentValue, Layout, LayoutValue, Locator,
    LocatorError, LocatorFailure, LocatorValue, ResolvedValue, ResolvedWorkerPath, Search,
};
use crate::outcome::{outcome_of, reconcile, ExitStatus, Outcome, Response};
use crate::outside::{json_decode, json_encode, utf8_lossy};
use crate::progress::{
    event_of, marker, on_scale, parse_progress_line, Progress, ProgressEvent,
};
use crate::request::{wire_value, Request, RequestValue};
use crate::text::{chain, has_prefix};
use vstd::prelude::*;

verus! {

/// The message for a worker whose entry script was not found.
pub const SCRIPT_NOT_FOUND: &'static str = "worker entry script not found";

/// The message for a worker process that could not be started.
pub const SPAWN_FAILED: &'static str = "failed to start the worker process with command ";

/// The hint for a worker process that could not be started.
pub const SPAWN_HINT: &'static str =
    "\nhint: ensure the worker runtime is installed and on the search path";

/// The message for a request that has no wire form.
pub const ENCODE_FAILED: &'static str = "request could not be encoded";

/// The message for a worker process that could not be written to or waited for.
pub const EXCHANGE_FAILED: &'static str = "failed to exchange data with the worker process";

/// How to start the worker process for one call: the program, its one argument,
/// the directory to run it in, and what to write to its input before closing it.
#[derive(Debug, PartialEq, Eq)]
pub struct LaunchPlan {
    pub program: String,
    pub script: String,
    pub working_directory: String,
    pub input: String,
}

/// What a [`LaunchPlan`] holds.
pub struct PlanValue {
    pub program: Seq<char>,
    pub script: Seq<char>,
    pub working_directory: Seq<char>,
    pub input: Seq<char>,
}

impl View for LaunchPlan {
    type V = PlanValue;

    open spec fn view(&self) -> PlanValue {
        PlanValue {
            program: self.program@,
            script: self.script@,
            working_directory: self.working_directory@,
            input: self.input@,
        }
    }
}

/// What happened outside the call.
#[derive(Debug, PartialEq, Eq)]
pub enum Event {
    /// The path asked for exists, or does not.
    Probed(bool),
    /// The worker process runs and has its input.
    Spawned,
    /// The worker process could not be started.
    SpawnFailed(String),
    /// The worker wrote a line to its diagnostic stream.
    Line(String),
    /// The worker process ended, and this is what it wrote.
    Exited { status: ExitStatus, stdout: Vec<u8>, stderr: Vec<u8> },
    /// Writing to the worker process, or waiting for it, failed.
    Broken(String),
}

/// What an [`Event`] holds.
pub enum Signal {
    Probed(bool),
    Spawned,
    SpawnFailed(Seq<char>),
    Line(Seq<char>),
    Exited { status: ExitStatus, stdout: Seq<u8>, stderr: Seq<u8> },
    Broken(Seq<char>),
}

impl View for Event {
    type V = Signal;

    open spec fn view(&self) -> Signal {
        match self {
            Event::Probed(present) => Signal::Probed(*present),
            Event::Spawned => Signal::Spawned,
            Event::SpawnFailed(reason) => Signal::SpawnFailed(reason@),
            Event::Line(line) => Signal::Line(line@),
            Event::Exited { status, stdout, stderr } => Signal::Exited {
                status: *status,
                stdout: stdout@,
                stderr: stderr@,
            },
            Event::Broken(reason) => Signal::Broken(reason@),
        }
    }
}

/// How far a call has come.
pub enum Stage {
    /// The worker is being searched for.
    Locating(LocatorValue),
    /// The worker is found and is to be started.
    Launching(PlanValue),
    /// The worker process runs.
    Running,
    /// The call has ended.
    Done(Outcome),
}

/// What a [`Call`] holds.
pub struct CallValue {
    pub request: RequestValue,
    pub observed: bool,
    pub stage: Stage,
}

/// The failure of a search for the worker, as a response.
pub open spec fn locator_failure(failure: LocatorFailure) -> Outcome {
    Outcome::TransportError {
        message: SCRIPT_NOT_FOUND@,
        diagnostics: "searched from: "@ + failure.searched_from + "\nexpected: "@
            + failure.expected_relative_path,
        exit_code: None,
    }
}

/// A worker process that could not be started, as a response.
pub open spec fn spawn_failure(program: Seq<char>, reason: Seq<char>) -> Outcome {
    Outcome::TransportError {
        message: SPAWN_FAILED@ + program + SPAWN_HINT@,
        diagnostics: reason,
        exit_code: None,
    }
}

/// A request without a wire form, as a response.
pub open spec fn encode_failure() -> Outcome {
    Outcome::TransportError {
        message: ENCODE_FAILED@,
        diagnostics: Seq::empty(),
        exit_code: None,
    }
}

/// A broken exchange with the worker process, as a response.
pub open spec fn exchange_failure(reason: Seq<char>) -> Outcome {
    Outcome::TransportError { message: EXCHANGE_FAILED@, diagnostics: reason, exit_code: None }
}

/// How the worker that was found is started for a request.
pub open spec fn plan_for(found: ResolvedValue, input: Seq<char>) -> PlanValue {
    PlanValue {
        program: found.executable_path,
        script: found.script_path,
        working_directory: found.working_directory,
        input,
    }
}

/// The stage that follows a search which has come to `l`.
pub open spec fn after_search(l: LocatorValue, request: RequestValue) -> Stage {
    match l.search {
        Search::Resolved(found) => match json_encode(wire_value(request)) {
            Some(input) => Stage::Launching(plan_for(found, input)),
            None => Stage::Done(encode_failure()),
        },
        Search::Failed(failure) => Stage::Done(locator_failure(failure)),
        _ => Stage::Locating(l),
    }
}

/// A call as it begins: searching, with nothing started.
pub open spec fn opened(
    request: RequestValue,
    observed: bool,
    env: EnvironmentValue,
    layout: LayoutValue,
) -> CallValue {
    CallValue { request, observed, stage: Stage::Locating(initial(env, layout)) }
}

/// The call after an event, and the progress event to hand to the observer, if any.
///
/// While the worker is searched for, the answer to a probe moves the search
/// on; a search that fails ends the call, and one that succeeds leads to the
/// launch. A worker that starts runs; one that does not ends the call. While
/// the worker runs, a progress line of its diagnostic stream is handed to the
/// observer, where there is one, and its exit ends the call in the outcome of
/// what it wrote. A broken exchange ends a call that has left the search.
/// Whatever else happens changes nothing.
pub open spec fn advance(call: CallValue, signal: Signal) -> (CallValue, Option<Progress>) {
    match (call.stage, signal) {
        (Stage::Locating(l), Signal::Probed(present)) => (
            CallValue { stage: after_search(step(l, present), call.request), ..call },
            None,
        ),
        (Stage::Launching(_), Signal::Spawned) => (CallValue { stage: Stage::Running, ..call }, None),
        (Stage::Launching(plan), Signal::SpawnFailed(reason)) => (
            CallValue { stage: Stage::Done(spawn_failure(plan.program, reason)), ..call },
            None,
        ),
        (Stage::Running, Signal::Line(line)) => (
            call,
            if call.observed {
                event_of(line)
            } else {
                None
            },
        ),
        (Stage::Running, Signal::Exited { status, stdout, stderr }) => (
            CallValue {
                stage: Stage::Done(
                    outcome_of(
                        status,
                        json_decode(utf8_lossy(stdout)),
                        utf8_lossy(stdout),
                        utf8_lossy(stderr),
                    ),
                ),
                ..call
            },
            None,
        ),
        (Stage::Launching(_), Signal::Broken(reason)) => (
            CallValue { stage: Stage::Done(exchange_failure(reason)), ..call },
            None,
        ),
        (Stage::Running, Signal::Broken(reason)) => (
            CallValue { stage: Stage::Done(exchange_failure(reason)), ..call },
            None,
        ),
        _ => (call, None),
    }
}

/// What is to be done next for a call.
pub enum Task {
    /// Report whether this path exists.
    Probe(Seq<char>),
    /// Start the worker process as planned, write its input and close it.
    Spawn(PlanValue),
    /// Report what the worker process writes, and how it ends.
    Wait,
    /// Nothing: the call has ended in this response.
    Deliver(Outcome),
}

/// What is to be done next for `call`.
pub open spec fn task_of(call: CallValue) -> Task {
    match call.stage {
        Stage::Locating(l) => Task::Probe(probe_of(l)->0),
        Stage::Launching(plan) => Task::Spawn(plan),
        Stage::Running => Task::Wait,
        Stage::Done(outcome) => Task::Deliver(outcome),
    }
}

/// What is to be done next for a call, as the call hands it out.
#[derive(Debug, PartialEq, Eq)]
pub enum Action<'a> {
    Probe(String),
    Spawn(&'a LaunchPlan),
    Wait,
    Deliver(&'a Response),
}

impl<'a> View for Action<'a> {
    type V = Task;

    open spec fn view(&self) -> Task {
        match self {
            Action::Probe(path) => Task::Probe(path@),
            Action::Spawn(plan) => Task::Spawn(plan@),
            Action::Wait => Task::Wait,
            Action::Deliver(response) => Task::Deliver(response@),
        }
    }
}

/// What a progress event handed out holds, if one is.
pub open spec fn handed_out(event: Option<ProgressEvent>) -> Option<Progress> {
    match event {
        Some(event) => Some(event@),
        None => None,
    }
}

/// The response for a search that failed.
pub fn locator_failure_response(error: &LocatorError) -> (r: Response)
    ensures
        r@ == locator_failure(error@),
{
    let mut diagnostics = chain("searched from: ", error.searched_from.as_str());
    diagnostics.append("\nexpected: ");
    diagnostics.append(error.expected_relative_path.as_str());
    Response::TransportError {
        message: SCRIPT_NOT_FOUND.to_owned(),
        diagnostics,
        exit_code: None,
    }
}

/// The response for a worker process that could not be started.
pub fn spawn_failure_response(program: &str, reason: String) -> (r: Response)
    ensures
        r@ == spawn_failure(program@, reason@),
{
    let mut message = chain(SPAWN_FAILED, program);
    message.append(SPAWN_HINT);
    Response::TransportError { message, diagnostics: reason, exit_code: None }
}

/// The response for a broken exchange with the worker process.
pub fn exchange_failure_response(reason: String) -> (r: Response)
    ensures
        r@ == exchange_failure(reason@),
{
    Response::TransportError {
        message: EXCHANGE_FAILED.to_owned(),
        diagnostics: reason,
        exit_code: None,
    }
}

/// How far a call has come, as the call keeps it.
#[derive(Debug, PartialEq, Eq)]
enum Step {
    Locating(Locator),
    Launching(LaunchPlan),
    Running,
    Done(Response),
}

/// One call of the worker.
#[derive(Debug, PartialEq, Eq)]
pub struct Call {
    request: Request,
    observed: bool,
    step: Step,
}

impl View for Call {
    type V = CallValue;

    closed spec fn view(&self) -> CallValue {
        CallValue {
            request: self.request@,
            observed: self.observed,
            stage: match self.step {
                Step::Locating(locator) => Stage::Locating(locator@),
                Step::Launching(plan) => Stage::Launching(plan@),
                Step::Running => Stage::Running,
                Step::Done(response) => Stage::Done(response@),
            },
        }
    }
}

impl Call {
    #[verifier::type_invariant]
    spec fn search_goes_on(self) -> bool {
        self.step matches Step::Locating(locator) ==> probe_of(locator@) is Some
    }

    /// Opens a call for `request`: the search for the worker begins. Progress
    /// lines are handed out only where the call is `observed`.
    pub fn new(request: Request, observed: bool, env: Environment, layout: Layout) -> (r: Call)
        ensures
            r@ == opened(request@, observed, env@, layout@),
    {
        Call { request, observed, step: Step::Locating(Locator::new(env, layout)) }
    }

    /// What is to be done next.
    pub fn action(&self) -> (r: Action<'_>)
        ensures
            r@ == task_of(self@),
    {
        proof {
            use_type_invariant(self);
        }
        match &self.step {
            Step::Locating(locator) => match locator.probe() {
                Some(path) => Action::Probe(path),
                None => unreached(),
            },
            Step::Launching(plan) => Action::Spawn(plan),
            Step::Running => Action::Wait,
            Step::Done(response) => Action::Deliver(response),
        }
    }

    /// Takes what happened, and hands out the progress event that came of it, if any.
    pub fn on(self, event: Event) -> (r: (Call, Option<ProgressEvent>))
        ensures
            (r.0@, handed_out(r.1)) == advance(self@, event@),
            r.1 matches Some(progress) ==> on_scale(progress@),
    {
        proof {
            use_type_invariant(&self);
        }
        let Call { request, observed, step } = self;
        match (step, event) {
            (Step::Locating(locator), Event::Probed(present)) => {
                let locator = locator.answer(present);
                let step = if locator.finished() {
                    match locator.finish() {
                        Some(Ok(found)) => match request.encode() {
                            Some(input) => Step::Launching(
                                LaunchPlan {
                                    program: found.executable_path,
                                    script: found.script_path,
                                    working_directory: found.working_directory,
                                    input,
                                },
                            ),
                            None => Step::Done(
                                Response::TransportError {
                                    message: ENCODE_FAILED.to_owned(),
                                    diagnostics: String::new(),
                                    exit_code: None,
                                },
                            ),
                        },
                        Some(Err(error)) => Step::Done(locator_failure_response(&error)),
                        None => unreached(),
                    }
                } else {
                    Step::Locating(locator)
                };
                (Call { request, observed, step }, None)
            },
            (Step::Launching(_), Event::Spawned) => (
                Call { request, observed, step: Step::Running },
                None,
            ),
            (Step::Launching(plan), Event::SpawnFailed(reason)) => {
                let response = spawn_failure_response(plan.program.as_str(), reason);
                (Call { request, observed, step: Step::Done(response) }, None)
            },
            (Step::Running, Event::Line(line)) => {
                let handed = if observed {
                    parse_progress_line(line.as_str())
                } else {
                    None
                };
                (Call { request, observed, step: Step::Running }, handed)
            },
            (Step::Running, Event::Exited { status, stdout, stderr }) => {
                let response = reconcile(status, stdout.as_slice(), stderr.as_slice());
                (Call { request, observed, step: Step::Done(response) }, None)
            },
            (Step::Launching(_), Event::Broken(reason)) => (
                Call { request, observed, step: Step::Done(exchange_failure_response(reason)) },
                None,
            ),
            (Step::Running, Event::Broken(reason)) => (
                Call { request, observed, step: Step::Done(exchange_failure_response(reason)) },
                None,
            ),
            (step, _) => (Call { request, observed, step }, None),
        }
    }

    /// The response of a call that has ended; `None` while it goes on.
    pub fn response(self) -> (r: Option<Response>)
        ensures
            match r {
                Some(response) => self@.stage == Stage::Done(response@),
                None => !(self@.stage is Done),
            },
    {
        match self.step {
            Step::Done(response) => Some(response),
            _ => None,
        }
    }
}

/// A call that has ended stays as it is and hands out no more progress: it has
/// one response, and no event follows it.
pub proof fn lemma_done_is_final(call: CallValue, signal: Signal)
    requires
        call.stage is Done,
    ensures
        advance(call, signal) == (call, None::<Progress>),
{
}

/// Only a search that found the worker leads to a launch: where the search
/// fails, the call ends in a transport error and nothing is started.
pub proof fn lemma_launch_needs_resolution(call: CallValue, signal: Signal)
    requires
        !(call.stage is Launching),
        advance(call, signal).0.stage is Launching,
    ensures
        call.stage matches Stage::Locating(l) && signal matches Signal::Probed(present) && step(
            l,
            present,
        ).search is Resolved,
{
}

/// A search that fails ends the call at once, in a transport error without an
/// exit code.
pub proof fn lemma_failed_search_ends_call(call: CallValue, present: bool)
    requires
        call.stage matches Stage::Locating(l) && step(l, present).search is Failed,
    ensures
        advance(call, Signal::Probed(present)).0.stage matches Stage::Done(
            Outcome::TransportError { exit_code, .. },
        ) && exit_code is None,
{
}

/// Every progress event that a call hands out lies on the scale from 0 to 100.
pub proof fn lemma_handed_out_is_on_scale(call: CallValue, signal: Signal)
    ensures
        advance(call, signal).1 matches Some(progress) ==> on_scale(progress),
{
}

/// A line that does not open with the marker is handed to no observer,
/// whatever the call is doing.
pub proof fn lemma_unmarked_line_emits_nothing(call: CallValue, line: Seq<char>)
    requires
        !has_prefix(line, marker()),
    ensures
        advance(call, Signal::Line(line)) == (call, None::<Progress>),
{
}

} // verus!
