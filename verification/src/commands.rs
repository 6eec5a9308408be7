//! The operations offered to the shell. Each runs in two steps around one call
//! of the bridge: before it, the request to send and the event to announce;
//! after it, the event to close with and the result in the shape the caller
//! expects.

use crate::json::{Json, JsonValue};
use crate::outcome::{failure_of, Outcome, Response};
use crate::progress::{on_scale, Progress, ProgressEvent};
use crate::request::{single_text, Request, RequestValue};
use crate::schema::{
    defaulted_text, mismatch_text, optional_text, optional_value, read_defaulted_text,
    read_optional_text, read_optional_value, read_required_text, read_required_value,
    read_text_list, required_text, required_value, text_list, views_of, Mismatch, SchemaError,
};
use crate::text::chain;
use std::collections::HashMap;
use vstd::prelude::*;

verus! {

/// The command name of the operation that parses a document.
pub const PARSE_DOCUMENT: &'static str = "parseDocument";

/// The command name of the operation that processes a video.
pub const PROCESS_VIDEO: &'static str = "processVideo";

/// The command name of the operation that processes an audio file.
pub const PROCESS_AUDIO: &'static str = "processAudio";

/// The command name of the operation that executes a command given in words.
pub const EXECUTE_COMMAND: &'static str = "executeCommand";

/// The stage of the event that opens a call.
pub const STAGE_START: &'static str = "start";

/// The stage of the event that closes a call that succeeded.
pub const STAGE_DONE: &'static str = "done";

/// The stage of the event that closes a call that failed.
pub const STAGE_ERROR: &'static str = "error";

/// The message of the event that opens a call.
pub const START_MESSAGE: &'static str = "call started";

/// The message of the event that closes a call that succeeded.
pub const DONE_MESSAGE: &'static str = "call finished";

/// What introduces a mismatch in the text of a failure.
pub const SCHEMA_PREFIX: &'static str = "Failed to parse result: ";

/// The key under which the worker delivers its result.
pub const RESULT_KEY: &'static str = "result";

/// What the stores that are not built yet answer.
pub const NOT_IMPLEMENTED: &'static str = "Not implemented";

/// A processed resource: a document, a video or an audio file.
#[derive(Debug, PartialEq, Eq)]
pub struct Resource {
    pub id: String,
    /// What the resource is: `pdf`, `video` or `audio`. On the wire the member is `type`.
    pub kind: String,
    pub title: String,
    pub source: String,
    pub md_path: Option<String>,
    pub assets: Vec<String>,
    pub vector_index: Option<String>,
    pub created_at: String,
    pub updated_at: String,
}

/// What a [`Resource`] holds.
pub struct ResourceValue {
    pub id: Seq<char>,
    pub kind: Seq<char>,
    pub title: Seq<char>,
    pub source: Seq<char>,
    pub md_path: Option<Seq<char>>,
    pub assets: Seq<Seq<char>>,
    pub vector_index: Option<Seq<char>>,
    pub created_at: Seq<char>,
    pub updated_at: Seq<char>,
}

/// The characters of an optional string.
pub open spec fn option_view(s: Option<String>) -> Option<Seq<char>> {
    match s {
        Some(s) => Some(s@),
        None => None,
    }
}

/// What an optional value holds.
pub open spec fn option_value(v: Option<Json>) -> Option<JsonValue> {
    match v {
        Some(v) => Some(v@),
        None => None,
    }
}

impl View for Resource {
    type V = ResourceValue;

    open spec fn view(&self) -> ResourceValue {
        ResourceValue {
            id: self.id@,
            kind: self.kind@,
            title: self.title@,
            source: self.source@,
            md_path: option_view(self.md_path),
            assets: views_of(self.assets@),
            vector_index: option_view(self.vector_index),
            created_at: self.created_at@,
            updated_at: self.updated_at@,
        }
    }
}

/// A command given in words, and how far its execution has come.
#[derive(Debug, PartialEq, Eq)]
pub struct Task {
    pub id: String,
    /// `pending`, `running`, `completed` or `failed`.
    pub status: String,
    pub cmd: String,
    pub payload: Json,
    pub result: Option<Json>,
    pub error: Option<String>,
    pub created_at: String,
    pub updated_at: String,
}

/// What a [`Task`] holds.
pub struct TaskValue {
    pub id: Seq<char>,
    pub status: Seq<char>,
    pub cmd: Seq<char>,
    pub payload: JsonValue,
    pub result: Option<JsonValue>,
    pub error: Option<Seq<char>>,
    pub created_at: Seq<char>,
    pub updated_at: Seq<char>,
}

impl View for Task {
    type V = TaskValue;

    open spec fn view(&self) -> TaskValue {
        TaskValue {
            id: self.id@,
            status: self.status@,
            cmd: self.cmd@,
            payload: self.payload@,
            result: option_value(self.result),
            error: option_view(self.error),
            created_at: self.created_at@,
            updated_at: self.updated_at@,
        }
    }
}

/// The settings of the shell.
#[derive(Debug, PartialEq, Eq)]
pub struct Settings {
    pub api_keys: HashMap<String, String>,
    pub library_path: String,
    pub log_level: String,
}

/// The resource that a payload describes.
///
/// The payload is an object. Its `id`, `type` and `title` are texts and must be
/// there. `source`, `created_at` and `updated_at` are texts, empty where they are
/// missing; `md_path` and `vector_index` are texts that may be missing or null;
/// `assets` is a list of texts, empty where it is missing. Other members are
/// ignored. The first member that does not fit, in this order, is the mismatch.
pub open spec fn resource_of(value: JsonValue) -> Result<ResourceValue, Mismatch> {
    if !(value is Object) {
        Err(Mismatch::NotAnObject)
    } else if required_text(value, "id"@) is Err {
        Err(required_text(value, "id"@)->Err_0)
    } else if required_text(value, "type"@) is Err {
        Err(required_text(value, "type"@)->Err_0)
    } else if required_text(value, "title"@) is Err {
        Err(required_text(value, "title"@)->Err_0)
    } else if defaulted_text(value, "source"@) is Err {
        Err(defaulted_text(value, "source"@)->Err_0)
    } else if optional_text(value, "md_path"@) is Err {
        Err(optional_text(value, "md_path"@)->Err_0)
    } else if text_list(value, "assets"@) is Err {
        Err(text_list(value, "assets"@)->Err_0)
    } else if optional_text(value, "vector_index"@) is Err {
        Err(optional_text(value, "vector_index"@)->Err_0)
    } else if defaulted_text(value, "created_at"@) is Err {
        Err(defaulted_text(value, "created_at"@)->Err_0)
    } else if defaulted_text(value, "updated_at"@) is Err {
        Err(defaulted_text(value, "updated_at"@)->Err_0)
    } else {
        Ok(
            ResourceValue {
                id: required_text(value, "id"@)->Ok_0,
                kind: required_text(value, "type"@)->Ok_0,
                title: required_text(value, "title"@)->Ok_0,
                source: defaulted_text(value, "source"@)->Ok_0,
                md_path: optional_text(value, "md_path"@)->Ok_0,
                assets: text_list(value, "assets"@)->Ok_0,
                vector_index: optional_text(value, "vector_index"@)->Ok_0,
                created_at: defaulted_text(value, "created_at"@)->Ok_0,
                updated_at: defaulted_text(value, "updated_at"@)->Ok_0,
            },
        )
    }
}

/// The task that a payload describes.
///
/// The payload is an object. Its `id`, `status`, `cmd`, `created_at` and
/// `updated_at` are texts and must be there, and so must `payload`, of any
/// kind. `result` is of any kind and `error` a text; either may be missing or
/// null. Other members are ignored. The first member that does not fit, in the
/// order of the record's fields, is the mismatch.
pub open spec fn task_of(value: JsonValue) -> Result<TaskValue, Mismatch> {
    if !(value is Object) {
        Err(Mismatch::NotAnObject)
    } else if required_text(value, "id"@) is Err {
        Err(required_text(value, "id"@)->Err_0)
    } else if required_text(value, "status"@) is Err {
        Err(required_text(value, "status"@)->Err_0)
    } else if required_text(value, "cmd"@) is Err {
        Err(required_text(value, "cmd"@)->Err_0)
    } else if required_value(value, "payload"@) is Err {
        Err(required_value(value, "payload"@)->Err_0)
    } else if optional_text(value, "error"@) is Err {
        Err(optional_text(value, "error"@)->Err_0)
    } else if required_text(value, "created_at"@) is Err {
        Err(required_text(value, "created_at"@)->Err_0)
    } else if required_text(value, "updated_at"@) is Err {
        Err(required_text(value, "updated_at"@)->Err_0)
    } else {
        Ok(
            TaskValue {
                id: required_text(value, "id"@)->Ok_0,
                status: required_text(value, "status"@)->Ok_0,
                cmd: required_text(value, "cmd"@)->Ok_0,
                payload: required_value(value, "payload"@)->Ok_0,
                result: optional_value(value, "result"@),
                error: optional_text(value, "error"@)->Ok_0,
                created_at: required_text(value, "created_at"@)->Ok_0,
                updated_at: required_text(value, "updated_at"@)->Ok_0,
            },
        )
    }
}

/// Reads a payload as a resource.
pub fn project_resource(value: &Json) -> (r: Result<Resource, SchemaError>)
    ensures
        match r {
            Ok(resource) => resource_of(value@) == Ok::<ResourceValue, Mismatch>(resource@),
            Err(e) => resource_of(value@) == Err::<ResourceValue, Mismatch>(e@),
        },
{
    match value {
        Json::Object(_) => {},
        _ => {
            return Err(SchemaError::NotAnObject);
        },
    }
    let id = read_required_text(value, "id")?;
    let kind = read_required_text(value, "type")?;
    let title = read_required_text(value, "title")?;
    let source = read_defaulted_text(value, "source")?;
    let md_path = read_optional_text(value, "md_path")?;
    let assets = read_text_list(value, "assets")?;
    let vector_index = read_optional_text(value, "vector_index")?;
    let created_at = read_defaulted_text(value, "created_at")?;
    let updated_at = read_defaulted_text(value, "updated_at")?;
    Ok(
        Resource {
            id,
            kind,
            title,
            source,
            md_path,
            assets,
            vector_index,
            created_at,
            updated_at,
        },
    )
}

/// Reads a payload as a task.
pub fn project_task(value: &Json) -> (r: Result<Task, SchemaError>)
    ensures
        match r {
            Ok(task) => task_of(value@) == Ok::<TaskValue, Mismatch>(task@),
            Err(e) => task_of(value@) == Err::<TaskValue, Mismatch>(e@),
        },
{
    match value {
        Json::Object(_) => {},
        _ => {
            return Err(SchemaError::NotAnObject);
        },
    }
    let id = read_required_text(value, "id")?;
    let status = read_required_text(value, "status")?;
    let cmd = read_required_text(value, "cmd")?;
    let payload = read_required_value(value, "payload")?;
    let result = read_optional_value(value, "result");
    let error = read_optional_text(value, "error")?;
    let created_at = read_required_text(value, "created_at")?;
    let updated_at = read_required_text(value, "updated_at")?;
    Ok(Task { id, status, cmd, payload, result, error, created_at, updated_at })
}

/// What an operation asks of the shell before the bridge is called: the event
/// to announce and the request to send.
#[derive(Debug, PartialEq, Eq)]
pub struct Invocation {
    pub started: ProgressEvent,
    pub request: Request,
}

/// The event that opens a call: stage `start`, at 0.
pub open spec fn start_progress() -> Progress {
    Progress { stage: STAGE_START@, progress: 0, message: START_MESSAGE@ }
}

/// The event that closes a call that succeeded: stage `done`, at 100.
pub open spec fn done_progress() -> Progress {
    Progress { stage: STAGE_DONE@, progress: 100, message: DONE_MESSAGE@ }
}

/// The event that closes a call that failed: stage `error`, at 0, with the text
/// of the failure.
pub open spec fn error_progress(text: Seq<char>) -> Progress {
    Progress { stage: STAGE_ERROR@, progress: 0, message: text }
}

/// The payload that a successful call delivers: the `result` member of the
/// decoded value, and null where it has none.
pub open spec fn delivered(value: JsonValue) -> JsonValue {
    match value.field(RESULT_KEY@) {
        Some(v) => v,
        None => JsonValue::Null,
    }
}

/// The text of a failure by mismatch.
pub open spec fn schema_failure(mismatch: Mismatch) -> Seq<char> {
    SCHEMA_PREFIX@ + mismatch_text(mismatch)
}

/// How an operation that yields a resource ends, given the outcome of the
/// call: the closing event and what the caller gets.
///
/// A failed call ends with the error event and the text of the failure. A
/// successful call whose payload is a resource ends with the done event and
/// the resource; one whose payload is none ends as a failure by mismatch.
pub open spec fn resource_completion(outcome: Outcome) -> (
    Progress,
    Result<ResourceValue, Seq<char>>,
) {
    match outcome {
        Outcome::Success { result } => match resource_of(delivered(result)) {
            Ok(resource) => (done_progress(), Ok(resource)),
            Err(mismatch) => (
                error_progress(schema_failure(mismatch)),
                Err(schema_failure(mismatch)),
            ),
        },
        _ => (error_progress(failure_of(outcome)->0), Err(failure_of(outcome)->0)),
    }
}

/// How an operation that yields a task ends, given the outcome of the call.
/// As [`resource_completion`], for a task.
pub open spec fn task_completion(outcome: Outcome) -> (Progress, Result<TaskValue, Seq<char>>) {
    match outcome {
        Outcome::Success { result } => match task_of(delivered(result)) {
            Ok(task) => (done_progress(), Ok(task)),
            Err(mismatch) => (
                error_progress(schema_failure(mismatch)),
                Err(schema_failure(mismatch)),
            ),
        },
        _ => (error_progress(failure_of(outcome)->0), Err(failure_of(outcome)->0)),
    }
}

/// The event that opens a call.
pub fn start_event() -> (r: ProgressEvent)
    ensures
        r@ == start_progress(),
{
    ProgressEvent { stage: STAGE_START.to_owned(), progress: 0, message: START_MESSAGE.to_owned() }
}

/// The event that closes a call that succeeded.
pub fn done_event() -> (r: ProgressEvent)
    ensures
        r@ == done_progress(),
{
    ProgressEvent { stage: STAGE_DONE.to_owned(), progress: 100, message: DONE_MESSAGE.to_owned() }
}

/// The event that closes a call that failed.
pub fn error_event(text: &str) -> (r: ProgressEvent)
    ensures
        r@ == error_progress(text@),
{
    ProgressEvent { stage: STAGE_ERROR.to_owned(), progress: 0, message: text.to_owned() }
}

/// Opens an operation: the start event, and the request with the one text
/// member `key` as its payload.
fn invoke(command: &str, key: &str, argument: String) -> (r: Invocation)
    ensures
        r.started@ == start_progress(),
        r.request@ == (RequestValue { command: command@, payload: single_text(key@, argument@) }),
{
    Invocation { started: start_event(), request: Request::with_text(command, key, argument) }
}

/// Opens the operation that parses the document at `path`.
pub fn parse_pdf(path: String) -> (r: Invocation)
    ensures
        r.started@ == start_progress(),
        r.request@ == (RequestValue {
            command: PARSE_DOCUMENT@,
            payload: single_text("path"@, path@),
        }),
{
    invoke(PARSE_DOCUMENT, "path", path)
}

/// Opens the operation that processes the video at `url`.
pub fn process_video(url: String) -> (r: Invocation)
    ensures
        r.started@ == start_progress(),
        r.request@ == (RequestValue {
            command: PROCESS_VIDEO@,
            payload: single_text("url"@, url@),
        }),
{
    invoke(PROCESS_VIDEO, "url", url)
}

/// Opens the operation that processes the audio file at `path`.
pub fn process_audio(path: String) -> (r: Invocation)
    ensures
        r.started@ == start_progress(),
        r.request@ == (RequestValue {
            command: PROCESS_AUDIO@,
            payload: single_text("path"@, path@),
        }),
{
    invoke(PROCESS_AUDIO, "path", path)
}

/// Opens the operation that executes `command`, given in words.
pub fn execute_command(command: String) -> (r: Invocation)
    ensures
        r.started@ == start_progress(),
        r.request@ == (RequestValue {
            command: EXECUTE_COMMAND@,
            payload: single_text("command"@, command@),
        }),
{
    invoke(EXECUTE_COMMAND, "command", command)
}

/// Closes a call that failed in its payload's shape.
fn fail_by_mismatch(e: &SchemaError) -> (r: (ProgressEvent, String))
    ensures
        r.0@ == error_progress(schema_failure(e@)),
        r.1@ == schema_failure(e@),
{
    let detail = e.message();
    let text = chain(SCHEMA_PREFIX, detail.as_str());
    (error_event(text.as_str()), text)
}

/// Closes an operation that yields a resource: the event to send last, and
/// what the caller gets.
pub fn finish_resource(response: &Response) -> (r: (ProgressEvent, Result<Resource, String>))
    ensures
        r.0@ == resource_completion(response@).0,
        match r.1 {
            Ok(resource) => resource_completion(response@).1 == Ok::<ResourceValue, Seq<char>>(
                resource@,
            ),
            Err(text) => resource_completion(response@).1 == Err::<ResourceValue, Seq<char>>(
                text@,
            ),
        },
{
    match response {
        Response::Success { result } => {
            let projected = match result.get(RESULT_KEY) {
                Some(payload) => project_resource(payload),
                None => project_resource(&Json::Null),
            };
            match projected {
                Ok(resource) => (done_event(), Ok(resource)),
                Err(e) => {
                    let (event, text) = fail_by_mismatch(&e);
                    (event, Err(text))
                },
            }
        },
        _ => {
            let text = match response.failure_text() {
                Some(text) => text,
                None => unreached(),
            };
            (error_event(text.as_str()), Err(text))
        },
    }
}

/// Closes an operation that yields a task: the event to send last, and what
/// the caller gets.
pub fn finish_task(response: &Response) -> (r: (ProgressEvent, Result<Task, String>))
    ensures
        r.0@ == task_completion(response@).0,
        match r.1 {
            Ok(task) => task_completion(response@).1 == Ok::<TaskValue, Seq<char>>(task@),
            Err(text) => task_completion(response@).1 == Err::<TaskValue, Seq<char>>(text@),
        },
{
    match response {
        Response::Success { result } => {
            let projected = match result.get(RESULT_KEY) {
                Some(payload) => project_task(payload),
                None => project_task(&Json::Null),
            };
            match projected {
                Ok(task) => (done_event(), Ok(task)),
                Err(e) => {
                    let (event, text) = fail_by_mismatch(&e);
                    (event, Err(text))
                },
            }
        },
        _ => {
            let text = match response.failure_text() {
                Some(text) => text,
                None => unreached(),
            };
            (error_event(text.as_str()), Err(text))
        },
    }
}

/// The events that an operation makes itself lie on the scale: a call opens
/// at 0 and closes at 100, or at 0 where it failed.
pub proof fn lemma_own_events_are_on_scale(text: Seq<char>)
    ensures
        on_scale(start_progress()),
        on_scale(done_progress()),
        on_scale(error_progress(text)),
{
}

/// An operation closes with the done event exactly when it hands its result
/// to the caller; otherwise it closes with the error event, which carries the
/// very text the caller gets.
pub proof fn lemma_closing_event_matches_result(outcome: Outcome)
    ensures
        match resource_completion(outcome).1 {
            Ok(_) => outcome is Success && resource_completion(outcome).0 == done_progress(),
            Err(text) => resource_completion(outcome).0 == error_progress(text),
        },
        match task_completion(outcome).1 {
            Ok(_) => outcome is Success && task_completion(outcome).0 == done_progress(),
            Err(text) => task_completion(outcome).0 == error_progress(text),
        },
{
}

/// Greets `name`.
pub fn greet(name: &str) -> (r: String)
    ensures
        r@ == "Hello, "@ + name@ + "! You've been greeted from Rust!"@,
{
    let mut out = chain("Hello, ", name);
    out.append("! You've been greeted from Rust!");
    out
}

/// The stored resources: none, as long as there is no store.
pub fn get_resources() -> (r: Result<Vec<Resource>, String>)
    ensures
        r matches Ok(list) && list@.len() == 0,
{
    Ok(Vec::new())
}

/// The stored resource `id`: not implemented, as long as there is no store.
#[allow(unused_variables)]
pub fn get_resource_by_id(id: String) -> (r: Result<Resource, String>)
    ensures
        r matches Err(text) && text@ == NOT_IMPLEMENTED@,
{
    Err(NOT_IMPLEMENTED.to_owned())
}

/// Stores `resource`: accepted and dropped, as long as there is no store.
#[allow(unused_variables)]
pub fn save_resource(resource: Resource) -> (r: Result<(), String>)
    ensures
        r is Ok,
{
    Ok(())
}

/// Deletes the stored resource `id`: accepted, as long as there is no store.
#[allow(unused_variables)]
pub fn delete_resource(id: String) -> (r: Result<(), String>)
    ensures
        r is Ok,
{
    Ok(())
}

/// The settings: no keys, the library under `library`, logging at `info`.
pub fn get_settings() -> (r: Result<Settings, String>)
    ensures
        r matches Ok(settings) && settings.api_keys@ == Map::<String, String>::empty()
            && settings.library_path@ == "library"@ && settings.log_level@ == "info"@,
{
    Ok(
        Settings {
            api_keys: HashMap::new(),
            library_path: "library".to_owned(),
            log_level: "info".to_owned(),
        },
    )
}

/// Replaces the settings: accepted and dropped, as long as they are not kept.
#[allow(unused_variables)]
pub fn update_settings(settings: Settings) -> (r: Result<(), String>)
    ensures
        r is Ok,
{
    Ok(())
}

/// The task `id`: not implemented, as long as there is no queue.
#[allow(unused_variables)]
pub fn get_task_status(id: String) -> (r: Result<Task, String>)
    ensures
        r matches Err(text) && text@ == NOT_IMPLEMENTED@,
{
    Err(NOT_IMPLEMENTED.to_owned())
}

/// The tasks: none, as long as there is no queue.
pub fn list_tasks() -> (r: Result<Vec<Task>, String>)
    ensures
        r matches Ok(list) && list@.len() == 0,
{
    Ok(Vec::new())
}

} // verus!
