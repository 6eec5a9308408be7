use std::collections::HashMap;
use worker_bridge::commands::{
    delete_resource, done_event, error_event, execute_command, finish_resource, finish_task,
    get_resource_by_id, get_resources, get_settings, get_task_status, greet, list_tasks,
    parse_pdf, process_audio, process_video, project_resource, project_task, save_resource,
    start_event, update_settings, Invocation, Resource, Settings, Task,
};
use worker_bridge::json::Json;
use worker_bridge::outcome::{reconcile, ExitStatus, Response};
use worker_bridge::progress::ProgressEvent;
use worker_bridge::request::Request;
use worker_bridge::schema::SchemaError;

fn text(s: &str) -> Json {
    Json::Text(s.to_string())
}

fn object(members: Vec<(&str, Json)>) -> Json {
    Json::Object(members.into_iter().map(|(k, v)| (k.to_string(), v)).collect())
}

fn event(stage: &str, progress: i32, message: &str) -> ProgressEvent {
    ProgressEvent { stage: stage.to_string(), progress, message: message.to_string() }
}

fn invocation(command: &str, key: &str, value: &str) -> Invocation {
    Invocation {
        started: event("start", 0, "call started"),
        request: Request { command: command.to_string(), payload: object(vec![(key, text(value))]) },
    }
}

fn small_resource() -> Resource {
    Resource {
        id: "r1".to_string(),
        kind: "pdf".to_string(),
        title: "A".to_string(),
        source: String::new(),
        md_path: None,
        assets: vec![],
        vector_index: None,
        created_at: String::new(),
        updated_at: String::new(),
    }
}

fn full_resource_payload() -> Json {
    object(vec![
        ("id", text("r2")),
        ("type", text("video")),
        ("title", text("Talk")),
        ("source", text("https://v/1")),
        ("md_path", text("library/r2.md")),
        ("assets", Json::Array(vec![text("a.png"), text("b.png")])),
        ("vector_index", Json::Null),
        ("created_at", text("2024-01-01")),
        ("updated_at", text("2024-01-02")),
        ("extra", Json::Bool(true)),
    ])
}

fn task_payload() -> Json {
    object(vec![
        ("id", text("t1")),
        ("status", text("pending")),
        ("cmd", text("summarise")),
        ("payload", object(vec![("n", Json::Number("3".to_string()))])),
        ("created_at", text("c")),
        ("updated_at", text("u")),
    ])
}

#[test]
fn the_events_of_the_facade() {
    assert_eq!(start_event(), event("start", 0, "call started"));
    assert_eq!(done_event(), event("done", 100, "call finished"));
    assert_eq!(error_event("no such file"), event("error", 0, "no such file"));
}

#[test]
fn each_operation_opens_with_its_request() {
    assert_eq!(parse_pdf("/a.pdf".to_string()), invocation("parseDocument", "path", "/a.pdf"));
    assert_eq!(process_video("https://v/1".to_string()), invocation("processVideo", "url", "https://v/1"));
    assert_eq!(process_audio("/a.mp3".to_string()), invocation("processAudio", "path", "/a.mp3"));
    assert_eq!(
        execute_command("summarise A".to_string()),
        invocation("executeCommand", "command", "summarise A")
    );
}

#[test]
fn parsing_a_document_from_request_to_resource() {
    let call = parse_pdf("/a.pdf".to_string());
    let mut events = vec![call.started];
    assert_eq!(
        call.request.encode(),
        Some(r#"{"cmd":"parseDocument","payload":{"path":"/a.pdf"}}"#.to_string())
    );
    let response = reconcile(
        ExitStatus { code: Some(0) },
        br#"{"result":{"id":"r1","type":"pdf","title":"A"}}"#,
        b"",
    );
    let (last, result) = finish_resource(&response);
    events.push(last);
    assert_eq!(result, Ok(small_resource()));
    assert_eq!(events, vec![event("start", 0, "call started"), event("done", 100, "call finished")]);
}

#[test]
fn a_full_resource_is_read_field_by_field() {
    assert_eq!(
        project_resource(&full_resource_payload()),
        Ok(Resource {
            id: "r2".to_string(),
            kind: "video".to_string(),
            title: "Talk".to_string(),
            source: "https://v/1".to_string(),
            md_path: Some("library/r2.md".to_string()),
            assets: vec!["a.png".to_string(), "b.png".to_string()],
            vector_index: None,
            created_at: "2024-01-01".to_string(),
            updated_at: "2024-01-02".to_string(),
        })
    );
}

#[test]
fn a_resource_needs_id_type_and_title() {
    let missing = |field: &str| Err(SchemaError::MissingField { field: field.to_string() });
    assert_eq!(project_resource(&object(vec![])), missing("id"));
    assert_eq!(project_resource(&object(vec![("id", text("r"))])), missing("type"));
    assert_eq!(
        project_resource(&object(vec![("id", text("r")), ("type", text("pdf"))])),
        missing("title")
    );
    assert_eq!(
        project_resource(&object(vec![("type", text("pdf")), ("title", text("A"))])),
        missing("id")
    );
}

#[test]
fn a_resource_is_an_object() {
    for payload in [Json::Null, Json::Bool(true), text("r1"), Json::Array(vec![text("r1")])] {
        assert_eq!(project_resource(&payload), Err(SchemaError::NotAnObject));
        assert_eq!(project_task(&payload), Err(SchemaError::NotAnObject));
    }
}

#[test]
fn members_of_the_wrong_kind_are_mismatches() {
    let wrong = |field: &str| Err(SchemaError::WrongType { field: field.to_string() });
    let with = |key: &str, value: Json| {
        let mut members = vec![("id", text("r")), ("type", text("pdf")), ("title", text("A"))];
        members.push((key, value));
        object(members)
    };
    assert_eq!(project_resource(&with("id", Json::Number("5".to_string()))), wrong("id"));
    assert_eq!(project_resource(&with("title", Json::Null)), wrong("title"));
    assert_eq!(project_resource(&with("source", Json::Null)), wrong("source"));
    assert_eq!(project_resource(&with("md_path", Json::Bool(false))), wrong("md_path"));
    assert_eq!(project_resource(&with("assets", text("a.png"))), wrong("assets"));
    assert_eq!(project_resource(&with("assets", Json::Null)), wrong("assets"));
    assert_eq!(
        project_resource(&with("assets", Json::Array(vec![text("a"), Json::Null]))),
        wrong("assets")
    );
    assert_eq!(project_resource(&with("vector_index", Json::Array(vec![]))), wrong("vector_index"));
    assert_eq!(project_resource(&with("created_at", Json::Number("1".to_string()))), wrong("created_at"));
    assert_eq!(project_resource(&with("updated_at", object(vec![]))), wrong("updated_at"));
}

#[test]
fn the_first_mismatch_in_field_order_is_reported() {
    let payload = object(vec![
        ("updated_at", Json::Null),
        ("assets", Json::Null),
        ("id", text("r")),
        ("type", text("pdf")),
        ("title", text("A")),
        ("source", Json::Null),
    ]);
    assert_eq!(
        project_resource(&payload),
        Err(SchemaError::WrongType { field: "source".to_string() })
    );
}

#[test]
fn a_task_is_read_field_by_field() {
    assert_eq!(
        project_task(&task_payload()),
        Ok(Task {
            id: "t1".to_string(),
            status: "pending".to_string(),
            cmd: "summarise".to_string(),
            payload: object(vec![("n", Json::Number("3".to_string()))]),
            result: None,
            error: None,
            created_at: "c".to_string(),
            updated_at: "u".to_string(),
        })
    );
    let mut members = match task_payload() {
        Json::Object(members) => members,
        _ => unreachable!(),
    };
    members.push(("result".to_string(), Json::Array(vec![Json::Bool(true)])));
    members.push(("error".to_string(), text("late")));
    members.push(("payload".to_string(), Json::Null));
    let task = project_task(&Json::Object(members)).unwrap();
    assert_eq!(task.payload, Json::Null);
    assert_eq!(task.result, Some(Json::Array(vec![Json::Bool(true)])));
    assert_eq!(task.error, Some("late".to_string()));
}

#[test]
fn a_task_needs_all_but_result_and_error() {
    for field in ["id", "status", "cmd", "payload", "created_at", "updated_at"] {
        let members = match task_payload() {
            Json::Object(members) => members.into_iter().filter(|(k, _)| k != field).collect(),
            _ => unreachable!(),
        };
        assert_eq!(
            project_task(&Json::Object(members)),
            Err(SchemaError::MissingField { field: field.to_string() })
        );
    }
    let mut members = match task_payload() {
        Json::Object(members) => members,
        _ => unreachable!(),
    };
    members.push(("result".to_string(), Json::Null));
    members.push(("error".to_string(), Json::Null));
    let task = project_task(&Json::Object(members.clone())).unwrap();
    assert_eq!((task.result, task.error), (None, None));
    members.push(("error".to_string(), Json::Number("1".to_string())));
    assert_eq!(
        project_task(&Json::Object(members)),
        Err(SchemaError::WrongType { field: "error".to_string() })
    );
}

#[test]
fn the_words_for_each_mismatch() {
    assert_eq!(SchemaError::NotAnObject.message(), "expected an object");
    assert_eq!(SchemaError::MissingField { field: "id".to_string() }.message(), "missing field id");
    assert_eq!(
        SchemaError::WrongType { field: "assets".to_string() }.message(),
        "invalid type for field assets"
    );
}

#[test]
fn a_failed_call_closes_with_the_error_event() {
    let response = Response::ApplicationError { message: "no such file".to_string() };
    assert_eq!(
        finish_resource(&response),
        (event("error", 0, "no such file"), Err("no such file".to_string()))
    );
    assert_eq!(
        finish_task(&response),
        (event("error", 0, "no such file"), Err("no such file".to_string()))
    );
    let transport = Response::TransportError {
        message: "worker entry script not found".to_string(),
        diagnostics: "searched from: /srv\nexpected: python/main.py".to_string(),
        exit_code: None,
    };
    let text = "worker entry script not found\nsearched from: /srv\nexpected: python/main.py";
    assert_eq!(finish_resource(&transport), (event("error", 0, text), Err(text.to_string())));
    let exited = reconcile(ExitStatus { code: Some(2) }, b"", b"ModuleNotFoundError");
    let (last, result) = finish_task(&exited);
    let text = result.unwrap_err();
    assert_eq!(last, event("error", 0, &text));
    assert!(text.starts_with("worker exited with a failure status\nhint: the worker runtime or its environment is missing"));
    assert!(text.ends_with("\nexit code: 2\nstderr: ModuleNotFoundError\n"));
}

#[test]
fn a_payload_of_the_wrong_shape_closes_with_the_error_event() {
    let failed = |words: &str| (event("error", 0, words), Err(words.to_string()));
    let no_result = Response::Success { result: object(vec![("other", Json::Null)]) };
    assert_eq!(finish_resource(&no_result), failed("Failed to parse result: expected an object"));
    let (last, result) = finish_task(&no_result);
    assert_eq!(last, event("error", 0, "Failed to parse result: expected an object"));
    assert_eq!(result, Err("Failed to parse result: expected an object".to_string()));
    let not_an_object = Response::Success { result: Json::Array(vec![]) };
    assert_eq!(finish_resource(&not_an_object), failed("Failed to parse result: expected an object"));
    let incomplete =
        Response::Success { result: object(vec![("result", object(vec![("id", text("r1"))]))]) };
    assert_eq!(finish_resource(&incomplete), failed("Failed to parse result: missing field type"));
    let (last, result) = finish_task(&incomplete);
    assert_eq!(last, event("error", 0, "Failed to parse result: missing field status"));
    assert_eq!(result, Err("Failed to parse result: missing field status".to_string()));
}

#[test]
fn a_payload_with_an_error_member_never_yields_a_result() {
    let stdout = br#"{"error":{"code":7},"result":{"id":"t1","status":"completed","cmd":"x","payload":{},"created_at":"c","updated_at":"d"}}"#;
    let response = reconcile(ExitStatus { code: Some(0) }, stdout, b"");
    let words = "worker reported an error without a message";
    assert_eq!(response, Response::ApplicationError { message: words.to_string() });
    assert_eq!(finish_task(&response), (event("error", 0, words), Err(words.to_string())));
    let stdout = br#"{"error":"disk full","result":{"id":"r1","type":"pdf","title":"A"}}"#;
    let response = reconcile(ExitStatus { code: Some(0) }, stdout, b"");
    assert_eq!(
        finish_resource(&response),
        (event("error", 0, "disk full"), Err("disk full".to_string()))
    );
}

#[test]
fn a_task_call_closes_with_its_task() {
    let response = Response::Success { result: object(vec![("result", task_payload())]) };
    let (last, result) = finish_task(&response);
    assert_eq!(last, event("done", 100, "call finished"));
    assert_eq!(result, project_task(&task_payload()).map_err(|e| e.message()));
    assert_eq!(result.unwrap().id, "t1");
}

#[test]
fn greeting() {
    assert_eq!(greet("Ada"), "Hello, Ada! You've been greeted from Rust!");
    assert_eq!(greet(""), "Hello, ! You've been greeted from Rust!");
}

#[test]
fn the_stores_that_are_not_built_yet() {
    assert_eq!(get_resources(), Ok(vec![]));
    assert_eq!(get_resource_by_id("r1".to_string()), Err("Not implemented".to_string()));
    assert_eq!(save_resource(small_resource()), Ok(()));
    assert_eq!(delete_resource("r1".to_string()), Ok(()));
    assert_eq!(get_task_status("t1".to_string()), Err("Not implemented".to_string()));
    assert_eq!(list_tasks(), Ok(vec![]));
    let settings = Settings {
        api_keys: HashMap::new(),
        library_path: "library".to_string(),
        log_level: "info".to_string(),
    };
    assert_eq!(get_settings(), Ok(settings));
    let mut changed = get_settings().unwrap();
    changed.api_keys.insert("openai".to_string(), "SECRET-REDACTED".to_string());
    assert_eq!(update_settings(changed), Ok(()));
}
