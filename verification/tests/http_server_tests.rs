use e_voice::config::{AppConfig, Backend, LlmConfig, PersistentState};
use e_voice::daemon::{finish_process, AppState, Response, Step, VERSION};
use e_voice::hook::patch_voxtype_http_hook;
use e_voice::http_server::{
    build_state, health_handler, listen_address, process_handler, process_reply, run, shuts_down,
    status_handler, status_reply, BodyKind, HttpReply, ProcessPayload, DEFAULT_HTTP_PORT,
};
use e_voice::llm_backend::BackendError;
use e_voice::modes::{Mode, Profile};
use serde_json::Value;

fn make_config(ollama_url: String) -> AppConfig {
    AppConfig {
        llm: LlmConfig {
            backend: Backend::Ollama,
            url: ollama_url,
            model: "test-model".to_owned(),
            keep_alive_secs: 300,
        },
    }
}

fn json(reply: &HttpReply) -> Value {
    assert_eq!(reply.kind, BodyKind::Json);
    serde_json::from_str(&reply.body).expect("body should be JSON")
}

/// Posts a text to a server whose backend gives the outcome.
fn post(
    text: &str,
    profile: Option<Profile>,
    outcome: Result<String, BackendError>,
    state: &mut AppState,
) -> (String, HttpReply) {
    let payload = ProcessPayload {
        text: text.to_owned(),
        profile,
    };
    match process_handler(payload, state) {
        Step::Forward(job) => {
            let response = finish_process(&job, outcome);
            (job.call.prompt, process_reply(response))
        }
        other => panic!("unexpected step: {other:?}"),
    }
}

#[test]
fn test_health_returns_200() {
    let resp = health_handler();
    assert_eq!(resp.status, 200);
    assert_eq!(json(&resp)["status"], "ok");
}

#[test]
fn test_status_returns_model_and_version() {
    let mut state = build_state(make_config("http://h".to_owned()));
    let resp = status_handler(&mut state);
    assert_eq!(resp.status, 200);
    let body = json(&resp);
    assert_eq!(body["model"], "test-model");
    assert_eq!(body["version"], VERSION);
}

#[test]
fn test_post_process_returns_text() {
    let mut state = build_state(make_config("http://h".to_owned()));
    let (_, resp) = post("hello", None, Ok("Hello world".to_owned()), &mut state);
    assert_eq!(resp.status, 200);
    assert_eq!(json(&resp)["text"], "Hello world");
}

#[test]
fn test_server_binds_localhost_only() {
    let (ip, port) = listen_address(0);
    assert_eq!(ip, [127, 0, 0, 1]);
    assert_eq!(port, 0);
    assert_eq!(listen_address(DEFAULT_HTTP_PORT).1, 39539);
}

#[test]
fn test_process_text_roundtrip() {
    let mut state = build_state(make_config("http://h".to_owned()));
    let (_, resp) = post(
        "raw input text",
        None,
        Ok("processed output".to_owned()),
        &mut state,
    );
    assert_eq!(resp.status, 200);
    assert_eq!(resp.body, r#"{"text":"processed output"}"#);
}

#[test]
fn test_voxtype_config_patched_to_http() {
    let content = patch_voxtype_http_hook("", DEFAULT_HTTP_PORT).expect("patching is needed");
    assert!(
        content.contains(&format!("http://127.0.0.1:{DEFAULT_HTTP_PORT}/process")),
        "voxtype config must reference the HTTP process endpoint; got:\n{content}"
    );
    assert!(patch_voxtype_http_hook(&content, DEFAULT_HTTP_PORT).is_none());
}

#[test]
fn test_post_process_without_profile_defaults_to_universal() {
    let mut state = build_state(make_config("http://h".to_owned()));
    let (prompt, resp) = post("hello world", None, Ok("processed".to_owned()), &mut state);
    assert_eq!(resp.status, 200, "should return 200 when profile is absent");
    assert!(json(&resp)["text"].as_str().is_some());
    assert_eq!(prompt, Mode::Clean.prompt_template("hello world"));
}

#[test]
fn test_post_process_with_profile_field() {
    let mut state = build_state(make_config("http://h".to_owned()));
    let profile = Profile::from_name("formal").expect("formal should be a profile");
    let (prompt, resp) = post(
        "hey mate",
        Some(profile),
        Ok("formal output".to_owned()),
        &mut state,
    );
    assert_eq!(resp.status, 200, "should return 200 for formal profile");
    assert!(json(&resp)["text"].as_str().is_some());
    assert_eq!(prompt, Profile::Formal.prompt_for("hey mate"));
}

#[test]
fn test_status_returns_active_profile() {
    let mut state = build_state(make_config("http://h".to_owned()));
    let resp = status_handler(&mut state);
    assert_eq!(resp.status, 200);
    assert_eq!(
        json(&resp)["profile"],
        "universal_interpreter",
        "default active profile should be universal_interpreter"
    );
}

#[test]
fn failing_backend_gives_the_text_back() {
    let mut state = build_state(make_config("http://h".to_owned()));
    let (_, resp) = post("raw", None, Err(BackendError::EmptyResponse), &mut state);
    assert_eq!(resp.status, 200);
    assert_eq!(resp.body, r#"{"text":"raw"}"#);
}

#[test]
fn server_starts_with_the_saved_profile() {
    let saved = PersistentState {
        profile: Profile::Casual,
    };
    let mut start = run(make_config("http://h".to_owned()), saved, 4000);
    assert_eq!(start.address, ([127, 0, 0, 1], 4000));
    assert_eq!(json(&status_handler(&mut start.state))["profile"], "casual");
}

#[test]
fn other_answers_are_internal_errors() {
    for reply in [
        process_reply(Response::Error("locked".to_owned())),
        status_reply(Response::Error("locked".to_owned())),
    ] {
        assert_eq!(reply.status, 500);
        assert_eq!(reply.kind, BodyKind::Text);
        assert_eq!(reply.body, "locked");
    }
    let changed = || Response::ModelChanged {
        model: "m".to_owned(),
    };
    for reply in [process_reply(changed()), status_reply(changed())] {
        assert_eq!(reply.status, 500);
        assert_eq!(reply.body, "unexpected response");
    }
}

#[test]
fn server_shuts_down_when_told_or_left_alone() {
    assert!(!shuts_down(true, false));
    assert!(shuts_down(true, true));
    assert!(shuts_down(false, false));
}
