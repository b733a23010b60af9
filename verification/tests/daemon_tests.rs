use e_voice::client::{ClientError, DaemonClient};
use e_voice::config::{AppConfig, ConfigError, PersistentState};
use e_voice::daemon::{
    finish_process, finish_set_mode, handle_connection, handle_request, lock_failed,
    serve_connection, socket_path, AppState, ConnectionAction, ConnectionEvent, Daemon,
    DaemonAction, DaemonError, DaemonEvent, DaemonPhase, Request, Response, Step, VERSION,
};
use e_voice::llm_backend::BackendError;
use e_voice::modes::{Mode, Profile};
use e_voice::transport::{DaemonTransport, DaemonTransportError, SendAction, SendEvent};

fn daemon() -> Daemon {
    Daemon::new_with_socket_path(
        AppConfig::default(),
        PersistentState::default(),
        "/tmp/e-voice-test.sock".to_owned(),
    )
}

/// What the daemon answers if everything that it asks for succeeds.
fn answer(request: Request, state: &mut AppState) -> Response {
    match handle_request(request, state) {
        Step::Reply(response) => response,
        Step::Forward(job) => finish_process(&job, Ok("output".to_owned())),
        Step::Save(saved) => finish_set_mode(&saved, Ok(())),
    }
}

#[test]
fn serializes_text_response_with_tagged_payload() {
    let json = Response::Text("hello".to_owned()).encode();

    assert_eq!(json, r#"{"type":"text","payload":"hello"}"#);
}

#[test]
fn serializes_the_other_responses() {
    assert_eq!(
        Response::ModeChanged {
            mode: "bullet".to_owned()
        }
        .encode(),
        r#"{"type":"mode_changed","payload":{"mode":"bullet"}}"#
    );
    assert_eq!(
        Response::ModelChanged {
            model: "m".to_owned()
        }
        .encode(),
        r#"{"type":"model_changed","payload":{"model":"m"}}"#
    );
    let status = Response::Status {
        mode: "clean".to_owned(),
        model: "m".to_owned(),
        version: "1".to_owned(),
        profile: "universal_interpreter".to_owned(),
    };
    assert_eq!(
        status.encode(),
        r#"{"type":"status","payload":{"mode":"clean","model":"m","version":"1","profile":"universal_interpreter"}}"#
    );
    assert_eq!(
        Response::Error("a \"b\"\n".to_owned()).frame(),
        "{\"type\":\"error\",\"payload\":\"a \\\"b\\\"\\n\"}\n"
    );
}

#[test]
fn serializes_requests() {
    assert_eq!(Request::GetStatus.frame(), "{\"type\":\"get_status\"}\n");
    assert_eq!(
        Request::SetMode {
            mode: "formal".to_owned()
        }
        .encode(),
        r#"{"type":"set_mode","mode":"formal"}"#
    );
    assert_eq!(
        Request::SetModel {
            model: "m".to_owned()
        }
        .encode(),
        r#"{"type":"set_model","model":"m"}"#
    );
    let request = Request::Process {
        text: "hi\nthere".to_owned(),
        request_id: None,
        profile: Some(Profile::Translate("ja".to_owned())),
    };
    let parsed: serde_json::Value = serde_json::from_str(&request.encode()).unwrap();
    assert_eq!(parsed["type"], "process");
    assert_eq!(parsed["text"], "hi\nthere");
    assert!(parsed["request_id"].is_null());
    assert_eq!(parsed["profile"], "translate:ja");
    assert_eq!(request.frame().lines().count(), 1);
}

#[test]
fn daemon_client_get_status_and_set_mode_roundtrip() {
    let mut state = daemon().shared_state();
    match answer(Request::GetStatus, &mut state) {
        Response::Status { mode, .. } => {
            assert!(!mode.is_empty(), "mode should not be empty");
        }
        other => panic!("unexpected response: {other:?}"),
    }

    let request = Request::SetMode {
        mode: "bullet".to_owned(),
    };
    match answer(request, &mut state) {
        Response::ModeChanged { mode } => assert_eq!(mode, "bullet"),
        other => panic!("unexpected response: {other:?}"),
    }

    match answer(Request::GetStatus, &mut state) {
        Response::Status { mode, .. } => assert_eq!(mode, "bullet"),
        other => panic!("unexpected response: {other:?}"),
    }
}

#[test]
fn daemon_transport_get_status_and_set_model_roundtrip() {
    let mut state = daemon().shared_state();
    match answer(Request::GetStatus, &mut state) {
        Response::Status { model, version, .. } => {
            assert!(!model.is_empty(), "model should not be empty");
            assert!(!version.is_empty(), "version should not be empty");
        }
        other => panic!("unexpected response: {other:?}"),
    }

    let request = Request::SetModel {
        model: "llama3.2:3b".to_owned(),
    };
    match answer(request, &mut state) {
        Response::ModelChanged { model } => assert_eq!(model, "llama3.2:3b"),
        other => panic!("unexpected response: {other:?}"),
    }

    match answer(Request::GetStatus, &mut state) {
        Response::Status { model, version, .. } => {
            assert_eq!(model, "llama3.2:3b");
            assert!(!version.is_empty(), "version should not be empty");
        }
        other => panic!("unexpected response: {other:?}"),
    }
}

#[test]
fn status_reports_mode_model_version_and_profile() {
    let mut state = daemon().shared_state();
    let request = Request::SetMode {
        mode: "TRANSLATE:es".to_owned(),
    };
    assert!(matches!(
        answer(request, &mut state),
        Response::ModeChanged { .. }
    ));
    match answer(Request::GetStatus, &mut state) {
        Response::Status {
            mode,
            model,
            version,
            profile,
        } => {
            assert_eq!(mode, "translate:es");
            assert_eq!(model, "llama3.2:1b");
            assert_eq!(version, VERSION);
            assert_eq!(profile, "translate:es");
        }
        other => panic!("unexpected response: {other:?}"),
    }
    assert_eq!(state.mode(), "translate:es");
}

#[test]
fn process_uses_the_override_model_and_the_profile() {
    let mut state = daemon().shared_state();
    let _ = answer(
        Request::SetModel {
            model: "big".to_owned(),
        },
        &mut state,
    );
    let _ = answer(
        Request::SetMode {
            mode: "formal".to_owned(),
        },
        &mut state,
    );
    let request = |profile| Request::Process {
        text: "hey".to_owned(),
        request_id: None,
        profile,
    };
    match handle_request(request(None), &mut state) {
        Step::Forward(job) => {
            assert_eq!(job.request_id, "unknown-request");
            assert_eq!(job.call.model, "big");
            assert_eq!(job.call.keep_alive_secs, 300);
            assert_eq!(
                job.call.prompt,
                Mode::Clean.prompt_template("hey\nmake it formal:")
            );
            let failed = finish_process(&job, Err(BackendError::EmptyResponse));
            assert!(matches!(failed, Response::Text(t) if t == "hey"));
            let done = finish_process(&job, Ok("Good day".to_owned()));
            assert!(matches!(done, Response::Text(t) if t == "Good day"));
        }
        other => panic!("unexpected step: {other:?}"),
    }
    match handle_request(request(Some(Profile::UniversalInterpreter)), &mut state) {
        Step::Forward(job) => {
            assert_eq!(job.call.prompt, Mode::Clean.prompt_template("hey"))
        }
        other => panic!("unexpected step: {other:?}"),
    }
}

#[test]
fn refused_mode_changes_nothing() {
    let mut state = daemon().shared_state();
    let request = Request::SetMode {
        mode: "poetic".to_owned(),
    };
    match answer(request, &mut state) {
        Response::Error(e) => assert_eq!(e, "unsupported mode: poetic"),
        other => panic!("unexpected response: {other:?}"),
    }
    assert_eq!(state.mode(), "clean");
}

#[test]
fn mode_stays_changed_if_it_cannot_be_saved() {
    let mut state = daemon().shared_state();
    let request = Request::SetMode {
        mode: "casual".to_owned(),
    };
    match handle_request(request, &mut state) {
        Step::Save(saved) => {
            assert_eq!(saved.field(), "casual");
            match finish_set_mode(&saved, Err(ConfigError::MissingHome)) {
                Response::Error(e) => {
                    assert_eq!(e, "failed to persist mode: $HOME is not set")
                }
                other => panic!("unexpected response: {other:?}"),
            }
        }
        other => panic!("unexpected step: {other:?}"),
    }
    assert_eq!(state.mode(), "casual");
}

#[test]
fn saved_mode_is_restored() {
    let mut state = daemon().shared_state();
    let request = Request::SetMode {
        mode: "clean".to_owned(),
    };
    let field = match handle_request(request, &mut state) {
        Step::Save(saved) => saved.field(),
        other => panic!("unexpected step: {other:?}"),
    };
    assert_eq!(field, "universal_interpreter");
    let saved = PersistentState::from_field("bullet").unwrap();
    let restored = Daemon::new(AppConfig::default(), saved, Some("/run"), None).unwrap();
    assert_eq!(restored.socket_path, "/run/e-voice.sock");
    assert_eq!(restored.state.mode(), "bullet");
}

#[test]
fn invalid_lines_are_answered() {
    let mut state = daemon().shared_state();
    match handle_connection(Err("expected value".to_owned()), &mut state) {
        Step::Reply(Response::Error(e)) => assert_eq!(e, "invalid request: expected value"),
        other => panic!("unexpected step: {other:?}"),
    }
    assert!(matches!(
        handle_connection(Ok(Request::GetStatus), &mut state),
        Step::Reply(Response::Status { .. })
    ));
    let locked = |line: Result<Request, String>| match lock_failed(&line) {
        Response::Error(e) => e,
        other => panic!("unexpected response: {other:?}"),
    };
    let set_mode = |mode: &str| {
        Ok(Request::SetMode {
            mode: mode.to_owned(),
        })
    };
    assert_eq!(locked(Ok(Request::GetStatus)), "failed to lock app state");
    assert_eq!(locked(set_mode("formal")), "failed to lock app state");
    assert_eq!(locked(set_mode("poetic")), "unsupported mode: poetic");
    assert_eq!(locked(Err("eof".to_owned())), "invalid request: eof");
}

#[test]
fn every_line_of_a_connection_is_answered() {
    let mut state = daemon().shared_state();
    let mut lines = vec!["status", "{", "mode", "status"].into_iter();
    let mut written = String::new();
    let mut event = ConnectionEvent::Opened;
    let result = loop {
        event = match serve_connection(event) {
            ConnectionAction::ReadLine => {
                ConnectionEvent::Read(Ok(lines.next().map(|l| l.to_owned())))
            }
            ConnectionAction::Handle(line) => {
                let request = match line.as_str() {
                    "status" => Ok(Request::GetStatus),
                    "mode" => Ok(Request::SetMode {
                        mode: "formal".to_owned(),
                    }),
                    other => Err(format!("bad {other}")),
                };
                let response = match handle_connection(request, &mut state) {
                    Step::Reply(response) => response,
                    Step::Save(saved) => finish_set_mode(&saved, Ok(())),
                    other => panic!("unexpected step: {other:?}"),
                };
                ConnectionEvent::Answered(response)
            }
            ConnectionAction::Write(text) => {
                written.push_str(&text);
                ConnectionEvent::Written(Ok(()))
            }
            ConnectionAction::Finish(result) => break result,
        };
    };
    assert!(result.is_ok());
    let answers: Vec<&str> = written.lines().collect();
    assert_eq!(answers.len(), 4);
    assert!(answers[0].contains(r#""mode":"clean""#));
    assert_eq!(
        answers[1],
        r#"{"type":"error","payload":"invalid request: bad {"}"#
    );
    assert_eq!(
        answers[2],
        r#"{"type":"mode_changed","payload":{"mode":"formal"}}"#
    );
    assert!(answers[3].contains(r#""mode":"formal""#));
}

#[test]
fn connection_failures_end_it() {
    let failed = |event| match serve_connection(event) {
        ConnectionAction::Finish(Err(e)) => e.message(),
        other => panic!("unexpected action: {other:?}"),
    };
    assert_eq!(
        failed(ConnectionEvent::Read(Err("a".to_owned()))),
        "io error: a"
    );
    assert_eq!(
        failed(ConnectionEvent::Written(Err("b".to_owned()))),
        "io error: b"
    );
}

#[test]
fn responses_are_shown_as_rust_shows_them() {
    for response in [
        Response::Text("a \"quoted\"\ttext\u{7f}é".to_owned()),
        Response::ModeChanged {
            mode: "bullet".to_owned(),
        },
        Response::ModelChanged {
            model: "m".to_owned(),
        },
        Response::Status {
            mode: "clean".to_owned(),
            model: "m".to_owned(),
            version: "1".to_owned(),
            profile: "p".to_owned(),
        },
        Response::Error("'e'".to_owned()),
    ] {
        assert_eq!(response.debug(), format!("{response:?}"));
    }
}

#[test]
fn socket_follows_the_environment() {
    let path = |dir, uid| socket_path(dir, uid).unwrap();
    assert_eq!(path(Some("/run/user/7"), Some("7")), "/run/user/7/e-voice.sock");
    assert_eq!(path(Some(""), Some("7")), "/tmp/e-voice-7.sock");
    assert_eq!(path(None, None), "/tmp/e-voice-unknown.sock");
}

#[test]
fn daemon_replaces_a_stale_socket_and_cleans_up() {
    let (phase, action) = Daemon::run(DaemonPhase::Starting, DaemonEvent::SocketExists(true));
    assert!(matches!(action, DaemonAction::RemoveStale));
    let (phase, action) = Daemon::run(phase, DaemonEvent::Removed(Ok(())));
    assert!(matches!(action, DaemonAction::Bind));
    let (phase, action) = Daemon::run(phase, DaemonEvent::Bound(Ok(())));
    assert!(matches!(action, DaemonAction::Wait));
    let (phase, action) = Daemon::run(phase, DaemonEvent::Accepted(Ok(())));
    assert!(matches!(action, DaemonAction::Serve));
    let touched = |watched, requested| DaemonEvent::ShutdownChanged { watched, requested };
    let (phase, action) = Daemon::run(phase, touched(true, false));
    assert!(matches!(action, DaemonAction::Wait));
    let (phase, action) = Daemon::run(phase, touched(false, true));
    assert!(matches!(action, DaemonAction::Wait));
    let (phase, action) = Daemon::run(phase, touched(true, true));
    assert!(matches!(action, DaemonAction::CleanUp));
    assert_eq!(phase, DaemonPhase::Ended);
}

#[test]
fn daemon_fails_on_io_errors() {
    let (phase, action) = Daemon::run(DaemonPhase::Starting, DaemonEvent::SocketExists(false));
    assert!(matches!(action, DaemonAction::Bind));
    let (phase, action) = Daemon::run(phase, DaemonEvent::Bound(Err("in use".to_owned())));
    assert_eq!(phase, DaemonPhase::Ended);
    match action {
        DaemonAction::Fail(e) => assert_eq!(e.message(), "io error: in use"),
        other => panic!("unexpected action: {other:?}"),
    }
    let failed = |phase, event| match Daemon::run(phase, event) {
        (DaemonPhase::Ended, DaemonAction::Fail(e)) => e.message(),
        other => panic!("unexpected turn: {other:?}"),
    };
    assert_eq!(
        failed(DaemonPhase::Starting, DaemonEvent::Removed(Err("a".to_owned()))),
        "io error: a"
    );
    assert_eq!(
        failed(DaemonPhase::Listening, DaemonEvent::Accepted(Err("b".to_owned()))),
        "io error: b"
    );
    let (_, action) = Daemon::run(DaemonPhase::Ended, DaemonEvent::Accepted(Ok(())));
    assert!(matches!(action, DaemonAction::Ignore));
}

#[test]
fn daemon_errors_in_words() {
    assert_eq!(
        DaemonError::Config(ConfigError::MissingHome).message(),
        "config error: $HOME is not set"
    );
    assert_eq!(
        DaemonError::Processor(BackendError::EmptyResponse).message(),
        "processor error: empty response from backend"
    );
    assert_eq!(DaemonError::Json("j".to_owned()).message(), "json error: j");
}

#[test]
fn transport_sends_one_line_and_reads_one() {
    let transport = DaemonTransport::new("/s".to_owned());
    let send = |event| transport.send(&Request::GetStatus, event);
    assert!(matches!(send(SendEvent::Start), SendAction::Connect(p) if p == "/s"));
    assert!(matches!(
        send(SendEvent::Connected(Ok(()))),
        SendAction::Write(line) if line == "{\"type\":\"get_status\"}\n"
    ));
    assert!(matches!(
        send(SendEvent::Written(Ok(()))),
        SendAction::ReadLine
    ));
    assert!(matches!(
        send(SendEvent::Line(Ok(Some("{}".to_owned())))),
        SendAction::Decode(line) if line == "{}"
    ));
    assert!(matches!(
        send(SendEvent::Decoded(Ok(Response::Text("t".to_owned())))),
        SendAction::Finish(Ok(Response::Text(t))) if t == "t"
    ));
}

#[test]
fn transport_errors_in_words() {
    let transport = DaemonTransport::new("/s".to_owned());
    let error = |event| match transport.send(&Request::GetStatus, event) {
        SendAction::Finish(Err(e)) => e.message(),
        other => panic!("unexpected action: {other:?}"),
    };
    let broken = || "broken".to_owned();
    assert_eq!(error(SendEvent::Connected(Err(broken()))), "io error: broken");
    assert_eq!(error(SendEvent::Written(Err(broken()))), "io error: broken");
    assert_eq!(error(SendEvent::Line(Err(broken()))), "io error: broken");
    assert_eq!(
        error(SendEvent::Line(Ok(None))),
        "protocol error: daemon closed connection"
    );
    assert_eq!(error(SendEvent::Decoded(Err(broken()))), "json error: broken");
    assert_eq!(
        DaemonTransportError::Protocol("p".to_owned()).message(),
        "protocol error: p"
    );
}

#[test]
fn client_finds_the_socket() {
    let own = DaemonClient::new();
    assert!(matches!(
        own.send(&Request::GetStatus, Some("/run"), None, SendEvent::Start),
        SendAction::Connect(p) if p == "/run/e-voice.sock"
    ));
    let given = DaemonClient::with_socket_path("/s".to_owned());
    assert!(matches!(
        given.send(&Request::GetStatus, Some("/run"), None, SendEvent::Start),
        SendAction::Connect(p) if p == "/s"
    ));
    match given.send(&Request::GetStatus, None, None, SendEvent::Line(Ok(None))) {
        SendAction::Finish(Err(e)) => {
            assert!(matches!(e, ClientError::Protocol(_)));
            assert_eq!(e.message(), "protocol error: daemon closed connection");
        }
        other => panic!("unexpected action: {other:?}"),
    }
    assert_eq!(
        ClientError::Daemon(DaemonError::Io("x".to_owned())).message(),
        "daemon error: io error: x"
    );
    assert_eq!(ClientError::Io("x".to_owned()).message(), "io error: x");
    assert_eq!(ClientError::Json("x".to_owned()).message(), "json error: x");
}
