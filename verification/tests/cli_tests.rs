use e_voice::cli::{
    default_log_filter, http_port, http_port_from_env, menu, mode_outcome, mode_request, print_status,
    process_input, process_outcome, process_request, render_check_status, report_config,
    run_doctor, wants_json, Commands, RequestSeq, ACTIVE_JSON, PROCESS_USAGE,
};
use e_voice::daemon::{Request, Response};
use e_voice::diagnostics::{CheckResult, CheckStatus};
use e_voice::transport::DaemonTransportError;

fn status(mode: &str) -> Response {
    Response::Status {
        mode: mode.to_owned(),
        model: "m".to_owned(),
        version: "1".to_owned(),
        profile: "p".to_owned(),
    }
}

fn unreachable_daemon() -> DaemonTransportError {
    DaemonTransportError::Io("refused".to_owned())
}

#[test]
fn only_the_programs_that_stay_log() {
    assert_eq!(default_log_filter(true, None), "e_voice=info");
    assert_eq!(
        default_log_filter(false, Some(&Commands::Daemon)),
        "e_voice=info"
    );
    assert_eq!(
        default_log_filter(false, Some(&Commands::Tray)),
        "e_voice=info"
    );
    assert_eq!(default_log_filter(false, Some(&Commands::Process)), "off");
    assert_eq!(default_log_filter(false, Some(&Commands::Doctor)), "off");
    assert_eq!(default_log_filter(false, None), "off");
}

#[test]
fn input_loses_line_feeds_at_its_end() {
    assert_eq!(process_input("hello\n\n").as_deref(), Some("hello"));
    assert_eq!(process_input(" a\nb \n").as_deref(), Some(" a\nb "));
    assert_eq!(process_input("a\r\n").as_deref(), Some("a\r"));
    assert!(process_input("").is_none());
    assert!(process_input(" \t\n \n").is_none());
    assert!(PROCESS_USAGE.contains("e-voice process\nThe daemon"));
}

#[test]
fn request_ids_are_numbered() {
    let mut seq = RequestSeq::new();
    assert_eq!(seq.next_request_id(), "req-1");
    assert_eq!(seq.next_request_id(), "req-2");
    seq.next = u64::MAX;
    assert_eq!(seq.next_request_id(), "req-18446744073709551615");
    assert_eq!(seq.next_request_id(), "req-0");
    match process_request("t", "req-1") {
        Request::Process {
            text,
            request_id,
            profile,
        } => {
            assert_eq!(text, "t");
            assert_eq!(request_id.as_deref(), Some("req-1"));
            assert!(profile.is_none());
        }
        other => panic!("unexpected request: {other:?}"),
    }
}

#[test]
fn input_is_handed_on_if_the_daemon_fails() {
    let done = process_outcome("raw", Ok(Response::Text("out".to_owned())));
    assert_eq!(done.stdout, "out");
    assert!(done.stderr.is_none());
    assert!(done.result.is_ok());

    let refused = process_outcome("raw", Ok(Response::Error("locked".to_owned())));
    assert_eq!(refused.stdout, "raw");
    assert_eq!(
        refused.stderr.as_deref(),
        Some("e-voice: daemon error: locked")
    );
    assert_eq!(
        refused.result.unwrap_err(),
        "process failed with daemon error"
    );

    let odd = Response::ModelChanged {
        model: "m".to_owned(),
    };
    let odd = process_outcome("raw", Ok(odd));
    assert_eq!(odd.stdout, "raw");
    assert_eq!(
        odd.stderr.as_deref(),
        Some("e-voice: unexpected daemon response, falling back to raw input")
    );
    assert_eq!(
        odd.result.unwrap_err(),
        "process failed: unexpected response ModelChanged { model: \"m\" }"
    );

    let gone = process_outcome("raw", Err(unreachable_daemon()));
    assert_eq!(gone.stdout, "raw");
    assert_eq!(
        gone.stderr.as_deref(),
        Some("e-voice: daemon unreachable (io error: refused). Start it with: e-voice daemon")
    );
    assert_eq!(
        gone.result.unwrap_err(),
        "process failed: daemon unreachable"
    );
}

#[test]
fn status_is_printed() {
    let once = print_status(false, false, None, Ok(status("clean"))).unwrap();
    assert_eq!(once.line, Some("active"));
    assert_eq!(once.mode, "clean");
    assert!(!once.again);
    let printed = print_status(true, false, Some("formal"), Ok(status("clean"))).unwrap();
    assert_eq!(printed.line, None);
    let payload: serde_json::Value = serde_json::from_str(ACTIVE_JSON).unwrap();
    assert_eq!(payload["text"], "active");
    assert_eq!(payload["class"], "active");
    assert_eq!(payload["tooltip"], "e-voice active");
    assert_eq!(payload.to_string(), ACTIVE_JSON);
    assert!(wants_json(Some("json")));
    assert!(!wants_json(Some("JSON")));
    assert!(!wants_json(None));
}

#[test]
fn status_follows_mode_changes() {
    let mut last: Option<String> = None;
    let mut printed = Vec::new();
    for mode in ["clean", "clean", "formal", "formal", "clean"] {
        let turn = print_status(true, true, last.as_deref(), Ok(status(mode))).unwrap();
        assert!(turn.again);
        printed.push(turn.line);
        if turn.line.is_some() {
            last = Some(turn.mode);
        }
    }
    assert_eq!(
        printed,
        [Some(ACTIVE_JSON), None, Some(ACTIVE_JSON), None, Some(ACTIVE_JSON)]
    );
    let gone = print_status(true, true, last.as_deref(), Err(unreachable_daemon()));
    assert_eq!(
        gone.unwrap_err(),
        "failed to query daemon status: io error: refused"
    );
}

#[test]
fn status_fails_without_a_status() {
    let fails = |answer| print_status(false, true, Some("clean"), answer).unwrap_err();
    assert_eq!(
        fails(Ok(Response::Error("locked".to_owned()))),
        "daemon error: locked"
    );
    assert_eq!(
        fails(Ok(Response::Text("t".to_owned()))),
        "unexpected response: Text(\"t\")"
    );
    assert_eq!(
        fails(Err(unreachable_daemon())),
        "failed to query daemon status: io error: refused"
    );
}

#[test]
fn mode_command() {
    assert!(matches!(mode_request("formal"), Request::SetMode { mode } if mode == "formal"));
    let changed = Response::ModeChanged {
        mode: "formal".to_owned(),
    };
    assert_eq!(mode_outcome(Ok(changed)).unwrap(), "formal");
    assert_eq!(
        mode_outcome(Ok(Response::Error("unsupported mode: x".to_owned()))).unwrap_err(),
        "daemon error: unsupported mode: x"
    );
    assert_eq!(
        mode_outcome(Ok(Response::Text("t".to_owned()))).unwrap_err(),
        "unexpected response: Text(\"t\")"
    );
    assert_eq!(
        mode_outcome(Err(unreachable_daemon())).unwrap_err(),
        "failed to set mode: io error: refused"
    );
}

#[test]
fn menu_options_execute_mode_commands() {
    let options: serde_json::Value = serde_json::from_str(&menu()).expect("should be JSON");
    let options = options.as_array().expect("should be a list");
    let exec: Vec<&str> = options.iter().map(|o| o["exec"].as_str().unwrap()).collect();
    assert_eq!(
        exec,
        [
            "e-voice mode clean",
            "e-voice mode formal",
            "e-voice mode casual",
            "e-voice mode bullet",
        ]
    );
    assert_eq!(options[3]["label"], "bullet");
}

#[test]
fn doctor_reports_every_check() {
    let good = vec![
        CheckResult::new(CheckStatus::Info, "llm url: u"),
        CheckResult::new(CheckStatus::Pass, "daemon socket exists: s"),
        CheckResult::new(CheckStatus::Warn, "slow"),
    ];
    let report = run_doctor(&good);
    assert!(report.result.is_ok());
    assert_eq!(
        report.lines,
        [
            "[info] llm url: u",
            "[ok] daemon socket exists: s",
            "[warn] slow",
            "[ok] doctor completed successfully",
        ]
    );
    let bad = vec![
        CheckResult::new(CheckStatus::Fail, "a"),
        CheckResult::new(CheckStatus::Pass, "b"),
        CheckResult::new(CheckStatus::Fail, "c"),
    ];
    let report = run_doctor(&bad);
    assert_eq!(report.lines, ["[fail] a", "[ok] b", "[fail] c"]);
    assert_eq!(report.result.unwrap_err(), "doctor found 2 issue(s)");
    assert_eq!(render_check_status(CheckStatus::Fail), "fail");
}

#[test]
fn doctor_needs_a_configuration() {
    let report = report_config(None);
    assert_eq!(report.lines, ["e-voice doctor", "[ok] config load"]);
    assert!(report.result.is_ok());
    let report = report_config(Some("io error: gone"));
    assert_eq!(
        report.lines,
        ["e-voice doctor", "[fail] config load: io error: gone"]
    );
    assert_eq!(
        report.result.unwrap_err(),
        "doctor failed: config could not be loaded"
    );
}

#[test]
fn ports_are_read_as_rust_reads_them() {
    for value in [
        "0", "80", "+80", "0080", "65535", "65536", "99999999999999999999", "", "+", "-1", "-0",
        " 80", "80 ", "8a", "++1", "0x50", "٣", "000000000000000000000000001", "655350",
    ] {
        assert_eq!(
            http_port_from_env(Some(value)),
            value.parse::<u16>().ok(),
            "{value:?}"
        );
    }
    assert_eq!(http_port_from_env(None), None);
    assert_eq!(http_port(Some("80")), 80);
    assert_eq!(http_port(Some("x")), 39539);
    assert_eq!(http_port(None), 39539);
}
