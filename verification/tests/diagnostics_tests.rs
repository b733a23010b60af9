use e_voice::config::{AppConfig, Backend, LlmConfig};
use e_voice::daemon::Response;
use e_voice::diagnostics::{
    configured_models, run, CheckResult, CheckStatus, Diagnosis, Finding, Stage,
};
use e_voice::transport::DaemonTransportError;

fn test_config(ollama_url: &str, model: &str) -> AppConfig {
    AppConfig {
        llm: LlmConfig {
            backend: Backend::Ollama,
            url: ollama_url.to_owned(),
            model: model.to_owned(),
            keep_alive_secs: 300,
        },
    }
}

fn status() -> Response {
    Response::Status {
        mode: "clean".to_owned(),
        model: "llama3.2:1b".to_owned(),
        version: "0.1.0".to_owned(),
        profile: "universal_interpreter".to_owned(),
    }
}

fn names(models: &[&str]) -> Result<Vec<String>, String> {
    Ok(models.iter().map(|m| m.to_string()).collect())
}

/// A run on these findings, for as long as it takes them.
fn diagnose(findings: Vec<Finding>) -> Diagnosis {
    let config = test_config("http://h:1/", "llama3.2:1b");
    let mut diagnosis = Diagnosis::start(&config, "/tmp/doctor.sock");
    for finding in findings {
        run(&mut diagnosis, finding);
    }
    diagnosis
}

fn fails(results: &[CheckResult]) -> Vec<&str> {
    results
        .iter()
        .filter(|r| r.status == CheckStatus::Fail)
        .map(|r| r.message.as_str())
        .collect()
}

#[test]
fn missing_socket_produces_single_fail_result() {
    let d = diagnose(vec![
        Finding::Socket(false),
        Finding::Daemon(Ok(status())),
        Finding::Ollama(false),
    ]);
    assert_eq!(
        fails(&d.results),
        ["daemon socket missing: /tmp/doctor.sock"],
        "only the missing socket should fail"
    );
    assert_eq!(d.stage, Stage::Done);
}

#[test]
fn unreachable_daemon_produces_fail_result() {
    let refused = DaemonTransportError::Io("refused".to_owned());
    let d = diagnose(vec![Finding::Socket(true), Finding::Daemon(Err(refused))]);
    assert_eq!(
        fails(&d.results),
        ["daemon unreachable: io error: refused"]
    );
    assert_eq!(d.stage, Stage::Ollama);
}

#[test]
fn unreachable_ollama_produces_fail_result() {
    let d = diagnose(vec![
        Finding::Socket(true),
        Finding::Daemon(Ok(status())),
        Finding::Ollama(false),
    ]);
    assert_eq!(
        fails(&d.results),
        ["ollama unreachable: health check failed"]
    );
    assert_eq!(d.stage, Stage::Done);
}

fn up_to_tags() -> Vec<Finding> {
    vec![
        Finding::Socket(true),
        Finding::Daemon(Ok(status())),
        Finding::Ollama(true),
        Finding::Client(Ok(())),
    ]
}

#[test]
fn missing_model_produces_fail_result() {
    let mut findings = up_to_tags();
    findings.push(Finding::Tags(Ok(200)));
    findings.push(Finding::Models(names(&["different-model"])));
    let d = diagnose(findings);
    assert_eq!(
        fails(&d.results),
        ["missing models in ollama: llama3.2:1b"]
    );
}

#[test]
fn all_checks_pass_without_failures() {
    let mut findings = up_to_tags();
    findings.push(Finding::Tags(Ok(200)));
    findings.push(Finding::Models(names(&["b", "llama3.2:1b", "b"])));
    let d = diagnose(findings);
    assert!(fails(&d.results).is_empty());
    assert_eq!(d.stage, Stage::Done);
    let messages: Vec<&str> = d.results.iter().map(|r| r.message.as_str()).collect();
    assert_eq!(
        messages,
        [
            "llm url: http://h:1/",
            "configured models: llama3.2:1b",
            "daemon socket exists: /tmp/doctor.sock",
            "daemon reachable: version=0.1.0",
            "ollama reachable: 2 models available",
            "configured models available in ollama",
        ]
    );
    assert_eq!(d.results[0].status, CheckStatus::Info);
    assert_eq!(d.tags_url, "http://h:1/api/tags");
}

#[test]
fn daemon_answers_that_are_no_status_fail() {
    let answered = |response| {
        let d = diagnose(vec![Finding::Socket(true), Finding::Daemon(Ok(response))]);
        fails(&d.results)[0].to_owned()
    };
    assert_eq!(
        answered(Response::Error("locked".to_owned())),
        "daemon error response: locked"
    );
    assert_eq!(
        answered(Response::Text("a\"b".to_owned())),
        "unexpected daemon response: Text(\"a\\\"b\")"
    );
}

#[test]
fn model_server_failures_are_reported() {
    let failed = |finding| {
        let mut findings = up_to_tags();
        findings.push(finding);
        let d = diagnose(findings);
        assert_eq!(d.stage, Stage::Done);
        fails(&d.results)[0].to_owned()
    };
    assert_eq!(
        failed(Finding::Tags(Ok(404))),
        "ollama tags endpoint returned status 404 Not Found"
    );
    assert_eq!(
        failed(Finding::Tags(Ok(599))),
        "ollama tags endpoint returned status 599 <unknown status code>"
    );
    assert_eq!(
        failed(Finding::Tags(Err("reset".to_owned()))),
        "ollama unreachable: reset"
    );
    let mut findings = up_to_tags();
    findings.pop();
    findings.push(Finding::Client(Err("no tls".to_owned())));
    let d = diagnose(findings);
    assert_eq!(
        fails(&d.results),
        ["ollama unreachable: cannot initialize HTTP client: no tls"]
    );
    let mut findings = up_to_tags();
    findings.push(Finding::Tags(Ok(200)));
    findings.push(Finding::Models(Err("eof".to_owned())));
    assert_eq!(
        fails(&diagnose(findings).results),
        ["ollama tags parse failed: eof"]
    );
}

#[test]
fn findings_out_of_turn_are_passed_over() {
    let d = diagnose(vec![Finding::Ollama(false), Finding::Tags(Ok(500))]);
    assert_eq!(d.stage, Stage::Socket);
    assert_eq!(d.results.len(), 2);
}

#[test]
fn one_model_is_configured() {
    assert_eq!(configured_models(&test_config("u", "m")), ["m"]);
}
