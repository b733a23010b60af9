use e_voice::config::{AppConfig, Backend};
use e_voice::llm_backend::{
    from_config, is_healthy, is_reachable, ollama_keep_alive, BackendError, HttpFailure, HttpRequest,
    LlmBackend, LmStudioBackend, Method, OllamaBackend,
};
use serde_json::Value;

fn failure(timeout: bool, status: bool) -> HttpFailure {
    HttpFailure {
        timeout,
        status,
        message: "it failed".to_owned(),
    }
}

fn body(request: &HttpRequest) -> Value {
    let body = request.body.as_ref().expect("request should have a body");
    serde_json::from_str(body).expect("body should be valid JSON")
}

#[test]
fn test_ollama_backend_keep_alive_mapping() {
    assert_eq!(ollama_keep_alive(60), "60s");
    assert_eq!(ollama_keep_alive(0), "0s");
    assert_eq!(ollama_keep_alive(-1), "-1");
}

#[test]
fn keep_alive_of_other_numbers() {
    assert_eq!(ollama_keep_alive(-2), "-2s");
    assert_eq!(ollama_keep_alive(i64::MAX), "9223372036854775807s");
    assert_eq!(ollama_keep_alive(i64::MIN), "-9223372036854775808s");
}

#[test]
fn test_ollama_backend_process_sends_correct_payload() {
    let backend = OllamaBackend::new("http://127.0.0.1:11434/");
    let request = backend.process("llama3.2:1b", "test prompt", 60);
    assert_eq!(request.method, Method::Post);
    assert_eq!(request.url, "http://127.0.0.1:11434/api/generate");
    let parsed = body(&request);
    assert_eq!(parsed["model"], "llama3.2:1b");
    assert_eq!(parsed["prompt"], "test prompt");
    assert_eq!(parsed["stream"], false);
    assert_eq!(parsed["keep_alive"], "60s");

    let result = backend
        .generated(Ok("cleaned text".to_owned()))
        .expect("process should succeed");
    assert_eq!(result, "cleaned text");
}

#[test]
fn payloads_are_escaped() {
    let backend = OllamaBackend::new("http://h");
    let request = backend.process("m", "say \"hi\"\nto \\ all\u{1}", 0);
    assert_eq!(
        request.body.as_deref(),
        Some(
            r#"{"model":"m","prompt":"say \"hi\"\nto \\ all\u0001","stream":false,"keep_alive":"0s"}"#
        )
    );
}

#[test]
fn ollama_is_asked_for_its_models() {
    let backend = OllamaBackend::new("http://h//");
    let request = backend.list_models();
    assert_eq!(request.method, Method::Get);
    assert_eq!(request.url, "http://h/api/tags");
    assert!(request.body.is_none());
}

#[test]
fn test_ollama_backend_unload_hits_api_generate() {
    let backend = OllamaBackend::new("http://h");
    let request = backend.unload_model("llama3.2:1b");
    assert_eq!(request.url, "http://h/api/generate");
    let parsed = body(&request);
    assert_eq!(parsed["model"], "llama3.2:1b");
    assert_eq!(parsed["keep_alive"], "0");
    assert!(backend.load_model("llama3.2:1b").is_none());
}

#[test]
fn test_ollama_health_check_returns_true_on_200() {
    let backend = OllamaBackend::new("http://h");
    assert_eq!(backend.health_check().url, "http://h/api/tags");
    assert!(is_healthy(&Ok(200)));
}

#[test]
fn test_ollama_health_check_returns_false_on_timeout() {
    assert!(!is_healthy(&Err(failure(true, false))));
    assert!(!is_healthy(&Err(failure(false, false))));
    assert!(!is_healthy(&Ok(199)));
    assert!(!is_healthy(&Ok(204)));
    assert!(!is_healthy(&Ok(300)));
    assert!(!is_healthy(&Ok(500)));
}

#[test]
fn test_lm_studio_backend_process_sends_correct_payload() {
    let backend = LmStudioBackend::new("http://h");
    let request = backend.process("my-model", "test prompt", 60);
    assert_eq!(request.method, Method::Post);
    assert_eq!(request.url, "http://h/v1/completions");
    let parsed = body(&request);
    assert_eq!(parsed["model"], "my-model");
    assert_eq!(parsed["prompt"], "test prompt");
    assert_eq!(parsed["stream"], false);
    assert_eq!(parsed["ttl"], 60);

    let result = backend
        .generated(Ok(vec!["lm studio output".to_owned()]))
        .expect("process should succeed");
    assert_eq!(result, "lm studio output");
}

#[test]
fn test_lm_studio_backend_unload_calls_delete_endpoint() {
    let backend = LmStudioBackend::new("http://h/");
    let request = backend.unload_model("my-model");
    assert_eq!(request.method, Method::Delete);
    assert_eq!(request.url, "http://h/v1/models/my-model");
    assert!(request.body.is_none());
}

#[test]
fn lm_studio_loads_models() {
    let backend = LmStudioBackend::new("http://h");
    let request = backend.load_model("my-model").expect("there is a request");
    assert_eq!(request.url, "http://h/v1/models/load");
    assert_eq!(request.body.as_deref(), Some(r#"{"identifier":"my-model"}"#));
}

#[test]
fn test_lm_studio_health_check_returns_true_on_200() {
    let backend = LmStudioBackend::new("http://h");
    assert_eq!(backend.health_check().url, "http://h/v1/models");
    assert!(is_healthy(&Ok(200)));
}

#[test]
fn test_lm_studio_health_check_returns_false_on_timeout() {
    assert!(!is_healthy(&Err(failure(true, false))));
}

#[test]
fn test_keep_alive_secs_60_maps_to_ollama_60s() {
    let request = OllamaBackend::new("http://h").process("llama3.2:1b", "prompt", 60);
    assert_eq!(body(&request)["keep_alive"], "60s");
}

#[test]
fn test_keep_alive_secs_60_maps_to_lm_studio_ttl_60() {
    let request = LmStudioBackend::new("http://h").process("my-model", "prompt", 60);
    assert_eq!(body(&request)["ttl"], 60);
    let request = LmStudioBackend::new("http://h").process("my-model", "prompt", -1);
    assert_eq!(body(&request)["ttl"], -1);
}

#[test]
fn test_health_check_returns_false_on_silent_server() {
    let silent: Result<u16, HttpFailure> = Err(failure(true, false));
    assert!(!is_healthy(&silent));
}

#[test]
fn generated_text_is_trimmed() {
    let ollama = OllamaBackend::new("http://h");
    assert_eq!(
        ollama.generated(Ok(" \n text \u{3000}".to_owned())).unwrap(),
        "text"
    );
    assert!(matches!(
        ollama.generated(Ok(" \u{a0}\n".to_owned())),
        Err(BackendError::EmptyResponse)
    ));
    let lm_studio = LmStudioBackend::new("http://h");
    assert!(matches!(
        lm_studio.generated(Ok(Vec::new())),
        Err(BackendError::EmptyResponse)
    ));
    assert_eq!(
        lm_studio
            .generated(Ok(vec![" one ".to_owned(), "two".to_owned()]))
            .unwrap(),
        "one"
    );
}

#[test]
fn errors_are_classified() {
    let kind = |timeout, status| BackendError::HttpClient(failure(timeout, status)).kind();
    assert_eq!(kind(true, false), "backend_timeout");
    assert_eq!(kind(true, true), "backend_timeout");
    assert_eq!(kind(false, true), "backend_http_error");
    assert_eq!(kind(false, false), "backend_transport_error");
    let ollama = OllamaBackend::new("http://h");
    let err = ollama.generated(Err(failure(false, true))).unwrap_err();
    assert_eq!(err.message(), "http client error: it failed");
    assert_eq!(
        BackendError::EmptyResponse.message(),
        "empty response from backend"
    );
}

#[test]
fn configuration_names_the_backend() {
    let mut config = AppConfig::default();
    let backend = from_config(&config);
    assert!(matches!(backend, LlmBackend::Ollama(_)));
    assert_eq!(
        backend.process("m", "p", 1).url,
        "http://localhost:11434/api/generate"
    );
    assert!(backend.load_model("m").is_none());
    assert_eq!(backend.unload_model("m").method, Method::Post);
    config.llm.backend = Backend::LmStudio;
    let backend = from_config(&config);
    assert_eq!(
        backend.list_models().url,
        "http://localhost:11434/v1/models"
    );
    assert_eq!(backend.health_check().url, backend.list_models().url);
    assert!(backend.load_model("m").is_some());
    assert_eq!(backend.unload_model("m").method, Method::Delete);
}

#[test]
fn any_success_shows_that_a_server_is_there() {
    assert!(is_reachable(&Ok(200)));
    assert!(is_reachable(&Ok(299)));
    assert!(!is_reachable(&Ok(199)));
    assert!(!is_reachable(&Ok(300)));
    assert!(!is_reachable(&Err(failure(true, false))));
}
