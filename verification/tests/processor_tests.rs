use e_voice::llm_backend::{BackendError, HttpFailure, LlmBackend, OllamaBackend};
use e_voice::modes::{Mode, Profile};
use e_voice::processor::TextProcessor;

fn processor(default_model: &str) -> TextProcessor {
    let backend = LlmBackend::Ollama(OllamaBackend::new("http://h"));
    TextProcessor::with_backend(backend, default_model, 300)
}

#[test]
fn test_processor_calls_backend_process() {
    let processor = processor("test-model");
    let call = processor.process_inner("raw input", None, &Profile::default());
    assert_eq!(call.model, "test-model");
    assert_eq!(call.prompt, Mode::Clean.prompt_template("raw input"));
    assert_eq!(call.keep_alive_secs, 300);
    let request = processor.request(&call);
    assert_eq!(request.url, "http://h/api/generate");
    let result = processor.process("raw input", Ok("processed output".to_owned()));
    assert_eq!(result, "processed output");
}

#[test]
fn test_processor_fallback_on_empty_response() {
    let processor = processor("test-model");
    let raw = "raw input text";
    let result = processor.process(raw, Err(BackendError::EmptyResponse));
    // Backend error → fallback to raw input.
    assert_eq!(result, raw);
}

#[test]
fn processor_falls_back_on_any_failure() {
    let processor = processor("test-model");
    let failure = BackendError::HttpClient(HttpFailure {
        timeout: true,
        status: false,
        message: "slow".to_owned(),
    });
    assert_eq!(processor.process("raw", Err(failure)), "raw");
    assert_eq!(processor.process("raw", Ok(" \t\n".to_owned())), "raw");
    assert_eq!(processor.process("raw", Ok(" out ".to_owned())), " out ");
}

#[test]
fn test_processor_override_model_is_forwarded_to_backend() {
    let processor = processor("default-model");
    let call = processor.process_inner("raw input", Some("override-model"), &Profile::default());
    assert_eq!(call.model, "override-model");
    assert!(processor
        .request(&call)
        .body
        .unwrap()
        .starts_with(r#"{"model":"override-model","prompt":"#));
    let result = processor.process("raw input", Ok("output".to_owned()));
    assert_eq!(result, "output");
    assert_eq!(processor.config_model(), "default-model");
}

#[test]
fn classifies_empty_response_error_kind() {
    let err = BackendError::EmptyResponse;
    assert_eq!(err.kind(), "empty_model_response");
}

#[test]
fn processor_lists_the_backends_models() {
    assert_eq!(processor("m").list_models().url, "http://h/api/tags");
}
