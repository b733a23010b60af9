//! From dictated text to the text that is typed.
use crate::config::AppConfig;
use crate::llm_backend::{from_config, BackendError, HttpRequest, LlmBackend};
use crate::modes;
use crate::modes::{Profile, ProfileView};
use crate::strings;
use crate::text;
use vstd::prelude::*;
use vstd::string::*;

verus! {

/// Builds prompts for a backend and decides what becomes of its answers.
#[derive(Debug)]
pub struct TextProcessor {
    pub backend: LlmBackend,
    pub default_model: String,
    pub keep_alive_secs: i64,
}

/// What the backend is asked to do.
#[derive(Debug)]
pub struct BackendCall {
    pub model: String,
    pub prompt: String,
    pub keep_alive_secs: i64,
}

/// What is typed: the processed text, or the dictated text if the backend failed
/// or returned nothing but white space.
pub open spec fn typed_text(
    raw_text: Seq<char>,
    outcome: Result<String, BackendError>,
) -> Seq<char> {
    match outcome {
        Ok(output) => if text::blank(output@) {
            raw_text
        } else {
            output@
        },
        Err(_) => raw_text,
    }
}

impl Clone for TextProcessor {
    fn clone(&self) -> (res: Self)
        ensures
            res == *self,
    {
        TextProcessor {
            backend: self.backend.clone(),
            default_model: self.default_model.clone(),
            keep_alive_secs: self.keep_alive_secs,
        }
    }
}

impl TextProcessor {
    /// The processor uses what the configuration names.
    pub open spec fn is_for(self, config: AppConfig) -> bool {
        &&& self.backend.server() == (config.llm.backend, config.llm.url@)
        &&& self.default_model@ == config.llm.model@
        &&& self.keep_alive_secs == config.llm.keep_alive_secs
    }

    /// What the backend is asked to do with a dictated text.
    pub open spec fn is_call_for(
        self,
        raw_text: Seq<char>,
        override_model: Option<Seq<char>>,
        profile: ProfileView,
        call: BackendCall,
    ) -> bool {
        &&& call.model@ == self.model_for(override_model)
        &&& call.prompt@ == modes::prompt(raw_text + profile.instruction())
        &&& call.keep_alive_secs == self.keep_alive_secs
    }

    /// The processor for a configuration.
    pub fn new(config: AppConfig) -> (res: TextProcessor)
        ensures
            res.backend.server() == (config.llm.backend, config.llm.url@),
            res.default_model@ == config.llm.model@,
            res.keep_alive_secs == config.llm.keep_alive_secs,
            res.is_for(config),
    {
        TextProcessor {
            backend: from_config(&config),
            default_model: config.llm.model.clone(),
            keep_alive_secs: config.llm.keep_alive_secs,
        }
    }

    /// The processor for a given backend.
    pub fn with_backend(
        backend: LlmBackend,
        default_model: &str,
        keep_alive_secs: i64,
    ) -> (res: TextProcessor)
        ensures
            res.backend == backend,
            res.default_model@ == default_model@,
            res.keep_alive_secs == keep_alive_secs,
    {
        TextProcessor { backend, default_model: default_model.to_owned(), keep_alive_secs }
    }

    /// The model of the configuration.
    pub fn config_model(&self) -> (res: &str)
        ensures
            res@ == self.default_model@,
    {
        self.default_model.as_str()
    }

    /// The request for the names of the backend's models.
    pub fn list_models(&self) -> (res: HttpRequest)
        ensures
            res@ == self.backend.list_request(),
    {
        self.backend.list_models()
    }

    /// The model that is used: the override, if there is one.
    pub open spec fn model_for(self, override_model: Option<Seq<char>>) -> Seq<char> {
        match override_model {
            Some(model) => model,
            None => self.default_model@,
        }
    }

    /// What the backend is asked to do with a dictated text.
    pub fn process_inner(
        &self,
        raw_text: &str,
        override_model: Option<&str>,
        profile: &Profile,
    ) -> (res: BackendCall)
        ensures
            res.model@ == self.model_for(text::opt_text(override_model)),
            res.prompt@ == modes::prompt(raw_text@ + profile@.instruction()),
            res.keep_alive_secs == self.keep_alive_secs,
            self.is_call_for(raw_text@, text::opt_text(override_model), profile@, res),
    {
        let model = match override_model {
            Some(model) => model.to_owned(),
            None => self.default_model.clone(),
        };
        BackendCall {
            model,
            prompt: profile.prompt_for(raw_text),
            keep_alive_secs: self.keep_alive_secs,
        }
    }

    /// The HTTP request that carries a call to the backend.
    pub fn request(&self, call: &BackendCall) -> (res: HttpRequest)
        ensures
            res@ == self.backend.process_request(call.model@, call.prompt@, call.keep_alive_secs),
    {
        self.backend.process(call.model.as_str(), call.prompt.as_str(), call.keep_alive_secs)
    }

    /// What is typed for a dictated text, given what became of the call to the
    /// backend.
    pub fn process(&self, raw_text: &str, outcome: Result<String, BackendError>) -> (res: String)
        ensures
            res@ == typed_text(raw_text@, outcome),
    {
        match outcome {
            Ok(output) => if strings::is_blank(output.as_str()) {
                raw_text.to_owned()
            } else {
                output
            },
            Err(_) => raw_text.to_owned(),
        }
    }
}

// ─── Laws ────────────────────────────────────────────────────────────────────

/// Dictated text is never lost: whatever the backend does, something is typed for
/// a text that is not blank, and it is the dictated text if the backend failed.
pub proof fn law_text_is_never_lost(raw_text: Seq<char>, outcome: Result<String, BackendError>)
    requires
        !text::blank(raw_text),
    ensures
        !text::blank(typed_text(raw_text, outcome)),
        outcome is Err ==> typed_text(raw_text, outcome) == raw_text,
{
}

/// What the backend made of a dictated text is what is typed, character by character,
/// whatever was dictated, as long as there is something other than white space in it.
pub proof fn law_output_is_typed(raw_text: Seq<char>, output: String)
    requires
        exists|i: int| 0 <= i < output@.len() && !text::white_space(#[trigger] output@[i]),
    ensures
        typed_text(raw_text, Ok(output)) == output@,
{
}

/// The dictated text is typed as it is, character by character, if the backend failed,
/// in whatever way, or wrote nothing but white space.
pub proof fn law_dictation_is_the_fallback(
    raw_text: Seq<char>,
    outcome: Result<String, BackendError>,
)
    requires
        match outcome {
            Ok(output) => forall|i: int|
                0 <= i < output@.len() ==> text::white_space(#[trigger] output@[i]),
            Err(_) => true,
        },
    ensures
        typed_text(raw_text, outcome) == raw_text,
{
}

/// What is dictated has no influence on what is typed if the backend answered.
pub proof fn law_output_alone_counts(a: Seq<char>, b: Seq<char>, output: String)
    requires
        typed_text(a, Ok(output)) != typed_text(b, Ok(output)),
    ensures
        typed_text(a, Ok(output)) == a,
        typed_text(b, Ok(output)) == b,
        text::trim(output@).len() == 0,
{
    text::lemma_trim_blank(output@);
}

/// A model that is chosen at run time is used in place of the configured one, and the
/// configured one if none is chosen.
pub proof fn law_chosen_model_is_used(processor: TextProcessor, model: Seq<char>)
    ensures
        processor.model_for(Some(model)) == model,
        processor.model_for(None) == processor.default_model@,
{
}

/// What a backend is asked to do follows the configuration: the configured server and
/// model, for the configured time, unless another model was chosen.
pub proof fn law_configuration_is_followed(
    processor: TextProcessor,
    config: AppConfig,
    raw_text: Seq<char>,
    model: Seq<char>,
    profile: ProfileView,
    usual: BackendCall,
    chosen: BackendCall,
)
    requires
        processor.is_for(config),
        processor.is_call_for(raw_text, None, profile, usual),
        processor.is_call_for(raw_text, Some(model), profile, chosen),
    ensures
        processor.backend.server() == (config.llm.backend, config.llm.url@),
        usual.model@ == config.llm.model@,
        chosen.model@ == model,
        usual.keep_alive_secs == config.llm.keep_alive_secs,
        chosen.keep_alive_secs == config.llm.keep_alive_secs,
        usual.prompt@ == chosen.prompt@,
        text::contains(usual.prompt@, raw_text + profile.instruction()),
{
    text::law_parts_are_found(
        modes::CLEAN_INSTRUCTION@ + modes::INPUT_HEAD@,
        raw_text + profile.instruction(),
        modes::INPUT_TAIL@,
    );
}

} // verus!
