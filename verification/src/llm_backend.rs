//! The HTTP interfaces of the language model servers.
//!
//! Each backend says which HTTP request to send for an operation and what the
//! answer to it means.
use crate::config::{AppConfig, Backend};
use crate::json;
use crate::json::JsonObject;
use crate::json_reader;
use crate::json_reader::{Field, JsonValue};
use crate::strings;
use crate::text;
use vstd::prelude::*;
use vstd::string::*;

verus! {

/// Seconds after which a request to a backend is given up.
pub const BACKEND_TIMEOUT_SECS: u64 = 10;

// ─── Errors ──────────────────────────────────────────────────────────────────

/// An HTTP request that failed.
#[derive(Debug)]
pub struct HttpFailure {
    /// The server took too long.
    pub timeout: bool,
    /// The server answered with an error status.
    pub status: bool,
    /// The failure in words.
    pub message: String,
}

/// A request to a backend that gave no text.
#[derive(Debug)]
pub enum BackendError {
    HttpClient(HttpFailure),
    EmptyResponse,
}

impl BackendError {
    /// The class of the error.
    pub open spec fn kind_of(self) -> Seq<char> {
        match self {
            BackendError::HttpClient(failure) => if failure.timeout {
                "backend_timeout"@
            } else if failure.status {
                "backend_http_error"@
            } else {
                "backend_transport_error"@
            },
            BackendError::EmptyResponse => "empty_model_response"@,
        }
    }

    /// The class of the error.
    pub fn kind(&self) -> (res: &'static str)
        ensures
            res@ == self.kind_of(),
    {
        match self {
            BackendError::HttpClient(failure) => if failure.timeout {
                "backend_timeout"
            } else if failure.status {
                "backend_http_error"
            } else {
                "backend_transport_error"
            },
            BackendError::EmptyResponse => "empty_model_response",
        }
    }

    /// The error in words.
    pub open spec fn message_of(self) -> Seq<char> {
        match self {
            BackendError::HttpClient(failure) => "http client error: "@ + failure.message@,
            BackendError::EmptyResponse => "empty response from backend"@,
        }
    }

    /// The error in words.
    pub fn message(&self) -> (res: String)
        ensures
            res@ == self.message_of(),
    {
        match self {
            BackendError::HttpClient(failure) => {
                let mut res = "http client error: ".to_owned();
                res.append(failure.message.as_str());
                res
            },
            BackendError::EmptyResponse => "empty response from backend".to_owned(),
        }
    }
}

// ─── HTTP requests ───────────────────────────────────────────────────────────

/// The method of an HTTP request.
#[derive(Debug, Clone, Copy, PartialEq, Eq, Structural)]
pub enum Method {
    Get,
    Post,
    Delete,
}

/// An HTTP request, with a JSON text as its body if it has one.
#[derive(Debug)]
pub struct HttpRequest {
    pub method: Method,
    pub url: String,
    pub body: Option<String>,
}

/// What an [`HttpRequest`] holds.
pub struct HttpRequestView {
    pub method: Method,
    pub url: Seq<char>,
    pub body: Option<Seq<char>>,
}

impl View for HttpRequest {
    type V = HttpRequestView;

    open spec fn view(&self) -> HttpRequestView {
        HttpRequestView {
            method: self.method,
            url: self.url@,
            body: match self.body {
                Some(b) => Some(b@),
                None => None,
            },
        }
    }
}

/// An address below the one that a server was configured with.
pub open spec fn endpoint_of(url: Seq<char>, path: Seq<char>) -> Seq<char> {
    text::trim_end_matches(url, '/') + path
}

/// An address below the one that a server was configured with. Slashes at the end
/// of the configured one do not count.
pub fn endpoint(url: &str, path: &str) -> (res: String)
    ensures
        res@ == endpoint_of(url@, path@),
{
    let mut res = strings::trim_end_matches(url, '/');
    res.append(path);
    res
}

/// Whether a status says that the request succeeded.
pub fn is_success(status: u16) -> (res: bool)
    ensures
        res == (200 <= status < 300),
{
    200 <= status && status < 300
}

/// A request was answered with success.
pub open spec fn reachable(answer: Result<u16, HttpFailure>) -> bool {
    answer matches Ok(status) && 200 <= status < 300
}

/// A health check was answered with the status that says so.
pub open spec fn healthy(answer: Result<u16, HttpFailure>) -> bool {
    answer matches Ok(status) && status == 200
}

/// Whether a request was answered with success. No answer in time is none.
pub fn is_reachable(answer: &Result<u16, HttpFailure>) -> (res: bool)
    ensures
        res == (answer matches Ok(status) && 200 <= *status < 300),
        res == reachable(*answer),
{
    match answer {
        Ok(status) => is_success(*status),
        Err(_) => false,
    }
}

/// Whether a server is healthy, given the status of its answer to a health check, if
/// one came in time: it is if the status is 200.
pub fn is_healthy(answer: &Result<u16, HttpFailure>) -> (res: bool)
    ensures
        res == (answer matches Ok(status) && *status == 200),
        res == healthy(*answer),
{
    match answer {
        Ok(status) => *status == 200,
        Err(_) => false,
    }
}

/// The text that a server generated, without white space around it.
pub open spec fn accepted(
    answer: Result<Seq<char>, HttpFailure>,
    res: Result<String, BackendError>,
) -> bool {
    match answer {
        Ok(generated) => if text::blank(generated) {
            res matches Err(BackendError::EmptyResponse)
        } else {
            res matches Ok(r) && r@ == text::trim(generated)
        },
        Err(failure) => res == Err::<String, BackendError>(BackendError::HttpClient(failure)),
    }
}

/// The generated text, without white space around it, or an error if there is
/// nothing else.
fn accept(generated: &str) -> (res: Result<String, BackendError>)
    ensures
        accepted(Ok(generated@), res),
{
    let trimmed = strings::trim(generated);
    proof {
        text::lemma_trim_blank(generated@);
    }
    if trimmed.as_str().is_empty() {
        Err(BackendError::EmptyResponse)
    } else {
        Ok(trimmed)
    }
}

// ─── Ollama ──────────────────────────────────────────────────────────────────

/// How Ollama wants to be told for how long a model stays loaded.
pub open spec fn keep_alive_of(secs: i64) -> Seq<char> {
    if secs == -1 {
        "-1"@
    } else {
        text::signed_decimal(secs as int) + "s"@
    }
}

/// Converts seconds to Ollama's `keep_alive`: `-1` means forever, and any other
/// number is followed by the unit.
pub fn ollama_keep_alive(secs: i64) -> (res: String)
    ensures
        res@ == keep_alive_of(secs),
{
    if secs == -1 {
        "-1".to_owned()
    } else {
        let mut res = strings::signed_decimal(secs);
        res.append("s");
        res
    }
}

/// An Ollama server.
#[derive(Debug)]
pub struct OllamaBackend {
    pub url: String,
}

/// The members of the body of a request to generate text.
pub open spec fn ollama_generate_members(
    model: Seq<char>,
    prompt: Seq<char>,
    keep_alive_secs: i64,
) -> Seq<Seq<char>> {
    seq![
            json::member_text("model"@, json::json_text(model)),
            json::member_text("prompt"@, json::json_text(prompt)),
            json::member_text("stream"@, "false"@),
            json::member_text("keep_alive"@, json::json_text(keep_alive_of(keep_alive_secs))),
        ]
}

/// The body of a request to generate text.
pub open spec fn ollama_generate_body(
    model: Seq<char>,
    prompt: Seq<char>,
    keep_alive_secs: i64,
) -> Seq<char> {
    json::object_text(ollama_generate_members(model, prompt, keep_alive_secs))
}

/// The members of the body of a request to unload a model.
pub open spec fn ollama_unload_members(model: Seq<char>) -> Seq<Seq<char>> {
    seq![
            json::member_text("model"@, json::json_text(model)),
            json::member_text("keep_alive"@, "\"0\""@),
        ]
}

/// The body of a request to unload a model.
pub open spec fn ollama_unload_body(model: Seq<char>) -> Seq<char> {
    json::object_text(ollama_unload_members(model))
}

impl OllamaBackend {
    /// The server at `url`.
    pub fn new(url: &str) -> (res: Self)
        ensures
            res.url@ == url@,
    {
        OllamaBackend { url: url.to_owned() }
    }

    /// The address of the server without slashes at its end.
    pub fn base_url(&self) -> (res: String)
        ensures
            res@ == text::trim_end_matches(self.url@, '/'),
    {
        strings::trim_end_matches(self.url.as_str(), '/')
    }

    /// Loading a model: nothing to send, since Ollama loads models on demand.
    pub fn load_model(&self, model: &str) -> (res: Option<HttpRequest>)
        ensures
            res is None,
    {
        None
    }

    /// The request to generate text for a prompt.
    pub fn process(&self, model: &str, prompt: &str, keep_alive_secs: i64) -> (res: HttpRequest)
        ensures
            res@ == (HttpRequestView {
                method: Method::Post,
                url: endpoint_of(self.url@, "/api/generate"@),
                body: Some(ollama_generate_body(model@, prompt@, keep_alive_secs)),
            }),
    {
        let object = JsonObject::new().with_str("model", model).with_str("prompt", prompt).with(
            "stream",
            "false",
        ).with_str("keep_alive", ollama_keep_alive(keep_alive_secs).as_str());
        assert(object@ =~= ollama_generate_members(model@, prompt@, keep_alive_secs));
        let body = object.text();
        HttpRequest {
            method: Method::Post,
            url: endpoint(self.url.as_str(), "/api/generate"),
            body: Some(body),
        }
    }

    /// What the answer to a request to generate text means. `answer` is the
    /// `response` field of the body.
    pub fn generated(&self, answer: Result<String, HttpFailure>) -> (res: Result<
        String,
        BackendError,
    >)
        ensures
            accepted(
                match answer {
                    Ok(t) => Ok(t@),
                    Err(e) => Err(e),
                },
                res,
            ),
    {
        match answer {
            Ok(generated) => accept(generated.as_str()),
            Err(failure) => Err(BackendError::HttpClient(failure)),
        }
    }

    /// The request to unload a model: one to generate nothing and keep the model
    /// for no time.
    pub fn unload_model(&self, model: &str) -> (res: HttpRequest)
        ensures
            res@ == (HttpRequestView {
                method: Method::Post,
                url: endpoint_of(self.url@, "/api/generate"@),
                body: Some(ollama_unload_body(model@)),
            }),
    {
        let object = JsonObject::new().with_str("model", model).with("keep_alive", "\"0\"");
        assert(object@ =~= ollama_unload_members(model@));
        let body = object.text();
        HttpRequest {
            method: Method::Post,
            url: endpoint(self.url.as_str(), "/api/generate"),
            body: Some(body),
        }
    }

    /// The request for the names of the models.
    pub fn list_models(&self) -> (res: HttpRequest)
        ensures
            res@ == (HttpRequestView {
                method: Method::Get,
                url: endpoint_of(self.url@, "/api/tags"@),
                body: None,
            }),
    {
        HttpRequest {
            method: Method::Get,
            url: endpoint(self.url.as_str(), "/api/tags"),
            body: None,
        }
    }

    /// The request whose answer shows whether the server is healthy: the one for the
    /// names of the models. [`is_healthy`] says what the answer means.
    pub fn health_check(&self) -> (res: HttpRequest)
        ensures
            res@ == (HttpRequestView {
                method: Method::Get,
                url: endpoint_of(self.url@, "/api/tags"@),
                body: None,
            }),
    {
        self.list_models()
    }
}

// ─── LM Studio ───────────────────────────────────────────────────────────────

/// An LM Studio server.
#[derive(Debug)]
pub struct LmStudioBackend {
    pub url: String,
}

/// The members of the body of a request to complete a prompt.
pub open spec fn lm_studio_completion_members(
    model: Seq<char>,
    prompt: Seq<char>,
    keep_alive_secs: i64,
) -> Seq<Seq<char>> {
    seq![
            json::member_text("model"@, json::json_text(model)),
            json::member_text("prompt"@, json::json_text(prompt)),
            json::member_text("stream"@, "false"@),
            json::member_text("ttl"@, text::signed_decimal(keep_alive_secs as int)),
        ]
}

/// The body of a request to complete a prompt.
pub open spec fn lm_studio_completion_body(
    model: Seq<char>,
    prompt: Seq<char>,
    keep_alive_secs: i64,
) -> Seq<char> {
    json::object_text(lm_studio_completion_members(model, prompt, keep_alive_secs))
}

/// The members of the body of a request to load a model.
pub open spec fn lm_studio_load_members(model: Seq<char>) -> Seq<Seq<char>> {
    seq![json::member_text("identifier"@, json::json_text(model))]
}

/// The body of a request to load a model.
pub open spec fn lm_studio_load_body(model: Seq<char>) -> Seq<char> {
    json::object_text(lm_studio_load_members(model))
}

/// The text of the first choice, and none if there is no choice.
pub open spec fn first_choice(answer: Result<Vec<String>, HttpFailure>) -> Result<
    Seq<char>,
    HttpFailure,
> {
    match answer {
        Ok(choices) => if choices@.len() > 0 {
            Ok(choices@[0]@)
        } else {
            Ok(Seq::empty())
        },
        Err(e) => Err(e),
    }
}

impl LmStudioBackend {
    /// The server at `url`.
    pub fn new(url: &str) -> (res: Self)
        ensures
            res.url@ == url@,
    {
        LmStudioBackend { url: url.to_owned() }
    }

    /// The address of the server without slashes at its end.
    pub fn base_url(&self) -> (res: String)
        ensures
            res@ == text::trim_end_matches(self.url@, '/'),
    {
        strings::trim_end_matches(self.url.as_str(), '/')
    }

    /// The request to load a model.
    pub fn load_model(&self, model: &str) -> (res: Option<HttpRequest>)
        ensures
            res matches Some(r) && r@ == (HttpRequestView {
                method: Method::Post,
                url: endpoint_of(self.url@, "/v1/models/load"@),
                body: Some(lm_studio_load_body(model@)),
            }),
    {
        let object = JsonObject::new().with_str("identifier", model);
        assert(object@ =~= lm_studio_load_members(model@));
        let body = object.text();
        Some(
            HttpRequest {
                method: Method::Post,
                url: endpoint(self.url.as_str(), "/v1/models/load"),
                body: Some(body),
            },
        )
    }

    /// The request to complete a prompt.
    pub fn process(&self, model: &str, prompt: &str, keep_alive_secs: i64) -> (res: HttpRequest)
        ensures
            res@ == (HttpRequestView {
                method: Method::Post,
                url: endpoint_of(self.url@, "/v1/completions"@),
                body: Some(lm_studio_completion_body(model@, prompt@, keep_alive_secs)),
            }),
    {
        let object = JsonObject::new().with_str("model", model).with_str("prompt", prompt).with(
            "stream",
            "false",
        ).with("ttl", strings::signed_decimal(keep_alive_secs).as_str());
        assert(object@ =~= lm_studio_completion_members(model@, prompt@, keep_alive_secs));
        let body = object.text();
        HttpRequest {
            method: Method::Post,
            url: endpoint(self.url.as_str(), "/v1/completions"),
            body: Some(body),
        }
    }

    /// What the answer to a request to complete a prompt means. `answer` are the
    /// texts of the choices in the body, of which the first counts.
    pub fn generated(&self, answer: Result<Vec<String>, HttpFailure>) -> (res: Result<
        String,
        BackendError,
    >)
        ensures
            accepted(
                match answer {
                    Ok(choices) => Ok(
                        if choices@.len() > 0 {
                            choices@[0]@
                        } else {
                            Seq::empty()
                        },
                    ),
                    Err(e) => Err(e),
                },
                res,
            ),
            accepted(first_choice(answer), res),
    {
        match answer {
            Ok(choices) => {
                if choices.len() > 0 {
                    accept(choices[0].as_str())
                } else {
                    Err(BackendError::EmptyResponse)
                }
            },
            Err(failure) => Err(BackendError::HttpClient(failure)),
        }
    }

    /// The request to unload a model.
    pub fn unload_model(&self, model: &str) -> (res: HttpRequest)
        ensures
            res@ == (HttpRequestView {
                method: Method::Delete,
                url: endpoint_of(self.url@, "/v1/models/"@ + model@),
                body: None,
            }),
    {
        let mut path = "/v1/models/".to_owned();
        path.append(model);
        HttpRequest {
            method: Method::Delete,
            url: endpoint(self.url.as_str(), path.as_str()),
            body: None,
        }
    }

    /// The request for the names of the models.
    pub fn list_models(&self) -> (res: HttpRequest)
        ensures
            res@ == (HttpRequestView {
                method: Method::Get,
                url: endpoint_of(self.url@, "/v1/models"@),
                body: None,
            }),
    {
        HttpRequest {
            method: Method::Get,
            url: endpoint(self.url.as_str(), "/v1/models"),
            body: None,
        }
    }

    /// The request whose answer shows whether the server is healthy: the one for the
    /// names of the models. [`is_healthy`] says what the answer means.
    pub fn health_check(&self) -> (res: HttpRequest)
        ensures
            res@ == (HttpRequestView {
                method: Method::Get,
                url: endpoint_of(self.url@, "/v1/models"@),
                body: None,
            }),
    {
        self.list_models()
    }
}

// ─── Either server ───────────────────────────────────────────────────────────

/// The language model server in use.
#[derive(Debug)]
pub enum LlmBackend {
    Ollama(OllamaBackend),
    LmStudio(LmStudioBackend),
}

impl LlmBackend {
    /// The kind of the server and the address it was configured with.
    pub open spec fn server(self) -> (Backend, Seq<char>) {
        match self {
            LlmBackend::Ollama(b) => (Backend::Ollama, b.url@),
            LlmBackend::LmStudio(b) => (Backend::LmStudio, b.url@),
        }
    }

    /// The request to generate text.
    pub open spec fn process_request(
        self,
        model: Seq<char>,
        prompt: Seq<char>,
        keep_alive_secs: i64,
    ) -> HttpRequestView {
        match self {
            LlmBackend::Ollama(b) => HttpRequestView {
                method: Method::Post,
                url: endpoint_of(b.url@, "/api/generate"@),
                body: Some(ollama_generate_body(model, prompt, keep_alive_secs)),
            },
            LlmBackend::LmStudio(b) => HttpRequestView {
                method: Method::Post,
                url: endpoint_of(b.url@, "/v1/completions"@),
                body: Some(lm_studio_completion_body(model, prompt, keep_alive_secs)),
            },
        }
    }

    /// The request for the names of the models.
    pub open spec fn list_request(self) -> HttpRequestView {
        HttpRequestView {
            method: Method::Get,
            url: match self {
                LlmBackend::Ollama(b) => endpoint_of(b.url@, "/api/tags"@),
                LlmBackend::LmStudio(b) => endpoint_of(b.url@, "/v1/models"@),
            },
            body: None,
        }
    }

    /// The request to load a model, if there is one: Ollama loads models on demand.
    pub open spec fn load_request(self, model: Seq<char>) -> Option<HttpRequestView> {
        match self {
            LlmBackend::Ollama(_) => None,
            LlmBackend::LmStudio(b) => Some(
                HttpRequestView {
                    method: Method::Post,
                    url: endpoint_of(b.url@, "/v1/models/load"@),
                    body: Some(lm_studio_load_body(model)),
                },
            ),
        }
    }

    /// The request to unload a model.
    pub open spec fn unload_request(self, model: Seq<char>) -> HttpRequestView {
        match self {
            LlmBackend::Ollama(b) => HttpRequestView {
                method: Method::Post,
                url: endpoint_of(b.url@, "/api/generate"@),
                body: Some(ollama_unload_body(model)),
            },
            LlmBackend::LmStudio(b) => HttpRequestView {
                method: Method::Delete,
                url: endpoint_of(b.url@, "/v1/models/"@ + model),
                body: None,
            },
        }
    }

    /// The request to load a model, if there is one.
    pub fn load_model(&self, model: &str) -> (res: Option<HttpRequest>)
        ensures
            match self.load_request(model@) {
                Some(r) => res matches Some(request) && request@ == r,
                None => res is None,
            },
    {
        match self {
            LlmBackend::Ollama(b) => b.load_model(model),
            LlmBackend::LmStudio(b) => b.load_model(model),
        }
    }

    /// The request to unload a model.
    pub fn unload_model(&self, model: &str) -> (res: HttpRequest)
        ensures
            res@ == self.unload_request(model@),
    {
        match self {
            LlmBackend::Ollama(b) => b.unload_model(model),
            LlmBackend::LmStudio(b) => b.unload_model(model),
        }
    }

    /// The request whose answer shows whether the server is healthy.
    pub fn health_check(&self) -> (res: HttpRequest)
        ensures
            res@ == self.list_request(),
    {
        match self {
            LlmBackend::Ollama(b) => b.health_check(),
            LlmBackend::LmStudio(b) => b.health_check(),
        }
    }

    /// The request to generate text.
    pub fn process(&self, model: &str, prompt: &str, keep_alive_secs: i64) -> (res: HttpRequest)
        ensures
            res@ == self.process_request(model@, prompt@, keep_alive_secs),
    {
        match self {
            LlmBackend::Ollama(b) => b.process(model, prompt, keep_alive_secs),
            LlmBackend::LmStudio(b) => b.process(model, prompt, keep_alive_secs),
        }
    }

    /// The request for the names of the models.
    pub fn list_models(&self) -> (res: HttpRequest)
        ensures
            res@ == self.list_request(),
    {
        match self {
            LlmBackend::Ollama(b) => b.list_models(),
            LlmBackend::LmStudio(b) => b.list_models(),
        }
    }
}

impl Clone for LlmBackend {
    fn clone(&self) -> (res: Self)
        ensures
            res == *self,
    {
        match self {
            LlmBackend::Ollama(b) => LlmBackend::Ollama(OllamaBackend { url: b.url.clone() }),
            LlmBackend::LmStudio(b) => LlmBackend::LmStudio(
                LmStudioBackend { url: b.url.clone() },
            ),
        }
    }
}

/// The server that the configuration names.
pub fn from_config(config: &AppConfig) -> (res: LlmBackend)
    ensures
        res.server() == (config.llm.backend, config.llm.url@),
{
    match config.llm.backend {
        Backend::Ollama => LlmBackend::Ollama(OllamaBackend::new(config.llm.url.as_str())),
        Backend::LmStudio => LlmBackend::LmStudio(LmStudioBackend::new(config.llm.url.as_str())),
    }
}

// ─── Laws ────────────────────────────────────────────────────────────────────

/// Slashes at the end of the configured address do not count, and nothing else of it is
/// lost.
pub proof fn law_slashes_do_not_count(url: Seq<char>, path: Seq<char>)
    ensures
        endpoint_of(url + "/"@, path) == endpoint_of(url, path),
        !(url.len() > 0 && url.last() == '/') ==> endpoint_of(url, path) == url + path,
{
    reveal_strlit("/");
    assert((url + "/"@).drop_last() =~= url);
    assert((url + "/"@).last() == '/');
}

/// A number of seconds is told with its unit, but for the one that means forever.
/// Different numbers are told differently.
pub proof fn law_keep_alive(a: i64, b: i64)
    ensures
        keep_alive_of(-1i64) == "-1"@,
        a != -1 ==> keep_alive_of(a) == text::signed_decimal(a as int) + "s"@,
        keep_alive_of(a) == keep_alive_of(b) ==> a == b,
{
    reveal_strlit("-1");
    reveal_strlit("s");
    let x = keep_alive_of(a);
    let y = keep_alive_of(b);
    if x == y {
        if a != -1 {
            assert(x.last() == 's');
            assert(x.drop_last() =~= text::signed_decimal(a as int));
        }
        if b != -1 {
            assert(y.last() == 's');
            assert(y.drop_last() =~= text::signed_decimal(b as int));
        }
        assert("-1"@.last() == '1');
        if a != -1 && b != -1 {
            text::law_signed_decimal_is_injective(a as int, b as int);
        }
    }
}

/// A generated text is accepted exactly if there is anything in it but white space. It
/// is handed on without the white space around it, and otherwise as it is.
pub proof fn law_generated_text_is_handed_on(
    generated: Seq<char>,
    res: Result<String, BackendError>,
)
    requires
        accepted(Ok(generated), res),
    ensures
        res is Ok <==> exists|i: int|
            0 <= i < generated.len() && !text::white_space(#[trigger] generated[i]),
        res is Err ==> res->Err_0 is EmptyResponse,
        res matches Ok(r) ==> {
            &&& exists|before: Seq<char>, after: Seq<char>|
                text::blank(before) && text::blank(after) && generated == #[trigger] (before + r@
                    + after)
            &&& r@.len() > 0 && !text::white_space(r@[0]) && !text::white_space(r@.last())
        },
{
    text::law_trim(generated);
    text::lemma_trim_blank(generated);
}

/// A request that failed is an error that holds the failure as it is.
pub proof fn law_failure_is_handed_on(failure: HttpFailure, res: Result<String, BackendError>)
    requires
        accepted(Err(failure), res),
    ensures
        res == Err::<String, BackendError>(BackendError::HttpClient(failure)),
{
}

/// Of several choices the first counts, whatever the others are. No choice is no text.
pub proof fn law_first_choice_counts(a: Vec<String>, b: Vec<String>, failure: HttpFailure)
    ensures
        a@.len() > 0 ==> first_choice(Ok(a)) == Ok::<Seq<char>, HttpFailure>(a@[0]@),
        a@.len() == 0 ==> first_choice(Ok(a)) == Ok::<Seq<char>, HttpFailure>(Seq::empty()),
        a@.len() > 0 && b@.len() > 0 && a@[0]@ == b@[0]@ ==> first_choice(Ok(a)) == first_choice(
            Ok(b),
        ),
        first_choice(Err(failure)) == Err::<Seq<char>, HttpFailure>(failure),
{
}

/// A failure is one of time, of status or of transport, in this order, and no answer is
/// a class of its own.
pub proof fn law_errors_are_classified(failure: HttpFailure)
    ensures
        failure.timeout ==> BackendError::HttpClient(failure).kind_of() == "backend_timeout"@,
        !failure.timeout && failure.status ==> BackendError::HttpClient(failure).kind_of()
            == "backend_http_error"@,
        !failure.timeout && !failure.status ==> BackendError::HttpClient(failure).kind_of()
            == "backend_transport_error"@,
        BackendError::EmptyResponse.kind_of() == "empty_model_response"@,
        BackendError::HttpClient(failure).message_of() == "http client error: "@
            + failure.message@,
        BackendError::EmptyResponse.message_of() == "empty response from backend"@,
{
}

/// A server that is healthy is reachable. One is reachable with any status of success,
/// healthy with one only, and neither without an answer.
pub proof fn law_health(status: u16, failure: HttpFailure)
    ensures
        healthy(Ok(status)) <==> status == 200,
        reachable(Ok(status)) <==> status / 100 == 2,
        healthy(Ok(status)) ==> reachable(Ok(status)),
        !reachable(Err(failure)) && !healthy(Err(failure)),
{
}

/// The keys in the bodies of requests need no escapes.
proof fn lemma_keys()
    ensures
        json_reader::plain_key("model"@),
        json_reader::plain_key("prompt"@),
        json_reader::plain_key("stream"@),
        json_reader::plain_key("keep_alive"@),
        json_reader::plain_key("ttl"@),
        json_reader::plain_key("identifier"@),
{
    reveal_strlit("model");
    reveal_strlit("prompt");
    reveal_strlit("stream");
    reveal_strlit("keep_alive");
    reveal_strlit("ttl");
    reveal_strlit("identifier");
}

proof fn lemma_reads_as_false()
    ensures
        json_reader::reads_as("false"@, JsonValue::Plain("false"@)),
{
    reveal_strlit("false");
    json_reader::lemma_reads_as_plain("false"@);
}

proof fn lemma_reads_as_number(n: int)
    ensures
        json_reader::reads_as(text::signed_decimal(n), JsonValue::Plain(text::signed_decimal(n))),
{
    let t = text::signed_decimal(n);
    text::lemma_signed_decimal_chars(n);
    json_reader::lemma_reads_as_plain(t);
}

/// Ollama finds the model, the whole prompt, that it shall not stream, and for how long
/// the model stays loaded.
pub proof fn law_ollama_body_is_read(model: Seq<char>, prompt: Seq<char>, keep_alive_secs: i64)
    ensures
        json_reader::read_object(ollama_generate_body(model, prompt, keep_alive_secs)) == Some(
            seq![
                ("model"@, JsonValue::Str(model)),
                ("prompt"@, JsonValue::Str(prompt)),
                ("stream"@, JsonValue::Plain("false"@)),
                ("keep_alive"@, JsonValue::Str(keep_alive_of(keep_alive_secs))),
            ],
        ),
{
    let keep = keep_alive_of(keep_alive_secs);
    let fields = seq![
        Field { key: "model"@, text: json::json_text(model), value: JsonValue::Str(model) },
        Field { key: "prompt"@, text: json::json_text(prompt), value: JsonValue::Str(prompt) },
        Field { key: "stream"@, text: "false"@, value: JsonValue::Plain("false"@) },
        Field { key: "keep_alive"@, text: json::json_text(keep), value: JsonValue::Str(keep) },
    ];
    lemma_keys();
    lemma_reads_as_false();
    json_reader::lemma_reads_as_str(model);
    json_reader::lemma_reads_as_str(prompt);
    json_reader::lemma_reads_as_str(keep);
    assert(ollama_generate_members(model, prompt, keep_alive_secs) =~= json_reader::field_texts(
        fields,
    ));
    json_reader::lemma_read_object(fields);
    assert(json_reader::field_values(fields) =~= seq![
        ("model"@, JsonValue::Str(model)),
        ("prompt"@, JsonValue::Str(prompt)),
        ("stream"@, JsonValue::Plain("false"@)),
        ("keep_alive"@, JsonValue::Str(keep)),
    ]);
}

/// Ollama finds the model that it shall keep for no time.
pub proof fn law_ollama_unload_is_read(model: Seq<char>)
    ensures
        json_reader::read_object(ollama_unload_body(model)) == Some(
            seq![("model"@, JsonValue::Str(model)), ("keep_alive"@, JsonValue::Str("0"@))],
        ),
{
    let fields = seq![
        Field { key: "model"@, text: json::json_text(model), value: JsonValue::Str(model) },
        Field { key: "keep_alive"@, text: "\"0\""@, value: JsonValue::Str("0"@) },
    ];
    reveal_strlit("0");
    reveal_strlit("\"0\"");
    reveal_strlit("\"");
    lemma_keys();
    json_reader::lemma_reads_as_str(model);
    assert("\"0\""@ =~= "\""@ + "0"@ + "\""@);
    json_reader::lemma_reads_as_quoted("\"0\""@, "0"@);
    assert(ollama_unload_members(model) =~= json_reader::field_texts(fields));
    json_reader::lemma_read_object(fields);
    assert(json_reader::field_values(fields) =~= seq![
        ("model"@, JsonValue::Str(model)),
        ("keep_alive"@, JsonValue::Str("0"@)),
    ]);
}

/// LM Studio finds the model, the whole prompt, that it shall not stream, and for how
/// many seconds the model stays loaded, as a number.
pub proof fn law_lm_studio_body_is_read(model: Seq<char>, prompt: Seq<char>, keep_alive_secs: i64)
    ensures
        json_reader::read_object(lm_studio_completion_body(model, prompt, keep_alive_secs))
            == Some(
            seq![
                ("model"@, JsonValue::Str(model)),
                ("prompt"@, JsonValue::Str(prompt)),
                ("stream"@, JsonValue::Plain("false"@)),
                ("ttl"@, JsonValue::Plain(text::signed_decimal(keep_alive_secs as int))),
            ],
        ),
{
    let ttl = text::signed_decimal(keep_alive_secs as int);
    let fields = seq![
        Field { key: "model"@, text: json::json_text(model), value: JsonValue::Str(model) },
        Field { key: "prompt"@, text: json::json_text(prompt), value: JsonValue::Str(prompt) },
        Field { key: "stream"@, text: "false"@, value: JsonValue::Plain("false"@) },
        Field { key: "ttl"@, text: ttl, value: JsonValue::Plain(ttl) },
    ];
    lemma_keys();
    lemma_reads_as_false();
    lemma_reads_as_number(keep_alive_secs as int);
    json_reader::lemma_reads_as_str(model);
    json_reader::lemma_reads_as_str(prompt);
    assert(lm_studio_completion_members(model, prompt, keep_alive_secs)
        =~= json_reader::field_texts(fields));
    json_reader::lemma_read_object(fields);
    assert(json_reader::field_values(fields) =~= seq![
        ("model"@, JsonValue::Str(model)),
        ("prompt"@, JsonValue::Str(prompt)),
        ("stream"@, JsonValue::Plain("false"@)),
        ("ttl"@, JsonValue::Plain(ttl)),
    ]);
}

/// LM Studio finds the model that it shall load.
pub proof fn law_lm_studio_load_is_read(model: Seq<char>)
    ensures
        json_reader::read_object(lm_studio_load_body(model)) == Some(
            seq![("identifier"@, JsonValue::Str(model))],
        ),
{
    let fields = seq![
        Field { key: "identifier"@, text: json::json_text(model), value: JsonValue::Str(model) },
    ];
    lemma_keys();
    json_reader::lemma_reads_as_str(model);
    assert(lm_studio_load_members(model) =~= json_reader::field_texts(fields));
    json_reader::lemma_read_object(fields);
    assert(json_reader::field_values(fields) =~= seq![("identifier"@, JsonValue::Str(model))]);
}

/// What is sent to which address, for a server whose address ends without a slash.
pub proof fn law_requests_go_to_the_server(
    backend: LlmBackend,
    model: Seq<char>,
    prompt: Seq<char>,
    keep_alive_secs: i64,
)
    requires
        ({
            let url = backend.server().1;
            url.len() > 0 && url.last() != '/'
        }),
    ensures
        ({
            let (kind, url) = backend.server();
            let process = backend.process_request(model, prompt, keep_alive_secs);
            let list = backend.list_request();
            let unload = backend.unload_request(model);
            &&& process.method == Method::Post && process.body is Some
            &&& list.method == Method::Get && list.body is None
            &&& kind == Backend::Ollama ==> {
                &&& process.url == url + "/api/generate"@
                &&& list.url == url + "/api/tags"@
                &&& unload.url == process.url && unload.method == Method::Post
                &&& unload.body == Some(ollama_unload_body(model))
                &&& process.body == Some(ollama_generate_body(model, prompt, keep_alive_secs))
                &&& backend.load_request(model) is None
            }
            &&& kind == Backend::LmStudio ==> {
                &&& process.url == url + "/v1/completions"@
                &&& list.url == url + "/v1/models"@
                &&& unload.url == url + "/v1/models/"@ + model && unload.method == Method::Delete
                &&& unload.body is None
                &&& process.body == Some(lm_studio_completion_body(model, prompt, keep_alive_secs))
                &&& backend.load_request(model) == Some(
                    HttpRequestView {
                        method: Method::Post,
                        url: url + "/v1/models/load"@,
                        body: Some(lm_studio_load_body(model)),
                    },
                )
            }
        }),
{
    let url = backend.server().1;
    law_slashes_do_not_count(url, "/api/generate"@);
    assert(url + ("/v1/models/"@ + model) =~= url + "/v1/models/"@ + model);
}

} // verus!
