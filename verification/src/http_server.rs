//! The HTTP side of the daemon.
//!
//! Three endpoints on `127.0.0.1`:
//!
//! | Method | Path       | Description                                      |
//! |--------|------------|--------------------------------------------------|
//! | POST   | /process   | Receive `{"text":"…"}`, return `{"text":"…"}`    |
//! | GET    | /health    | Returns `{"status":"ok"}` when the server is up  |
//! | GET    | /status    | Returns active model, daemon version and profile |
use crate::config::{AppConfig, PersistentState};
use crate::daemon;
use crate::daemon::{AppState, AppStateView, Request, RequestView, Response, ResponseView, Step};
use crate::json;
use crate::json::JsonObject;
use crate::json_reader;
use crate::json_reader::{Field, JsonValue};
use crate::modes;
use crate::modes::{Profile, ProfileView};
use crate::processor::TextProcessor;
use vstd::prelude::*;
use vstd::string::*;

verus! {

/// Default TCP port for the HTTP server.
pub const DEFAULT_HTTP_PORT: u16 = 39539;

/// Where the server answers whether it is up.
pub const HEALTH_PATH: &'static str = "/health";

/// Where the server answers what it runs with.
pub const STATUS_PATH: &'static str = "/status";

/// Where the server takes texts.
pub const PROCESS_PATH: &'static str = "/process";

// ─── Bodies ──────────────────────────────────────────────────────────────────

/// The body of a request to process a text.
#[derive(Debug)]
pub struct ProcessPayload {
    pub text: String,
    /// The profile for this request, in place of the active one.
    pub profile: Option<Profile>,
}

/// The body of the answer to a request to process a text.
#[derive(Debug)]
pub struct ProcessResponse {
    pub text: String,
}

/// The body of the answer to a question for the server's health.
#[derive(Debug)]
pub struct HealthResponse {
    pub status: &'static str,
}

/// The body of the answer to a question for the server's status.
#[derive(Debug)]
pub struct StatusResponse {
    pub model: String,
    pub version: String,
    pub profile: String,
}

/// The JSON text of a [`ProcessResponse`].
pub open spec fn process_body(answer: Seq<char>) -> Seq<char> {
    json::object_text(seq![json::member_text("text"@, json::json_text(answer))])
}

/// The JSON text of a [`HealthResponse`].
pub open spec fn health_body(status: Seq<char>) -> Seq<char> {
    json::object_text(seq![json::member_text("status"@, json::json_text(status))])
}

/// The members of a [`StatusResponse`].
pub open spec fn status_members(
    model: Seq<char>,
    version: Seq<char>,
    profile: Seq<char>,
) -> Seq<Seq<char>> {
    seq![
        json::member_text("model"@, json::json_text(model)),
        json::member_text("version"@, json::json_text(version)),
        json::member_text("profile"@, json::json_text(profile)),
    ]
}

/// The JSON text of a [`StatusResponse`].
pub open spec fn status_body(
    model: Seq<char>,
    version: Seq<char>,
    profile: Seq<char>,
) -> Seq<char> {
    json::object_text(status_members(model, version, profile))
}

impl ProcessResponse {
    /// The JSON text of the body.
    pub fn encode(&self) -> (res: String)
        ensures
            res@ == process_body(self.text@),
    {
        let object = JsonObject::new().with_str("text", self.text.as_str());
        assert(object@ =~= seq![json::member_text("text"@, json::json_text(self.text@))]);
        object.text()
    }
}

impl HealthResponse {
    /// The JSON text of the body.
    pub fn encode(&self) -> (res: String)
        ensures
            res@ == health_body(self.status@),
    {
        let object = JsonObject::new().with_str("status", self.status);
        assert(object@ =~= seq![json::member_text("status"@, json::json_text(self.status@))]);
        object.text()
    }
}

impl StatusResponse {
    /// The JSON text of the body.
    pub fn encode(&self) -> (res: String)
        ensures
            res@ == status_body(self.model@, self.version@, self.profile@),
    {
        let object = JsonObject::new().with_str("model", self.model.as_str()).with_str(
            "version",
            self.version.as_str(),
        ).with_str("profile", self.profile.as_str());
        assert(object@ =~= status_members(self.model@, self.version@, self.profile@));
        object.text()
    }
}

/// What kind of body a reply has.
#[derive(Debug, Clone, Copy, PartialEq, Eq, Structural)]
pub enum BodyKind {
    Json,
    Text,
}

/// A reply: its status code and its body.
#[derive(Debug)]
pub struct HttpReply {
    pub status: u16,
    pub kind: BodyKind,
    pub body: String,
}

/// What an [`HttpReply`] holds.
pub struct HttpReplyView {
    pub status: u16,
    pub kind: BodyKind,
    pub body: Seq<char>,
}

impl View for HttpReply {
    type V = HttpReplyView;

    open spec fn view(&self) -> HttpReplyView {
        HttpReplyView { status: self.status, kind: self.kind, body: self.body@ }
    }
}

// ─── Handlers ────────────────────────────────────────────────────────────────

/// The reply of an internal error.
pub open spec fn error_reply(message: Seq<char>) -> HttpReplyView {
    HttpReplyView { status: 500, kind: BodyKind::Text, body: message }
}

/// The reply to `GET /status` for the daemon's answer.
pub open spec fn status_reply_of(response: ResponseView) -> HttpReplyView {
    match response {
        ResponseView::Status { mode, model, version, profile } => HttpReplyView {
            status: 200,
            kind: BodyKind::Json,
            body: status_body(model, version, profile),
        },
        ResponseView::Error(e) => error_reply(e),
        _ => error_reply("unexpected response"@),
    }
}

/// The reply to `POST /process` for the daemon's answer.
pub open spec fn process_reply_of(response: ResponseView) -> HttpReplyView {
    match response {
        ResponseView::Text(answer) => HttpReplyView {
            status: 200,
            kind: BodyKind::Json,
            body: process_body(answer),
        },
        ResponseView::Error(e) => error_reply(e),
        _ => error_reply("unexpected response"@),
    }
}

/// The reply to `GET /health`.
pub open spec fn healthy_reply() -> HttpReplyView {
    HttpReplyView { status: 200, kind: BodyKind::Json, body: health_body("ok"@) }
}

/// The reply to `GET /health`.
pub fn health_handler() -> (res: HttpReply)
    ensures
        res@ == (HttpReplyView { status: 200, kind: BodyKind::Json, body: health_body("ok"@) }),
        res@ == healthy_reply(),
{
    let body = HealthResponse { status: "ok" }.encode();
    HttpReply { status: 200, kind: BodyKind::Json, body }
}

/// The reply to `GET /status`.
pub fn status_handler(state: &mut AppState) -> (res: HttpReply)
    ensures
        final(state)@ == old(state)@,
        res@ == (HttpReplyView {
            status: 200,
            kind: BodyKind::Json,
            body: status_body(
                old(state)@.model(),
                daemon::VERSION@,
                old(state)@.active_profile.name(),
            ),
        }),
        res@ == status_reply_of(daemon::status_of(old(state)@)),
{
    let request = Request::GetStatus;
    match daemon::handle_request(request, state) {
        Step::Reply(response) => status_reply(response),
        _ => status_reply(Response::Error("unexpected response".to_owned())),
    }
}

/// The reply to `GET /status` for the daemon's answer.
pub fn status_reply(response: Response) -> (res: HttpReply)
    ensures
        res@ == status_reply_of(response@),
{
    match response {
        Response::Status { mode: _, model, version, profile } => {
            let body = StatusResponse { model, version, profile }.encode();
            HttpReply { status: 200, kind: BodyKind::Json, body }
        },
        Response::Error(e) => HttpReply { status: 500, kind: BodyKind::Text, body: e },
        _ => HttpReply {
            status: 500,
            kind: BodyKind::Text,
            body: "unexpected response".to_owned(),
        },
    }
}

/// The request that the body of a request to process a text is.
pub open spec fn payload_request(payload: ProcessPayload) -> RequestView {
    RequestView::Process {
        text: payload.text@,
        request_id: None,
        profile: match payload.profile {
            Some(p) => Some(p@),
            None => None,
        },
    }
}

/// What has to be done for `POST /process`. The reply is that of
/// [`process_reply`] on the daemon's answer.
pub fn process_handler(payload: ProcessPayload, state: &mut AppState) -> (res: Step)
    ensures
        final(state)@ == old(state)@,
        daemon::is_step_for(
            old(state)@,
            RequestView::Process {
                text: payload.text@,
                request_id: None,
                profile: match payload.profile {
                    Some(p) => Some(p@),
                    None => None,
                },
            },
            res,
        ),
        daemon::is_step_for(old(state)@, payload_request(payload), res),
{
    let request = Request::Process {
        text: payload.text,
        request_id: None,
        profile: payload.profile,
    };
    daemon::handle_request(request, state)
}

/// The reply to `POST /process` for the daemon's answer.
pub fn process_reply(response: Response) -> (res: HttpReply)
    ensures
        res@ == process_reply_of(response@),
{
    match response {
        Response::Text(text) => {
            let body = ProcessResponse { text }.encode();
            HttpReply { status: 200, kind: BodyKind::Json, body }
        },
        Response::Error(e) => HttpReply { status: 500, kind: BodyKind::Text, body: e },
        _ => HttpReply {
            status: 500,
            kind: BodyKind::Text,
            body: "unexpected response".to_owned(),
        },
    }
}

// ─── The server ──────────────────────────────────────────────────────────────

/// The state of a server that starts with the given profile.
pub open spec fn is_fresh(s: AppStateView, config: AppConfig, profile: ProfileView) -> bool {
    &&& s.override_model is None
    &&& s.active_profile == profile
    &&& s.processor.backend.server() == (config.llm.backend, config.llm.url@)
    &&& s.processor.default_model@ == config.llm.model@
    &&& s.processor.keep_alive_secs == config.llm.keep_alive_secs
}

/// The state for a configuration, with the default profile.
pub fn build_state(config: AppConfig) -> (res: AppState)
    ensures
        is_fresh(res@, config, ProfileView::UniversalInterpreter),
{
    build_state_with_profile(config, Profile::default())
}

/// The state for a configuration, with the given profile.
pub fn build_state_with_profile(config: AppConfig, profile: Profile) -> (res: AppState)
    ensures
        is_fresh(res@, config, profile@),
{
    AppState::new(TextProcessor::new(config), profile)
}

/// The address is this machine's own, on the given port.
pub open spec fn is_local(address: ([u8; 4], u16), port: u16) -> bool {
    &&& address.0@[0] == 127 && address.0@[1] == 0 && address.0@[2] == 0 && address.0@[3] == 1
    &&& address.1 == port
}

/// The address that the server listens at: this machine's own, on the given port.
pub fn listen_address(port: u16) -> (res: ([u8; 4], u16))
    ensures
        res.0@ == seq![127u8, 0u8, 0u8, 1u8],
        res.1 == port,
        is_local(res, port),
{
    ([127, 0, 0, 1], port)
}

/// What a server needs to start: its state and its address.
#[derive(Debug)]
pub struct ServerStart {
    pub state: AppState,
    pub address: ([u8; 4], u16),
}

/// How a server starts, given what was saved before the last end.
pub fn run(config: AppConfig, saved: PersistentState, port: u16) -> (res: ServerStart)
    ensures
        is_fresh(res.state@, config, saved.profile@),
        res.address.0@ == seq![127u8, 0u8, 0u8, 1u8],
        res.address.1 == port,
{
    ServerStart {
        state: build_state_with_profile(config, saved.profile),
        address: listen_address(port),
    }
}

/// The server ends: it is told to, or nobody is left who could tell it.
pub open spec fn ends(watched: bool, requested: bool) -> bool {
    !watched || requested
}

/// Whether the server ends when the shutdown flag was touched. `watched` says
/// whether somebody still holds the other end of it, and `requested` what it says.
pub fn shuts_down(watched: bool, requested: bool) -> (res: bool)
    ensures
        res == (!watched || requested),
        res == ends(watched, requested),
{
    !watched || requested
}

// ─── Laws ────────────────────────────────────────────────────────────────────

/// A fresh server processes a text that comes without a profile with the universal
/// interpreter's prompt and the configured model.
pub proof fn law_process_defaults_to_universal(
    config: AppConfig,
    s: AppStateView,
    raw: Seq<char>,
    step: Step,
)
    requires
        is_fresh(s, config, ProfileView::UniversalInterpreter),
        daemon::is_step_for(
            s,
            RequestView::Process { text: raw, request_id: None, profile: None },
            step,
        ),
    ensures
        step is Forward,
        step->Forward_0.call.prompt@ == modes::prompt(raw),
        step->Forward_0.call.model@ == config.llm.model@,
{
    assert(raw + ProfileView::UniversalInterpreter.instruction() =~= raw);
}

/// Whatever the backend does with a text, the reply is a success that carries what
/// is typed for it.
pub proof fn law_process_replies_with_text(
    raw: Seq<char>,
    outcome: Result<String, crate::llm_backend::BackendError>,
)
    ensures
        process_reply_of(
            ResponseView::Text(crate::processor::typed_text(raw, outcome)),
        ).status == 200,
        process_reply_of(
            ResponseView::Text(crate::processor::typed_text(raw, outcome)),
        ).body == process_body(crate::processor::typed_text(raw, outcome)),
{
}

proof fn lemma_one_member_is_read(key: Seq<char>, value: Seq<char>)
    requires
        json_reader::plain_key(key),
    ensures
        json_reader::read_object(
            json::object_text(seq![json::member_text(key, json::json_text(value))]),
        ) == Some(seq![(key, JsonValue::Str(value))]),
{
    let fields = seq![Field { key, text: json::json_text(value), value: JsonValue::Str(value) }];
    json_reader::lemma_reads_as_str(value);
    json_reader::lemma_read_object(fields);
    assert(json_reader::field_texts(fields) =~= seq![json::member_text(key, json::json_text(value))]);
    assert(json_reader::field_values(fields) =~= seq![(key, JsonValue::Str(value))]);
}

/// A client finds the text in the reply as it is.
pub proof fn law_reply_text_is_read(answer: Seq<char>)
    ensures
        json_reader::read_object(process_body(answer)) == Some(
            seq![("text"@, JsonValue::Str(answer))],
        ),
{
    reveal_strlit("text");
    lemma_one_member_is_read("text"@, answer);
}

/// A client finds that the server is well.
pub proof fn law_health_is_read()
    ensures
        healthy_reply().status == 200 && healthy_reply().kind == BodyKind::Json,
        json_reader::read_object(healthy_reply().body) == Some(
            seq![("status"@, JsonValue::Str("ok"@))],
        ),
{
    reveal_strlit("status");
    lemma_one_member_is_read("status"@, "ok"@);
}

/// A client finds the model, the version and the profile, each under its name.
pub proof fn law_status_is_read(model: Seq<char>, version: Seq<char>, profile: Seq<char>)
    ensures
        json_reader::read_object(status_body(model, version, profile)) == Some(
            seq![
                ("model"@, JsonValue::Str(model)),
                ("version"@, JsonValue::Str(version)),
                ("profile"@, JsonValue::Str(profile)),
            ],
        ),
{
    let fields = seq![
        Field { key: "model"@, text: json::json_text(model), value: JsonValue::Str(model) },
        Field { key: "version"@, text: json::json_text(version), value: JsonValue::Str(version) },
        Field { key: "profile"@, text: json::json_text(profile), value: JsonValue::Str(profile) },
    ];
    reveal_strlit("model");
    reveal_strlit("version");
    reveal_strlit("profile");
    assert(json_reader::plain_key("model"@));
    assert(json_reader::plain_key("version"@));
    assert(json_reader::plain_key("profile"@));
    json_reader::lemma_reads_as_str(model);
    json_reader::lemma_reads_as_str(version);
    json_reader::lemma_reads_as_str(profile);
    assert(status_members(model, version, profile) =~= json_reader::field_texts(fields));
    json_reader::lemma_read_object(fields);
    assert(json_reader::field_values(fields) =~= seq![
        ("model"@, JsonValue::Str(model)),
        ("version"@, JsonValue::Str(version)),
        ("profile"@, JsonValue::Str(profile)),
    ]);
}

/// A reply is a success exactly if the daemon answered what was asked for, and then it is
/// a JSON text. Otherwise it is an internal error, and says what the daemon said.
pub proof fn law_replies(response: ResponseView)
    ensures
        ({
            let reply = status_reply_of(response);
            &&& reply.status == 200 <==> response is Status
            &&& reply.kind == BodyKind::Json <==> response is Status
            &&& response !is Status ==> reply.status == 500
            &&& response matches ResponseView::Error(e) ==> reply.body == e
            &&& response !is Status && response !is Error ==> reply.body == "unexpected response"@
        }),
        ({
            let reply = process_reply_of(response);
            &&& reply.status == 200 <==> response is Text
            &&& reply.kind == BodyKind::Json <==> response is Text
            &&& response !is Text ==> reply.status == 500
            &&& response matches ResponseView::Error(e) ==> reply.body == e
            &&& response !is Text && response !is Error ==> reply.body == "unexpected response"@
        }),
{
}

/// The status that a client reads is that of the state: the model in use and the name of
/// the active profile.
pub proof fn law_status_is_that_of_the_state(s: AppStateView)
    ensures
        json_reader::read_object(status_reply_of(daemon::status_of(s)).body) == Some(
            seq![
                ("model"@, JsonValue::Str(s.model())),
                ("version"@, JsonValue::Str("0.1.0"@)),
                ("profile"@, JsonValue::Str(s.active_profile.name())),
            ],
        ),
{
    law_status_is_read(s.model(), daemon::VERSION@, s.active_profile.name());
}

/// A server that starts has the saved profile, and uses the configured server and model.
pub proof fn law_fresh_server(s: AppStateView, config: AppConfig, profile: ProfileView)
    requires
        is_fresh(s, config, profile),
    ensures
        s.model() == config.llm.model@,
        s.active_profile == profile,
        s.processor.backend.server() == (config.llm.backend, config.llm.url@),
        s.processor.keep_alive_secs == config.llm.keep_alive_secs,
{
}

/// A server that is watched ends when it is told to and not before. One that is not
/// watched any more ends in any case.
pub proof fn law_server_ends(requested: bool)
    ensures
        ends(true, requested) == requested,
        ends(false, requested),
{
}

/// A text that comes over HTTP is processed as it is, with the profile that comes with it,
/// if one does, and otherwise with the daemon's own.
pub proof fn law_payload_is_processed(s: AppStateView, payload: ProcessPayload, step: Step)
    requires
        daemon::is_step_for(s, payload_request(payload), step),
    ensures
        step is Forward,
        step->Forward_0.text@ == payload.text@,
        step->Forward_0.call.model@ == s.model(),
        payload.profile matches Some(p) ==> step->Forward_0.call.prompt@ == modes::prompt(
            payload.text@ + p@.instruction(),
        ),
        payload.profile is None ==> step->Forward_0.call.prompt@ == modes::prompt(
            payload.text@ + s.active_profile.instruction(),
        ),
{
}

/// The server is reached from this machine only, on the port that it was given.
pub proof fn law_server_is_local(address: ([u8; 4], u16), port: u16)
    requires
        is_local(address, port),
    ensures
        address.0@ == seq![127u8, 0u8, 0u8, 1u8],
        address.1 == port,
{
    assert(address.0@ =~= seq![127u8, 0u8, 0u8, 1u8]);
}

} // verus!
