//! The daemon: its state, the requests it takes and the answers it gives.
//!
//! Requests and answers travel as JSON texts, one per line.
use crate::config::{AppConfig, ConfigError, PersistentState};
use crate::json;
use crate::json::JsonObject;
use crate::json_reader;
use crate::json_reader::{Field, JsonValue};
use crate::llm_backend::BackendError;
use crate::modes;
use crate::modes::{Profile, ProfileView};
use crate::processor;
use crate::processor::{BackendCall, TextProcessor};
use crate::strings;
use crate::text;
use vstd::prelude::*;
use vstd::string::*;

verus! {

/// The version of the daemon.
pub const VERSION: &'static str = "0.1.0";

// ─── State ───────────────────────────────────────────────────────────────────

/// What the daemon knows.
#[derive(Debug)]
pub struct AppState {
    /// The model chosen at run time, in place of the configured one.
    pub override_model: Option<String>,
    /// The profile for requests that name none.
    pub active_profile: Profile,
    pub processor: TextProcessor,
}

/// What an [`AppState`] holds.
pub struct AppStateView {
    pub override_model: Option<Seq<char>>,
    pub active_profile: ProfileView,
    pub processor: TextProcessor,
}

impl View for AppState {
    type V = AppStateView;

    open spec fn view(&self) -> AppStateView {
        AppStateView {
            override_model: match self.override_model {
                Some(m) => Some(m@),
                None => None,
            },
            active_profile: self.active_profile@,
            processor: self.processor,
        }
    }
}

impl AppStateView {
    /// The model in use.
    pub open spec fn model(self) -> Seq<char> {
        self.processor.model_for(self.override_model)
    }
}

impl AppState {
    /// The state at the start.
    pub fn new(processor: TextProcessor, profile: Profile) -> (res: AppState)
        ensures
            res@ == (AppStateView {
                override_model: None,
                active_profile: profile@,
                processor: processor,
            }),
    {
        AppState { override_model: None, active_profile: profile, processor }
    }

    /// The name of the mode that selects the active profile.
    pub fn mode(&self) -> (res: String)
        ensures
            res@ == self@.active_profile.mode_name(),
    {
        self.active_profile.mode_name()
    }

    /// Makes a profile the active one, and returns what has to be saved for it to
    /// stay so after a restart.
    pub fn set_mode(&mut self, profile: Profile) -> (res: PersistentState)
        ensures
            final(self)@ == (AppStateView { active_profile: profile@, ..old(self)@ }),
            res.profile@ == profile@,
    {
        let saved = profile.clone();
        self.active_profile = profile;
        PersistentState { profile: saved }
    }

    /// The model in use.
    pub fn model(&self) -> (res: String)
        ensures
            res@ == self@.model(),
    {
        match &self.override_model {
            Some(m) => m.clone(),
            None => self.processor.config_model().to_owned(),
        }
    }
}

// ─── Protocol ────────────────────────────────────────────────────────────────

/// What a client can ask for.
#[derive(Debug)]
pub enum Request {
    Process { text: String, request_id: Option<String>, profile: Option<Profile> },
    SetMode { mode: String },
    SetModel { model: String },
    GetStatus,
}

/// What a [`Request`] holds.
pub enum RequestView {
    Process {
        text: Seq<char>,
        request_id: Option<Seq<char>>,
        profile: Option<ProfileView>,
    },
    SetMode { mode: Seq<char> },
    SetModel { model: Seq<char> },
    GetStatus,
}

impl View for Request {
    type V = RequestView;

    open spec fn view(&self) -> RequestView {
        match self {
            Request::Process { text, request_id, profile } => RequestView::Process {
                text: text@,
                request_id: match request_id {
                    Some(id) => Some(id@),
                    None => None,
                },
                profile: match profile {
                    Some(p) => Some(p@),
                    None => None,
                },
            },
            Request::SetMode { mode } => RequestView::SetMode { mode: mode@ },
            Request::SetModel { model } => RequestView::SetModel { model: model@ },
            Request::GetStatus => RequestView::GetStatus,
        }
    }
}

/// What the daemon answers.
#[derive(Debug)]
pub enum Response {
    Text(String),
    ModeChanged { mode: String },
    ModelChanged { model: String },
    Status { mode: String, model: String, version: String, profile: String },
    Error(String),
}

/// What a [`Response`] holds.
pub enum ResponseView {
    Text(Seq<char>),
    ModeChanged { mode: Seq<char> },
    ModelChanged { model: Seq<char> },
    Status {
        mode: Seq<char>,
        model: Seq<char>,
        version: Seq<char>,
        profile: Seq<char>,
    },
    Error(Seq<char>),
}

impl View for Response {
    type V = ResponseView;

    open spec fn view(&self) -> ResponseView {
        match self {
            Response::Text(t) => ResponseView::Text(t@),
            Response::ModeChanged { mode } => ResponseView::ModeChanged { mode: mode@ },
            Response::ModelChanged { model } => ResponseView::ModelChanged { model: model@ },
            Response::Status { mode, model, version, profile } => ResponseView::Status {
                mode: mode@,
                model: model@,
                version: version@,
                profile: profile@,
            },
            Response::Error(e) => ResponseView::Error(e@),
        }
    }
}

/// The members of the JSON text of a request.
pub open spec fn request_members(r: RequestView) -> Seq<Seq<char>> {
    match r {
        RequestView::Process { text, request_id, profile } => seq![
            json::member_text("type"@, "\"process\""@),
            json::member_text("text"@, json::json_text(text)),
            json::member_text("request_id"@, json::json_opt_text(request_id)),
            json::member_text(
                "profile"@,
                json::json_opt_text(
                    match profile {
                        Some(p) => Some(p.name()),
                        None => None,
                    },
                ),
            ),
        ],
        RequestView::SetMode { mode } => seq![
            json::member_text("type"@, "\"set_mode\""@),
            json::member_text("mode"@, json::json_text(mode)),
        ],
        RequestView::SetModel { model } => seq![
            json::member_text("type"@, "\"set_model\""@),
            json::member_text("model"@, json::json_text(model)),
        ],
        RequestView::GetStatus => seq![json::member_text("type"@, "\"get_status\""@)],
    }
}

/// The JSON text of a request.
pub open spec fn request_text(r: RequestView) -> Seq<char> {
    json::object_text(request_members(r))
}

/// The members of the JSON text of an answer, from its tag and the JSON text of its
/// payload.
pub open spec fn tagged_members(tag: Seq<char>, payload: Seq<char>) -> Seq<Seq<char>> {
    seq![
        json::member_text("type"@, "\""@ + tag + "\""@),
        json::member_text("payload"@, payload),
    ]
}

/// The JSON text of an answer, from its tag and the JSON text of its payload.
pub open spec fn tagged_text(tag: Seq<char>, payload: Seq<char>) -> Seq<char> {
    json::object_text(tagged_members(tag, payload))
}

/// The members of the payload of a status.
pub open spec fn status_members(
    mode: Seq<char>,
    model: Seq<char>,
    version: Seq<char>,
    profile: Seq<char>,
) -> Seq<Seq<char>> {
    seq![
        json::member_text("mode"@, json::json_text(mode)),
        json::member_text("model"@, json::json_text(model)),
        json::member_text("version"@, json::json_text(version)),
        json::member_text("profile"@, json::json_text(profile)),
    ]
}

/// The JSON text of an answer.
pub open spec fn response_text(r: ResponseView) -> Seq<char> {
    match r {
        ResponseView::Text(t) => tagged_text("text"@, json::json_text(t)),
        ResponseView::ModeChanged { mode } => tagged_text(
            "mode_changed"@,
            json::object_text(seq![json::member_text("mode"@, json::json_text(mode))]),
        ),
        ResponseView::ModelChanged { model } => tagged_text(
            "model_changed"@,
            json::object_text(seq![json::member_text("model"@, json::json_text(model))]),
        ),
        ResponseView::Status { mode, model, version, profile } => tagged_text(
            "status"@,
            json::object_text(status_members(mode, model, version, profile)),
        ),
        ResponseView::Error(e) => tagged_text("error"@, json::json_text(e)),
    }
}

/// The content of an optional string.
fn opt_str(s: &Option<String>) -> (res: Option<&str>)
    ensures
        text::opt_text(res) == match s {
            Some(t) => Some(t@),
            None => None,
        },
{
    match s {
        Some(t) => Some(t.as_str()),
        None => None,
    }
}

/// The JSON text of a request is one line, and ends with a brace.
pub proof fn lemma_request_is_line(r: RequestView)
    ensures
        text::free_of(request_text(r), '\n'),
        request_text(r).len() > 0 && request_text(r).last() == '}',
{
    reveal_strlit("type");
    match r {
        RequestView::Process { text, request_id, profile } => {
            reveal_strlit("\"process\"");
            reveal_strlit("text");
            reveal_strlit("request_id");
            reveal_strlit("profile");
            let name = match profile {
                Some(p) => Some(p.name()),
                None => None,
            };
            json::lemma_json_text_is_line(text);
            json::lemma_json_opt_text_is_line(request_id);
            json::lemma_json_opt_text_is_line(name);
            json::lemma_member_is_line("type"@, "\"process\""@);
            json::lemma_member_is_line("text"@, json::json_text(text));
            json::lemma_member_is_line("request_id"@, json::json_opt_text(request_id));
            json::lemma_member_is_line("profile"@, json::json_opt_text(name));
        },
        RequestView::SetMode { mode } => {
            reveal_strlit("\"set_mode\"");
            reveal_strlit("mode");
            json::lemma_json_text_is_line(mode);
            json::lemma_member_is_line("type"@, "\"set_mode\""@);
            json::lemma_member_is_line("mode"@, json::json_text(mode));
        },
        RequestView::SetModel { model } => {
            reveal_strlit("\"set_model\"");
            reveal_strlit("model");
            json::lemma_json_text_is_line(model);
            json::lemma_member_is_line("type"@, "\"set_model\""@);
            json::lemma_member_is_line("model"@, json::json_text(model));
        },
        RequestView::GetStatus => {
            reveal_strlit("\"get_status\"");
            json::lemma_member_is_line("type"@, "\"get_status\""@);
        },
    }
    json::lemma_object_is_line(request_members(r));
}

proof fn lemma_tagged_is_line(tag: Seq<char>, payload: Seq<char>)
    requires
        text::free_of(tag, '\n'),
        text::free_of(payload, '\n'),
    ensures
        text::free_of(tagged_text(tag, payload), '\n'),
        tagged_text(tag, payload).len() > 0 && tagged_text(tag, payload).last() == '}',
{
    reveal_strlit("type");
    reveal_strlit("payload");
    reveal_strlit("\"");
    json::lemma_member_is_line("type"@, "\""@ + tag + "\""@);
    json::lemma_member_is_line("payload"@, payload);
    json::lemma_object_is_line(tagged_members(tag, payload));
}

/// The JSON text of an answer is one line, and ends with a brace.
pub proof fn lemma_response_is_line(r: ResponseView)
    ensures
        text::free_of(response_text(r), '\n'),
        response_text(r).len() > 0 && response_text(r).last() == '}',
{
    match r {
        ResponseView::Text(t) => {
            reveal_strlit("text");
            json::lemma_json_text_is_line(t);
            lemma_tagged_is_line("text"@, json::json_text(t));
        },
        ResponseView::ModeChanged { mode } => {
            reveal_strlit("mode_changed");
            reveal_strlit("mode");
            json::lemma_json_text_is_line(mode);
            json::lemma_member_is_line("mode"@, json::json_text(mode));
            let members = seq![json::member_text("mode"@, json::json_text(mode))];
            json::lemma_object_is_line(members);
            lemma_tagged_is_line("mode_changed"@, json::object_text(members));
        },
        ResponseView::ModelChanged { model } => {
            reveal_strlit("model_changed");
            reveal_strlit("model");
            json::lemma_json_text_is_line(model);
            json::lemma_member_is_line("model"@, json::json_text(model));
            let members = seq![json::member_text("model"@, json::json_text(model))];
            json::lemma_object_is_line(members);
            lemma_tagged_is_line("model_changed"@, json::object_text(members));
        },
        ResponseView::Status { mode, model, version, profile } => {
            reveal_strlit("status");
            reveal_strlit("mode");
            reveal_strlit("model");
            reveal_strlit("version");
            reveal_strlit("profile");
            json::lemma_json_text_is_line(mode);
            json::lemma_json_text_is_line(model);
            json::lemma_json_text_is_line(version);
            json::lemma_json_text_is_line(profile);
            json::lemma_member_is_line("mode"@, json::json_text(mode));
            json::lemma_member_is_line("model"@, json::json_text(model));
            json::lemma_member_is_line("version"@, json::json_text(version));
            json::lemma_member_is_line("profile"@, json::json_text(profile));
            let members = status_members(mode, model, version, profile);
            json::lemma_object_is_line(members);
            lemma_tagged_is_line("status"@, json::object_text(members));
        },
        ResponseView::Error(e) => {
            reveal_strlit("error");
            json::lemma_json_text_is_line(e);
            lemma_tagged_is_line("error"@, json::json_text(e));
        },
    }
}

impl Request {
    /// The request as a JSON object.
    fn object(&self) -> (res: JsonObject)
        ensures
            res@ == request_members(self@),
    {
        match self {
            Request::Process { text, request_id, profile } => {
                let name = match profile {
                    Some(p) => Some(p.name()),
                    None => None,
                };
                let res = JsonObject::new().with("type", "\"process\"").with_str(
                    "text",
                    text.as_str(),
                ).with_opt("request_id", opt_str(request_id)).with_opt("profile", opt_str(&name));
                assert(res@ =~= request_members(self@));
                res
            },
            Request::SetMode { mode } => {
                let res = JsonObject::new().with("type", "\"set_mode\"").with_str(
                    "mode",
                    mode.as_str(),
                );
                assert(res@ =~= request_members(self@));
                res
            },
            Request::SetModel { model } => {
                let res = JsonObject::new().with("type", "\"set_model\"").with_str(
                    "model",
                    model.as_str(),
                );
                assert(res@ =~= request_members(self@));
                res
            },
            Request::GetStatus => {
                let res = JsonObject::new().with("type", "\"get_status\"");
                assert(res@ =~= request_members(self@));
                res
            },
        }
    }

    /// The JSON text of the request, which is one line.
    pub fn encode(&self) -> (res: String)
        ensures
            res@ == request_text(self@),
            text::free_of(res@, '\n'),
            res@.len() > 0 && res@.last() == '}',
    {
        proof {
            lemma_request_is_line(self@);
        }
        self.object().text()
    }
}

/// The JSON text of an answer, from its tag and the JSON text of its payload.
pub fn tagged(tag: &str, payload: &str) -> (res: String)
    ensures
        res@ == tagged_text(tag@, payload@),
{
    let mut quoted = "\"".to_owned();
    quoted.append(tag);
    quoted.append("\"");
    let object = JsonObject::new().with("type", quoted.as_str()).with("payload", payload);
    assert(object@ =~= tagged_members(tag@, payload@));
    object.text()
}

impl Response {
    /// The JSON text of the answer, which is one line.
    pub fn encode(&self) -> (res: String)
        ensures
            res@ == response_text(self@),
            text::free_of(res@, '\n'),
            res@.len() > 0 && res@.last() == '}',
    {
        proof {
            lemma_response_is_line(self@);
        }
        match self {
            Response::Text(t) => {
                tagged("text", json::json_string(t.as_str()).as_str())
            },
            Response::ModeChanged { mode } => {
                let object = JsonObject::new().with_str("mode", mode.as_str());
                assert(object@ =~= seq![json::member_text("mode"@, json::json_text(mode@))]);
                let payload = object.text();
                tagged("mode_changed", payload.as_str())
            },
            Response::ModelChanged { model } => {
                let object = JsonObject::new().with_str("model", model.as_str());
                assert(object@ =~= seq![json::member_text("model"@, json::json_text(model@))]);
                let payload = object.text();
                tagged("model_changed", payload.as_str())
            },
            Response::Status { mode, model, version, profile } => {
                let object = JsonObject::new().with_str("mode", mode.as_str()).with_str(
                    "model",
                    model.as_str(),
                ).with_str("version", version.as_str()).with_str("profile", profile.as_str());
                assert(object@ =~= status_members(mode@, model@, version@, profile@));
                let payload = object.text();
                tagged("status", payload.as_str())
            },
            Response::Error(e) => {
                tagged("error", json::json_string(e.as_str()).as_str())
            },
        }
    }
}

impl Response {
    /// The answer as it is sent: its JSON text and the end of the line.
    pub fn frame(&self) -> (res: String)
        ensures
            res@ == response_text(self@) + "\n"@,
            text::lines(res@) == seq![response_text(self@)],
    {
        let mut out = self.encode();
        proof {
            law_frame_is_one_line(out@);
        }
        out.append("\n");
        out
    }
}

impl Request {
    /// The request as it is sent: its JSON text and the end of the line.
    pub fn frame(&self) -> (res: String)
        ensures
            res@ == request_text(self@) + "\n"@,
            text::lines(res@) == seq![request_text(self@)],
    {
        let mut out = self.encode();
        proof {
            law_frame_is_one_line(out@);
        }
        out.append("\n");
        out
    }
}

/// How Rust shows a string for debugging: in quotes, with escapes.
pub uninterp spec fn debug_str_text(s: Seq<char>) -> Seq<char>;

/// The `Debug` format of `str`.
#[verifier::external_body]
fn debug_str(s: &str) -> (res: String)
    ensures
        res@ == debug_str_text(s@),
{
    format!("{s:?}")
}

/// How Rust shows a value with one part, from its name and how the part is shown.
pub open spec fn shown_tuple(name: Seq<char>, part: Seq<char>) -> Seq<char> {
    name + "("@ + part + ")"@
}

/// How Rust shows a field, from how its value is shown.
pub open spec fn shown_field(name: Seq<char>, value: Seq<char>) -> Seq<char> {
    name + ": "@ + value
}

/// How Rust shows a value with fields, from its name and how they are shown.
pub open spec fn shown_struct(name: Seq<char>, fields: Seq<Seq<char>>) -> Seq<char> {
    name + " { "@ + text::join(fields, ", "@) + " }"@
}

/// How Rust shows a value with one part, from its name and how the part is shown.
pub fn show_tuple(name: &str, part: &str) -> (res: String)
    ensures
        res@ == shown_tuple(name@, part@),
{
    let mut out = name.to_owned();
    out.append("(");
    out.append(part);
    out.append(")");
    out
}

/// How Rust shows a field, from how its value is shown.
pub fn show_field(name: &str, value: &str) -> (res: String)
    ensures
        res@ == shown_field(name@, value@),
{
    let mut out = name.to_owned();
    out.append(": ");
    out.append(value);
    out
}

/// How Rust shows a value with fields, from its name and how they are shown.
pub fn show_struct(name: &str, fields: &Vec<String>) -> (res: String)
    ensures
        res@ == shown_struct(name@, text::texts(fields@)),
{
    let mut out = name.to_owned();
    out.append(" { ");
    out.append(strings::join(fields, ", ").as_str());
    out.append(" }");
    out
}

/// How an answer is shown in a message about it.
pub open spec fn response_debug(r: ResponseView) -> Seq<char> {
    match r {
        ResponseView::Text(t) => shown_tuple("Text"@, debug_str_text(t)),
        ResponseView::ModeChanged { mode } => shown_struct(
            "ModeChanged"@,
            seq![shown_field("mode"@, debug_str_text(mode))],
        ),
        ResponseView::ModelChanged { model } => shown_struct(
            "ModelChanged"@,
            seq![shown_field("model"@, debug_str_text(model))],
        ),
        ResponseView::Status { mode, model, version, profile } => shown_struct(
            "Status"@,
            seq![
                shown_field("mode"@, debug_str_text(mode)),
                shown_field("model"@, debug_str_text(model)),
                shown_field("version"@, debug_str_text(version)),
                shown_field("profile"@, debug_str_text(profile)),
            ],
        ),
        ResponseView::Error(e) => shown_tuple("Error"@, debug_str_text(e)),
    }
}

impl Response {
    /// How the answer is shown in a message about it.
    pub fn debug(&self) -> (res: String)
        ensures
            res@ == response_debug(self@),
    {
        let mut fields: Vec<String> = Vec::new();
        match self {
            Response::Text(t) => show_tuple("Text", debug_str(t.as_str()).as_str()),
            Response::ModeChanged { mode } => {
                fields.push(show_field("mode", debug_str(mode.as_str()).as_str()));
                assert(text::texts(fields@) =~= seq![shown_field("mode"@, debug_str_text(mode@))]);
                show_struct("ModeChanged", &fields)
            },
            Response::ModelChanged { model } => {
                fields.push(show_field("model", debug_str(model.as_str()).as_str()));
                assert(text::texts(fields@) =~= seq![shown_field("model"@, debug_str_text(model@))]);
                show_struct("ModelChanged", &fields)
            },
            Response::Status { mode, model, version, profile } => {
                fields.push(show_field("mode", debug_str(mode.as_str()).as_str()));
                fields.push(show_field("model", debug_str(model.as_str()).as_str()));
                fields.push(show_field("version", debug_str(version.as_str()).as_str()));
                fields.push(show_field("profile", debug_str(profile.as_str()).as_str()));
                assert(text::texts(fields@) =~= seq![
                    shown_field("mode"@, debug_str_text(mode@)),
                    shown_field("model"@, debug_str_text(model@)),
                    shown_field("version"@, debug_str_text(version@)),
                    shown_field("profile"@, debug_str_text(profile@)),
                ]);
                show_struct("Status", &fields)
            },
            Response::Error(e) => show_tuple("Error", debug_str(e.as_str()).as_str()),
        }
    }
}

// ─── Requests ────────────────────────────────────────────────────────────────

/// A text on its way through the backend.
#[derive(Debug)]
pub struct Job {
    pub request_id: String,
    pub text: String,
    pub processor: TextProcessor,
    pub call: BackendCall,
}

/// What has to be done for a request.
#[derive(Debug)]
pub enum Step {
    /// Send the answer.
    Reply(Response),
    /// Have the backend process a text, and answer with [`finish_process`].
    Forward(Job),
    /// Save the state, and answer with [`finish_set_mode`].
    Save(PersistentState),
}

/// What the daemon reports of itself.
pub open spec fn status_of(s: AppStateView) -> ResponseView {
    ResponseView::Status {
        mode: s.active_profile.mode_name(),
        model: s.model(),
        version: VERSION@,
        profile: s.active_profile.name(),
    }
}

/// The state after a request.
pub open spec fn after_request(s: AppStateView, r: RequestView) -> AppStateView {
    match r {
        RequestView::SetMode { mode } => match modes::profile_of_mode(mode) {
            Some(p) => AppStateView { active_profile: p, ..s },
            None => s,
        },
        RequestView::SetModel { model } => AppStateView { override_model: Some(model), ..s },
        RequestView::Process { .. } => s,
        RequestView::GetStatus => s,
    }
}

/// `step` is what a request in state `s` asks for.
pub open spec fn is_step_for(s: AppStateView, r: RequestView, step: Step) -> bool {
    match r {
        RequestView::Process { text, request_id, profile } => step matches Step::Forward(job) && {
            let p = match profile {
                Some(p) => p,
                None => s.active_profile,
            };
            &&& job.text@ == text
            &&& job.request_id@ == match request_id {
                Some(id) => id,
                None => "unknown-request"@,
            }
            &&& job.processor == s.processor
            &&& job.call.model@ == s.model()
            &&& job.call.prompt@ == modes::prompt(text + p.instruction())
            &&& job.call.keep_alive_secs == s.processor.keep_alive_secs
        },
        RequestView::SetMode { mode } => match modes::profile_of_mode(mode) {
            Some(p) => step matches Step::Save(saved) && saved.profile@ == p,
            None => step matches Step::Reply(answer) && answer@ == ResponseView::Error(
                "unsupported mode: "@ + mode,
            ),
        },
        RequestView::SetModel { model } => step matches Step::Reply(answer) && answer@
            == ResponseView::ModelChanged { model },
        RequestView::GetStatus => step matches Step::Reply(answer) && answer@ == status_of(s),
    }
}

/// Takes a request. The mode is changed even if it cannot be saved afterwards.
pub fn handle_request(request: Request, state: &mut AppState) -> (res: Step)
    ensures
        final(state)@ == after_request(old(state)@, request@),
        is_step_for(old(state)@, request@, res),
{
    match request {
        Request::Process { text, request_id, profile } => {
            let request_id = match request_id {
                Some(id) => id,
                None => "unknown-request".to_owned(),
            };
            let profile = match profile {
                Some(p) => p,
                None => state.active_profile.clone(),
            };
            let processor = state.processor.clone();
            let call = processor.process_inner(
                text.as_str(),
                opt_str(&state.override_model),
                &profile,
            );
            Step::Forward(Job { request_id, text, processor, call })
        },
        Request::SetMode { mode } => match Profile::from_mode(mode.as_str()) {
            Ok(profile) => Step::Save(state.set_mode(profile)),
            Err(message) => Step::Reply(Response::Error(message)),
        },
        Request::SetModel { model } => {
            state.override_model = Some(model.clone());
            Step::Reply(Response::ModelChanged { model })
        },
        Request::GetStatus => Step::Reply(
            Response::Status {
                mode: state.mode(),
                model: state.model(),
                version: VERSION.to_owned(),
                profile: state.active_profile.name(),
            },
        ),
    }
}

/// The answer to a request to process a text, given what became of the call to the
/// backend.
pub open spec fn processed_answer(
    input: Seq<char>,
    outcome: Result<String, BackendError>,
) -> ResponseView {
    ResponseView::Text(processor::typed_text(input, outcome))
}

/// The answer to a request to process a text, given what became of the call to
/// the backend.
pub fn finish_process(job: &Job, outcome: Result<String, BackendError>) -> (res: Response)
    ensures
        res@ == ResponseView::Text(processor::typed_text(job.text@, outcome)),
        res@ == processed_answer(job.text@, outcome),
{
    Response::Text(job.processor.process(job.text.as_str(), outcome))
}

/// The answer to a request to change the mode, given whether the new state could be
/// saved.
pub open spec fn set_mode_answer(p: ProfileView, saved: Result<(), ConfigError>) -> ResponseView {
    match saved {
        Ok(_) => ResponseView::ModeChanged { mode: p.mode_name() },
        Err(e) => ResponseView::Error("failed to persist mode: "@ + e.message_of()),
    }
}

/// The answer to a request to change the mode, given whether the new state could
/// be saved.
pub fn finish_set_mode(state: &PersistentState, saved: Result<(), ConfigError>) -> (res: Response)
    ensures
        res@ == set_mode_answer(state.profile@, saved),
{
    match saved {
        Ok(_) => Response::ModeChanged { mode: state.profile.mode_name() },
        Err(e) => {
            let mut message = "failed to persist mode: ".to_owned();
            message.append(e.message().as_str());
            Response::Error(message)
        },
    }
}

// ─── Connections ─────────────────────────────────────────────────────────────

/// The answer to a line that is no request.
pub open spec fn invalid_request(e: Seq<char>) -> ResponseView {
    ResponseView::Error("invalid request: "@ + e)
}

/// The answer to a line that is no request.
fn refuse_line(e: &str) -> (res: Response)
    ensures
        res@ == invalid_request(e@),
{
    let mut message = "invalid request: ".to_owned();
    message.append(e);
    Response::Error(message)
}

/// The state after a line that a client sent.
pub open spec fn after_line(s: AppStateView, line: Result<Request, String>) -> AppStateView {
    match line {
        Ok(request) => after_request(s, request@),
        Err(_) => s,
    }
}

/// `step` is what a line in state `s` asks for.
pub open spec fn is_step_for_line(
    s: AppStateView,
    line: Result<Request, String>,
    step: Step,
) -> bool {
    match line {
        Ok(request) => is_step_for(s, request@, step),
        Err(e) => step matches Step::Reply(answer) && answer@ == invalid_request(e@),
    }
}

/// Takes a line that a client sent: the request in it, or what is wrong with it.
pub fn handle_connection(line: Result<Request, String>, state: &mut AppState) -> (res: Step)
    ensures
        final(state)@ == after_line(old(state)@, line),
        is_step_for_line(old(state)@, line, res),
{
    match line {
        Ok(request) => handle_request(request, state),
        Err(e) => Step::Reply(refuse_line(e.as_str())),
    }
}

/// The answer to a line if the state cannot be locked.
pub open spec fn locked_out_answer(line: Result<Request, String>) -> ResponseView {
    match line {
        Err(e) => invalid_request(e@),
        Ok(Request::SetMode { mode }) => match modes::profile_of_mode(mode@) {
            Some(_) => ResponseView::Error("failed to lock app state"@),
            None => ResponseView::Error("unsupported mode: "@ + mode@),
        },
        Ok(_) => ResponseView::Error("failed to lock app state"@),
    }
}

/// The answer to a line if the state cannot be locked. What is refused without a look
/// at the state is refused all the same.
pub fn lock_failed(line: &Result<Request, String>) -> (res: Response)
    ensures
        res@ == match line {
            Err(e) => invalid_request(e@),
            Ok(Request::SetMode { mode }) => match modes::profile_of_mode(mode@) {
                Some(_) => ResponseView::Error("failed to lock app state"@),
                None => ResponseView::Error("unsupported mode: "@ + mode@),
            },
            Ok(_) => ResponseView::Error("failed to lock app state"@),
        },
        res@ == locked_out_answer(*line),
{
    match line {
        Err(e) => refuse_line(e.as_str()),
        Ok(Request::SetMode { mode }) => match Profile::from_mode(mode.as_str()) {
            Ok(_) => Response::Error("failed to lock app state".to_owned()),
            Err(message) => Response::Error(message),
        },
        Ok(_) => Response::Error("failed to lock app state".to_owned()),
    }
}

/// What happened on a connection.
#[derive(Debug)]
pub enum ConnectionEvent {
    /// A client connected.
    Opened,
    /// A line came, or the end of the stream, or a failure.
    Read(Result<Option<String>, String>),
    /// The line is answered.
    Answered(Response),
    /// The answer was written and flushed, or could not be.
    Written(Result<(), String>),
}

/// What is done next on a connection.
#[derive(Debug)]
pub enum ConnectionAction {
    /// Read the next line.
    ReadLine,
    /// Decode the line, hand it to [`handle_connection`], and do what that asks for.
    Handle(String),
    /// Write this text and flush it.
    Write(String),
    /// The connection is over.
    Finish(Result<(), DaemonError>),
}

/// What a [`ConnectionAction`] holds.
pub enum ConnectionActionView {
    ReadLine,
    Handle(Seq<char>),
    Write(Seq<char>),
    Finish(Result<(), DaemonError>),
}

impl View for ConnectionAction {
    type V = ConnectionActionView;

    open spec fn view(&self) -> ConnectionActionView {
        match self {
            ConnectionAction::ReadLine => ConnectionActionView::ReadLine,
            ConnectionAction::Handle(line) => ConnectionActionView::Handle(line@),
            ConnectionAction::Write(out) => ConnectionActionView::Write(out@),
            ConnectionAction::Finish(result) => ConnectionActionView::Finish(*result),
        }
    }
}

/// What is done next on a connection.
pub open spec fn connection_action(event: ConnectionEvent) -> ConnectionActionView {
    match event {
        ConnectionEvent::Opened => ConnectionActionView::ReadLine,
        ConnectionEvent::Read(Ok(Some(line))) => ConnectionActionView::Handle(line@),
        ConnectionEvent::Read(Ok(None)) => ConnectionActionView::Finish(Ok(())),
        ConnectionEvent::Read(Err(e)) => ConnectionActionView::Finish(Err(DaemonError::Io(e))),
        ConnectionEvent::Answered(answer) => ConnectionActionView::Write(
            response_text(answer@) + "\n"@,
        ),
        ConnectionEvent::Written(Ok(_)) => ConnectionActionView::ReadLine,
        ConnectionEvent::Written(Err(e)) => ConnectionActionView::Finish(Err(DaemonError::Io(e))),
    }
}

/// What is done next on a connection.
pub fn serve_connection(event: ConnectionEvent) -> (res: ConnectionAction)
    ensures
        res@ == connection_action(event),
{
    match event {
        ConnectionEvent::Opened => ConnectionAction::ReadLine,
        ConnectionEvent::Read(Ok(Some(line))) => ConnectionAction::Handle(line),
        ConnectionEvent::Read(Ok(None)) => ConnectionAction::Finish(Ok(())),
        ConnectionEvent::Read(Err(e)) => ConnectionAction::Finish(Err(DaemonError::Io(e))),
        ConnectionEvent::Answered(answer) => ConnectionAction::Write(answer.frame()),
        ConnectionEvent::Written(Ok(_)) => ConnectionAction::ReadLine,
        ConnectionEvent::Written(Err(e)) => ConnectionAction::Finish(Err(DaemonError::Io(e))),
    }
}

// ─── The daemon ──────────────────────────────────────────────────────────────

/// What stopped the daemon.
#[derive(Debug)]
pub enum DaemonError {
    Io(String),
    Config(ConfigError),
    Processor(BackendError),
    Json(String),
}

impl DaemonError {
    /// The error in words.
    pub open spec fn message_of(self) -> Seq<char> {
        match self {
            DaemonError::Io(e) => "io error: "@ + e@,
            DaemonError::Config(e) => "config error: "@ + e.message_of(),
            DaemonError::Processor(e) => "processor error: "@ + e.message_of(),
            DaemonError::Json(e) => "json error: "@ + e@,
        }
    }

    /// The error in words.
    pub fn message(&self) -> (res: String)
        ensures
            res@ == self.message_of(),
    {
        match self {
            DaemonError::Io(e) => {
                let mut res = "io error: ".to_owned();
                res.append(e.as_str());
                res
            },
            DaemonError::Config(e) => {
                let mut res = "config error: ".to_owned();
                res.append(e.message().as_str());
                res
            },
            DaemonError::Processor(e) => {
                let mut res = "processor error: ".to_owned();
                res.append(e.message().as_str());
                res
            },
            DaemonError::Json(e) => {
                let mut res = "json error: ".to_owned();
                res.append(e.as_str());
                res
            },
        }
    }
}

/// The daemon's socket, from the values of `XDG_RUNTIME_DIR` and `UID`.
pub open spec fn socket_path_of(
    runtime_dir: Option<Seq<char>>,
    uid: Option<Seq<char>>,
) -> Seq<char> {
    match runtime_dir {
        Some(dir) if dir.len() > 0 => text::path_join(dir, "e-voice.sock"@),
        _ => "/tmp/e-voice-"@ + (match uid {
            Some(id) => id,
            None => "unknown"@,
        }) + ".sock"@,
    }
}

/// The daemon's socket, from the values of `XDG_RUNTIME_DIR` and `UID`.
pub fn socket_path(runtime_dir: Option<&str>, uid: Option<&str>) -> (res: Result<
    String,
    DaemonError,
>)
    ensures
        res matches Ok(path) && path@ == socket_path_of(
            text::opt_text(runtime_dir),
            text::opt_text(uid),
        ),
{
    if let Some(dir) = runtime_dir {
        if !dir.is_empty() {
            return Ok(strings::path_join(dir, "e-voice.sock"));
        }
    }
    let mut path = "/tmp/e-voice-".to_owned();
    match uid {
        Some(id) => path.append(id),
        None => path.append("unknown"),
    }
    path.append(".sock");
    Ok(path)
}

/// The state of a daemon that starts with a configuration and a profile.
pub open spec fn is_new_state(s: AppStateView, config: AppConfig, profile: ProfileView) -> bool {
    s.override_model is None && s.active_profile == profile && s.processor.is_for(config)
}

/// The daemon: where it listens and what it knows.
#[derive(Debug)]
pub struct Daemon {
    pub socket_path: String,
    pub state: AppState,
}

/// How far the daemon has come.
#[derive(Debug, Clone, Copy, PartialEq, Eq, Structural)]
pub enum DaemonPhase {
    Starting,
    Binding,
    Listening,
    Ended,
}

/// What happened to the daemon.
#[derive(Debug)]
pub enum DaemonEvent {
    /// Whether something stands at the path of the socket.
    SocketExists(bool),
    /// A stale socket was removed, or could not be.
    Removed(Result<(), String>),
    /// The socket was bound, or could not be.
    Bound(Result<(), String>),
    /// A client connected, or accepting it failed.
    Accepted(Result<(), String>),
    /// The shutdown flag was touched. `watched` says whether somebody still holds
    /// the other end of it, and `requested` what it says.
    ShutdownChanged { watched: bool, requested: bool },
}

/// What the daemon does next.
#[derive(Debug)]
pub enum DaemonAction {
    /// Remove what stands at the path of the socket.
    RemoveStale,
    /// Bind the socket.
    Bind,
    /// Wait for a client or for the shutdown flag.
    Wait,
    /// Serve the client that connected, and wait for the next event.
    Serve,
    /// Remove the socket and end.
    CleanUp,
    /// End with an error.
    Fail(DaemonError),
    /// Nothing: the event does not belong to the phase.
    Ignore,
}

/// `action` ends the daemon with the given failure.
pub open spec fn fails_with(action: DaemonAction, e: String) -> bool {
    action == DaemonAction::Fail(DaemonError::Io(e))
}

/// One turn of the daemon's life: its next phase, and what it does.
pub open spec fn daemon_turn(phase: DaemonPhase, event: DaemonEvent) -> (
    DaemonPhase,
    DaemonAction,
) {
    match (phase, event) {
        (DaemonPhase::Starting, DaemonEvent::SocketExists(exists)) => if exists {
            (DaemonPhase::Starting, DaemonAction::RemoveStale)
        } else {
            (DaemonPhase::Binding, DaemonAction::Bind)
        },
        (DaemonPhase::Starting, DaemonEvent::Removed(Ok(_))) => (
            DaemonPhase::Binding,
            DaemonAction::Bind,
        ),
        (DaemonPhase::Binding, DaemonEvent::Bound(Ok(_))) => (
            DaemonPhase::Listening,
            DaemonAction::Wait,
        ),
        (DaemonPhase::Listening, DaemonEvent::Accepted(Ok(_))) => (
            DaemonPhase::Listening,
            DaemonAction::Serve,
        ),
        (DaemonPhase::Starting, DaemonEvent::Removed(Err(e))) => (
            DaemonPhase::Ended,
            DaemonAction::Fail(DaemonError::Io(e)),
        ),
        (DaemonPhase::Binding, DaemonEvent::Bound(Err(e))) => (
            DaemonPhase::Ended,
            DaemonAction::Fail(DaemonError::Io(e)),
        ),
        (DaemonPhase::Listening, DaemonEvent::Accepted(Err(e))) => (
            DaemonPhase::Ended,
            DaemonAction::Fail(DaemonError::Io(e)),
        ),
        (DaemonPhase::Listening, DaemonEvent::ShutdownChanged { watched, requested }) => if watched
            && requested {
            (DaemonPhase::Ended, DaemonAction::CleanUp)
        } else {
            (DaemonPhase::Listening, DaemonAction::Wait)
        },
        _ => (phase, DaemonAction::Ignore),
    }
}

impl Daemon {
    /// The daemon for a configuration and what was saved before the last end.
    pub fn new(
        config: AppConfig,
        saved: PersistentState,
        runtime_dir: Option<&str>,
        uid: Option<&str>,
    ) -> (res: Result<Daemon, DaemonError>)
        ensures
            res matches Ok(daemon) && {
                &&& daemon.socket_path@ == socket_path_of(
                    text::opt_text(runtime_dir),
                    text::opt_text(uid),
                )
                &&& daemon.state@.override_model is None
                &&& daemon.state@.active_profile == saved.profile@
                &&& daemon.state@.processor.backend.server() == (
                    config.llm.backend,
                    config.llm.url@,
                )
                &&& daemon.state@.processor.default_model@ == config.llm.model@
                &&& daemon.state@.processor.keep_alive_secs == config.llm.keep_alive_secs
                &&& is_new_state(daemon.state@, config, saved.profile@)
            },
    {
        let path = socket_path(runtime_dir, uid)?;
        Ok(Daemon::new_with_socket_path(config, saved, path))
    }

    /// The same, with a given socket.
    pub fn new_with_socket_path(
        config: AppConfig,
        saved: PersistentState,
        socket_path: String,
    ) -> (res: Daemon)
        ensures
            res.socket_path == socket_path,
            res.state@.override_model is None,
            res.state@.active_profile == saved.profile@,
            res.state@.processor.backend.server() == (config.llm.backend, config.llm.url@),
            res.state@.processor.default_model@ == config.llm.model@,
            res.state@.processor.keep_alive_secs == config.llm.keep_alive_secs,
            is_new_state(res.state@, config, saved.profile@),
    {
        let processor = TextProcessor::new(config);
        Daemon { socket_path, state: AppState::new(processor, saved.profile) }
    }

    /// The state that the connections share.
    pub fn shared_state(self) -> (res: AppState)
        ensures
            res == self.state,
    {
        self.state
    }

    /// One turn of the daemon's life.
    pub fn run(phase: DaemonPhase, event: DaemonEvent) -> (res: (DaemonPhase, DaemonAction))
        ensures
            match (phase, event) {
                (DaemonPhase::Starting, DaemonEvent::SocketExists(true)) => res == (
                    DaemonPhase::Starting,
                    DaemonAction::RemoveStale,
                ),
                (DaemonPhase::Starting, DaemonEvent::SocketExists(false)) => res == (
                    DaemonPhase::Binding,
                    DaemonAction::Bind,
                ),
                (DaemonPhase::Starting, DaemonEvent::Removed(Ok(_))) => res == (
                    DaemonPhase::Binding,
                    DaemonAction::Bind,
                ),
                (DaemonPhase::Starting, DaemonEvent::Removed(Err(e))) => res.0
                    == DaemonPhase::Ended && fails_with(res.1, e),
                (DaemonPhase::Binding, DaemonEvent::Bound(Ok(_))) => res == (
                    DaemonPhase::Listening,
                    DaemonAction::Wait,
                ),
                (DaemonPhase::Binding, DaemonEvent::Bound(Err(e))) => res.0 == DaemonPhase::Ended
                    && fails_with(res.1, e),
                (DaemonPhase::Listening, DaemonEvent::Accepted(Ok(_))) => res == (
                    DaemonPhase::Listening,
                    DaemonAction::Serve,
                ),
                (DaemonPhase::Listening, DaemonEvent::Accepted(Err(e))) => res.0
                    == DaemonPhase::Ended && fails_with(res.1, e),
                (
                    DaemonPhase::Listening,
                    DaemonEvent::ShutdownChanged { watched, requested },
                ) => res == if watched && requested {
                    (DaemonPhase::Ended, DaemonAction::CleanUp)
                } else {
                    (DaemonPhase::Listening, DaemonAction::Wait)
                },
                _ => res == (phase, DaemonAction::Ignore),
            },
            res == daemon_turn(phase, event),
    {
        match (phase, event) {
            (DaemonPhase::Starting, DaemonEvent::SocketExists(exists)) => if exists {
                (DaemonPhase::Starting, DaemonAction::RemoveStale)
            } else {
                (DaemonPhase::Binding, DaemonAction::Bind)
            },
            (DaemonPhase::Starting, DaemonEvent::Removed(removed)) => match removed {
                Ok(_) => (DaemonPhase::Binding, DaemonAction::Bind),
                Err(e) => (DaemonPhase::Ended, DaemonAction::Fail(DaemonError::Io(e))),
            },
            (DaemonPhase::Binding, DaemonEvent::Bound(bound)) => match bound {
                Ok(_) => (DaemonPhase::Listening, DaemonAction::Wait),
                Err(e) => (DaemonPhase::Ended, DaemonAction::Fail(DaemonError::Io(e))),
            },
            (DaemonPhase::Listening, DaemonEvent::Accepted(accepted)) => match accepted {
                Ok(_) => (DaemonPhase::Listening, DaemonAction::Serve),
                Err(e) => (DaemonPhase::Ended, DaemonAction::Fail(DaemonError::Io(e))),
            },
            (DaemonPhase::Listening, DaemonEvent::ShutdownChanged { watched, requested }) => {
                if watched && requested {
                    (DaemonPhase::Ended, DaemonAction::CleanUp)
                } else {
                    (DaemonPhase::Listening, DaemonAction::Wait)
                }
            },
            _ => (phase, DaemonAction::Ignore),
        }
    }
}

// ─── Laws ────────────────────────────────────────────────────────────────────

/// A model that was set is the one that is reported and used from then on.
pub proof fn law_set_model_is_reported(s: AppStateView, model: Seq<char>)
    ensures
        ({
            let t = after_request(s, RequestView::SetModel { model });
            &&& status_of(t) == (ResponseView::Status {
                mode: s.active_profile.mode_name(),
                model: model,
                version: VERSION@,
                profile: s.active_profile.name(),
            })
            &&& forall|input: Seq<char>, id: Option<Seq<char>>, p: Option<ProfileView>, step: Step|
                #[trigger] is_step_for(
                    t,
                    RequestView::Process { text: input, request_id: id, profile: p },
                    step,
                ) ==> step->Forward_0.call.model@ == model
        }),
{
}

/// A mode that was accepted is the one that is reported from then on, and its
/// profile is the one that texts without a profile are processed with.
pub proof fn law_set_mode_is_reported(s: AppStateView, mode: Seq<char>, p: ProfileView)
    requires
        modes::profile_of_mode(mode) == Some(p),
    ensures
        ({
            let t = after_request(s, RequestView::SetMode { mode });
            &&& status_of(t) == (ResponseView::Status {
                mode: p.mode_name(),
                model: s.model(),
                version: VERSION@,
                profile: p.name(),
            })
            &&& forall|input: Seq<char>, id: Option<Seq<char>>, step: Step|
                #[trigger] is_step_for(
                    t,
                    RequestView::Process { text: input, request_id: id, profile: None },
                    step,
                ) ==> step->Forward_0.call.prompt@ == modes::prompt(input + p.instruction())
        }),
{
}

/// The reported mode, set again, changes nothing.
pub proof fn law_reported_mode_is_accepted(s: AppStateView)
    ensures
        after_request(s, RequestView::SetMode { mode: s.active_profile.mode_name() }) == s,
{
    modes::law_mode_roundtrip(s.active_profile);
}

/// A mode that was set is the one that the daemon starts with the next time: what
/// has to be saved names the mode's profile, and the name is understood again.
pub proof fn law_mode_survives_restart(s: AppStateView, mode: Seq<char>, p: ProfileView, step: Step)
    requires
        modes::profile_of_mode(mode) == Some(p),
        is_step_for(s, RequestView::SetMode { mode }, step),
    ensures
        step is Save,
        modes::profile_named(step->Save_0.profile@.name()) == Some(p),
{
    modes::law_name_roundtrip(p);
}

/// A mode that is refused, a text that is processed and a question for the status
/// change nothing.
pub proof fn law_other_requests_change_nothing(s: AppStateView, r: RequestView)
    requires
        match r {
            RequestView::Process { .. } => true,
            RequestView::GetStatus => true,
            RequestView::SetMode { mode } => modes::profile_of_mode(mode) is None,
            RequestView::SetModel { .. } => false,
        },
    ensures
        after_request(s, r) == s,
{
}

/// Messages that are single lines are found again in the stream they are sent in,
/// each as a line of its own.
pub proof fn law_one_message_per_line(messages: Seq<Seq<char>>)
    requires
        forall|i: int|
            0 <= i < messages.len() ==> text::free_of(#[trigger] messages[i], '\n')
                && messages[i].len() > 0 && messages[i].last() == '}',
    ensures
        text::lines(text::unlines(messages)) == messages,
{
    let f = |line: Seq<char>| text::strip_cr(line);
    text::lemma_lines_of_unlines(messages);
    assert(messages.map_values(f) =~= messages);
}

/// A message with the end of the line behind it is read as one line, which is the
/// message.
pub proof fn law_frame_is_one_line(message: Seq<char>)
    requires
        text::free_of(message, '\n'),
        message.len() > 0,
        message.last() == '}',
    ensures
        text::lines(message + "\n"@) == seq![message],
{
    law_one_message_per_line(seq![message]);
    reveal_strlit("\n");
    reveal_with_fuel(text::unlines, 2);
    assert(text::unlines(seq![message]) =~= message + "\n"@);
}

/// `answer` is one that a step can end with: the reply itself, or what comes of it
/// whatever the backend does, or whether or not the state can be saved.
pub open spec fn is_answer_of(step: Step, answer: ResponseView) -> bool {
    match step {
        Step::Reply(reply) => answer == reply@,
        Step::Forward(job) => exists|outcome: Result<String, BackendError>|
            answer == ResponseView::Text(#[trigger] processor::typed_text(job.text@, outcome)),
        Step::Save(state) => exists|saved: Result<(), ConfigError>|
            answer == #[trigger] set_mode_answer(state.profile@, saved),
    }
}

/// A line on a connection, what it was decoded to, the state that it was taken in,
/// what it asked for and how it was answered.
pub struct Exchange {
    pub raw: String,
    pub line: Result<Request, String>,
    pub before: AppStateView,
    pub step: Step,
    pub answer: Response,
}

impl Exchange {
    /// The line was taken and answered as it should be.
    pub open spec fn valid(self) -> bool {
        is_step_for_line(self.before, self.line, self.step) && is_answer_of(self.step, self.answer@)
    }
}

/// What happens on a connection on which these exchanges are made and nothing fails,
/// up to the end of the stream.
pub open spec fn connection_events(exchanges: Seq<Exchange>) -> Seq<ConnectionEvent>
    decreases exchanges.len(),
{
    if exchanges.len() == 0 {
        seq![ConnectionEvent::Opened]
    } else {
        connection_events(exchanges.drop_last()).push(
            ConnectionEvent::Read(Ok(Some(exchanges.last().raw))),
        ).push(ConnectionEvent::Answered(exchanges.last().answer)).push(
            ConnectionEvent::Written(Ok(())),
        )
    }
}

/// `event` can come of `action`.
pub open spec fn comes_of(action: ConnectionActionView, event: ConnectionEvent) -> bool {
    match action {
        ConnectionActionView::ReadLine => event is Read,
        ConnectionActionView::Handle(_) => event is Answered,
        ConnectionActionView::Write(_) => event is Written,
        ConnectionActionView::Finish(_) => false,
    }
}

/// The events are those of a connection: each comes of what was done for the one
/// before. So only what is done for the last one can end it.
pub open spec fn is_connection(events: Seq<ConnectionEvent>) -> bool {
    &&& events.len() > 0 && events[0] is Opened
    &&& forall|i: int|
        0 < i < events.len() ==> comes_of(
            connection_action(events[i - 1]),
            #[trigger] events[i],
        )
}

/// What is written on a connection.
pub open spec fn sent(events: Seq<ConnectionEvent>) -> Seq<char>
    decreases events.len(),
{
    if events.len() == 0 {
        Seq::empty()
    } else {
        sent(events.drop_last()) + match connection_action(events.last()) {
            ConnectionActionView::Write(out) => out,
            _ => Seq::empty(),
        }
    }
}

proof fn lemma_connection_push(events: Seq<ConnectionEvent>, event: ConnectionEvent)
    requires
        is_connection(events),
        comes_of(connection_action(events.last()), event),
    ensures
        is_connection(events.push(event)),
        sent(events.push(event)) == sent(events) + match connection_action(event) {
            ConnectionActionView::Write(out) => out,
            _ => Seq::empty(),
        },
{
    let all = events.push(event);
    assert(all.drop_last() =~= events);
    assert forall|i: int| 0 < i < all.len() implies comes_of(
        connection_action(all[i - 1]),
        #[trigger] all[i],
    ) by {
        if i < events.len() {
            assert(all[i] == events[i]);
            assert(all[i - 1] == events[i - 1]);
        } else {
            assert(all[i - 1] == events.last());
        }
    }
}

/// The texts of the answers, in order.
pub open spec fn answer_texts(exchanges: Seq<Exchange>) -> Seq<Seq<char>> {
    exchanges.map_values(|x: Exchange| response_text(x.answer@))
}

#[verifier::spinoff_prover]
proof fn lemma_connection(exchanges: Seq<Exchange>)
    ensures
        ({
            let events = connection_events(exchanges);
            &&& is_connection(events)
            &&& connection_action(events.last()) is ReadLine
            &&& sent(events) == text::unlines(answer_texts(exchanges))
        }),
    decreases exchanges.len(),
{
    if exchanges.len() == 0 {
        let events = connection_events(exchanges);
        assert(events.drop_last() =~= Seq::<ConnectionEvent>::empty());
        assert(sent(events.drop_last()) =~= Seq::<char>::empty());
        assert(sent(events) =~= Seq::<char>::empty());
        assert(answer_texts(exchanges) =~= Seq::<Seq<char>>::empty());
    } else {
        let x = exchanges.last();
        let texts = answer_texts(exchanges.drop_last());
        lemma_connection(exchanges.drop_last());
        lemma_exchange(connection_events(exchanges.drop_last()), x.raw, x.answer);
        text::lemma_unlines_push(texts, response_text(x.answer@));
        assert(answer_texts(exchanges) =~= texts.push(response_text(x.answer@)));
    }
}

/// A line that comes on a connection, its answer, and that this was written.
#[verifier::spinoff_prover]
proof fn lemma_exchange(before: Seq<ConnectionEvent>, raw: String, answer: Response)
    requires
        is_connection(before),
        connection_action(before.last()) is ReadLine,
    ensures
        ({
            let after = before.push(ConnectionEvent::Read(Ok(Some(raw)))).push(
                ConnectionEvent::Answered(answer),
            ).push(ConnectionEvent::Written(Ok(())));
            &&& is_connection(after)
            &&& connection_action(after.last()) is ReadLine
            &&& sent(after) == sent(before) + response_text(answer@) + seq!['\n']
        }),
{
    let read = before.push(ConnectionEvent::Read(Ok(Some(raw))));
    let answered = read.push(ConnectionEvent::Answered(answer));
    lemma_connection_push(before, ConnectionEvent::Read(Ok(Some(raw))));
    assert(read.last() == ConnectionEvent::Read(Ok(Some(raw))));
    lemma_connection_push(read, ConnectionEvent::Answered(answer));
    assert(answered.last() == ConnectionEvent::Answered(answer));
    lemma_connection_push(answered, ConnectionEvent::Written(Ok(())));
    lemma_sent_line(sent(before), response_text(answer@));
}

/// A line behind what was sent, after nothing and before nothing.
proof fn lemma_sent_line(before: Seq<char>, line: Seq<char>)
    ensures
        before + Seq::empty() + (line + "\n"@) + Seq::empty() == before + line + seq!['\n'],
{
    reveal_strlit("\n");
    assert("\n"@ =~= seq!['\n']);
    assert(before + Seq::empty() + (line + "\n"@) + Seq::empty() =~= before + line + seq!['\n']);
}

/// A client that sends some lines and then ends gets as many lines back, in order: the
/// answer to each line, or what is wrong with it if it is no request. No line ends the
/// connection, and the end of the stream ends it well. Other clients may change the
/// state between two lines.
pub proof fn law_every_line_is_answered(exchanges: Seq<Exchange>)
    requires
        forall|i: int| 0 <= i < exchanges.len() ==> (#[trigger] exchanges[i]).valid(),
    ensures
        ({
            let events = connection_events(exchanges).push(ConnectionEvent::Read(Ok(None)));
            &&& is_connection(events)
            &&& connection_action(events.last()) == ConnectionActionView::Finish(Ok(()))
            &&& text::lines(sent(events)) == answer_texts(exchanges)
        }),
        forall|i: int|
            0 <= i < exchanges.len() ==> match (#[trigger] exchanges[i]).line {
                Ok(request) => is_step_for(
                    exchanges[i].before,
                    request@,
                    exchanges[i].step,
                ) && is_answer_of(exchanges[i].step, exchanges[i].answer@),
                Err(e) => exchanges[i].answer@ == invalid_request(e@),
            },
{
    lemma_connection(exchanges);
    lemma_connection_push(connection_events(exchanges), ConnectionEvent::Read(Ok(None)));
    let texts = answer_texts(exchanges);
    assert forall|i: int| 0 <= i < texts.len() implies text::free_of(#[trigger] texts[i], '\n')
        && texts[i].len() > 0 && texts[i].last() == '}' by {
        lemma_response_is_line(exchanges[i].answer@);
    }
    law_one_message_per_line(texts);
    assert(sent(connection_events(exchanges).push(ConnectionEvent::Read(Ok(None)))) =~= sent(
        connection_events(exchanges),
    ));
}

// ─── Laws of the protocol ────────────────────────────────────────────────────

/// The request to process a text that the members of an object are. A request without
/// an id or a profile has none, and a profile is given by its name.
pub open spec fn decoded_process(members: Seq<(Seq<char>, JsonValue)>) -> Option<RequestView> {
    let id = json_reader::lookup_str(members, "request_id"@);
    let name = json_reader::lookup_str(members, "profile"@);
    match json_reader::lookup_str(members, "text"@) {
        Some(input) => if id is None && !json_reader::is_absent(members, "request_id"@) {
            None
        } else if name matches Some(n) && modes::profile_named(n) is None {
            None
        } else if name is None && !json_reader::is_absent(members, "profile"@) {
            None
        } else {
            Some(
                RequestView::Process {
                    text: input,
                    request_id: id,
                    profile: match name {
                        Some(n) => modes::profile_named(n),
                        None => None,
                    },
                },
            )
        },
        None => None,
    }
}

/// The request that a line is.
pub open spec fn decoded_request(line: Seq<char>) -> Option<RequestView> {
    match json_reader::read_object(line) {
        Some(members) => match json_reader::lookup_str(members, "type"@) {
            Some(tag) => if tag == "process"@ {
                decoded_process(members)
            } else if tag == "set_mode"@ {
                match json_reader::lookup_str(members, "mode"@) {
                    Some(mode) => Some(RequestView::SetMode { mode }),
                    None => None,
                }
            } else if tag == "set_model"@ {
                match json_reader::lookup_str(members, "model"@) {
                    Some(model) => Some(RequestView::SetModel { model }),
                    None => None,
                }
            } else if tag == "get_status"@ {
                Some(RequestView::GetStatus)
            } else {
                None
            },
            None => None,
        },
        None => None,
    }
}

/// The answer that a tag and a payload are.
pub open spec fn decoded_answer(tag: Seq<char>, payload: JsonValue) -> Option<ResponseView> {
    match payload {
        JsonValue::Str(t) => if tag == "text"@ {
            Some(ResponseView::Text(t))
        } else if tag == "error"@ {
            Some(ResponseView::Error(t))
        } else {
            None
        },
        JsonValue::Object(members) => {
            let mode = json_reader::lookup_str(members, "mode"@);
            let model = json_reader::lookup_str(members, "model"@);
            let version = json_reader::lookup_str(members, "version"@);
            let profile = json_reader::lookup_str(members, "profile"@);
            if tag == "mode_changed"@ && mode is Some {
                Some(ResponseView::ModeChanged { mode: mode->0 })
            } else if tag == "model_changed"@ && model is Some {
                Some(ResponseView::ModelChanged { model: model->0 })
            } else if tag == "status"@ && mode is Some && model is Some && version is Some
                && profile is Some {
                Some(
                    ResponseView::Status {
                        mode: mode->0,
                        model: model->0,
                        version: version->0,
                        profile: profile->0,
                    },
                )
            } else {
                None
            }
        },
        _ => None,
    }
}

/// The answer that a line is.
pub open spec fn decoded_response(line: Seq<char>) -> Option<ResponseView> {
    match json_reader::read_object(line) {
        Some(members) => match (
            json_reader::lookup_str(members, "type"@),
            json_reader::lookup(members, "payload"@),
        ) {
            (Some(tag), Some(payload)) => decoded_answer(tag, payload),
            _ => None,
        },
        None => None,
    }
}

/// The keys of the protocol are different, and need no escapes.
proof fn lemma_keys()
    ensures
        json_reader::plain_key("type"@),
        json_reader::plain_key("text"@),
        json_reader::plain_key("request_id"@),
        json_reader::plain_key("profile"@),
        json_reader::plain_key("mode"@),
        json_reader::plain_key("model"@),
        json_reader::plain_key("version"@),
        json_reader::plain_key("payload"@),
        "type"@ != "text"@,
        "type"@ != "request_id"@,
        "type"@ != "profile"@,
        "type"@ != "mode"@,
        "type"@ != "model"@,
        "type"@ != "payload"@,
        "text"@ != "request_id"@,
        "text"@ != "profile"@,
        "request_id"@ != "profile"@,
        "mode"@ != "model"@,
        "mode"@ != "version"@,
        "mode"@ != "profile"@,
        "model"@ != "version"@,
        "model"@ != "profile"@,
        "version"@ != "profile"@,
{
    reveal_strlit("type");
    reveal_strlit("text");
    reveal_strlit("request_id");
    reveal_strlit("profile");
    reveal_strlit("mode");
    reveal_strlit("model");
    reveal_strlit("version");
    reveal_strlit("payload");
    assert("type"@.len() == 4 && "text"@.len() == 4 && "mode"@.len() == 4);
    assert("request_id"@.len() == 10 && "model"@.len() == 5);
    assert("profile"@.len() == 7 && "version"@.len() == 7 && "payload"@.len() == 7);
    assert("type"@[1] == 'y' && "text"@[1] == 'e');
    assert("type"@[0] == 't' && "mode"@[0] == 'm');
    assert("version"@[0] == 'v' && "profile"@[0] == 'p');
}

/// The tags of requests are different, need no escapes, and stand in quotes.
proof fn lemma_request_tags()
    ensures
        json_reader::reads_as("\"process\""@, JsonValue::Str("process"@)),
        json_reader::reads_as("\"set_mode\""@, JsonValue::Str("set_mode"@)),
        json_reader::reads_as("\"set_model\""@, JsonValue::Str("set_model"@)),
        json_reader::reads_as("\"get_status\""@, JsonValue::Str("get_status"@)),
        "process"@ != "set_mode"@,
        "process"@ != "set_model"@,
        "process"@ != "get_status"@,
        "set_mode"@ != "set_model"@,
        "set_mode"@ != "get_status"@,
        "set_model"@ != "get_status"@,
{
    reveal_strlit("\"");
    reveal_strlit("process");
    reveal_strlit("set_mode");
    reveal_strlit("set_model");
    reveal_strlit("get_status");
    reveal_strlit("\"process\"");
    reveal_strlit("\"set_mode\"");
    reveal_strlit("\"set_model\"");
    reveal_strlit("\"get_status\"");
    assert("\"process\""@ =~= "\""@ + "process"@ + "\""@);
    assert("\"set_mode\""@ =~= "\""@ + "set_mode"@ + "\""@);
    assert("\"set_model\""@ =~= "\""@ + "set_model"@ + "\""@);
    assert("\"get_status\""@ =~= "\""@ + "get_status"@ + "\""@);
    json_reader::lemma_reads_as_quoted("\"process\""@, "process"@);
    json_reader::lemma_reads_as_quoted("\"set_mode\""@, "set_mode"@);
    json_reader::lemma_reads_as_quoted("\"set_model\""@, "set_model"@);
    json_reader::lemma_reads_as_quoted("\"get_status\""@, "get_status"@);
    assert("process"@.len() == 7 && "set_mode"@.len() == 8 && "set_model"@.len() == 9
        && "get_status"@.len() == 10);
}

proof fn lemma_process_is_read(
    input: Seq<char>,
    request_id: Option<Seq<char>>,
    profile: Option<ProfileView>,
)
    ensures
        decoded_request(
            request_text(RequestView::Process { text: input, request_id, profile }),
        ) == Some(RequestView::Process { text: input, request_id, profile }),
{
    let r = RequestView::Process { text: input, request_id, profile };
    let name = match profile {
        Some(p) => Some(p.name()),
        None => None,
    };
    let id_value = match request_id {
        Some(t) => JsonValue::Str(t),
        None => JsonValue::Plain("null"@),
    };
    let name_value = match name {
        Some(t) => JsonValue::Str(t),
        None => JsonValue::Plain("null"@),
    };
    let fields = seq![
        Field { key: "type"@, text: "\"process\""@, value: JsonValue::Str("process"@) },
        Field { key: "text"@, text: json::json_text(input), value: JsonValue::Str(input) },
        Field { key: "request_id"@, text: json::json_opt_text(request_id), value: id_value },
        Field { key: "profile"@, text: json::json_opt_text(name), value: name_value },
    ];
    lemma_keys();
    lemma_request_tags();
    json_reader::lemma_reads_as_str(input);
    json_reader::lemma_reads_as_opt(request_id);
    json_reader::lemma_reads_as_opt(name);
    assert(request_members(r) =~= json_reader::field_texts(fields));
    json_reader::lemma_read_object(fields);
    let members = json_reader::field_values(fields);
    assert(members =~= seq![
        ("type"@, JsonValue::Str("process"@)),
        ("text"@, JsonValue::Str(input)),
        ("request_id"@, id_value),
        ("profile"@, name_value),
    ]);
    reveal_with_fuel(json_reader::lookup, 5);
    assert(json_reader::lookup(members, "type"@) == Some(JsonValue::Str("process"@)));
    assert(json_reader::lookup(members, "text"@) == Some(JsonValue::Str(input)));
    assert(json_reader::lookup(members, "request_id"@) == Some(id_value));
    assert(json_reader::lookup(members, "profile"@) == Some(name_value));
    match profile {
        Some(p) => modes::law_name_roundtrip(p),
        None => {},
    }
}

proof fn lemma_set_mode_is_read(mode: Seq<char>)
    ensures
        decoded_request(request_text(RequestView::SetMode { mode })) == Some(
            RequestView::SetMode { mode },
        ),
{
    let fields = seq![
        Field { key: "type"@, text: "\"set_mode\""@, value: JsonValue::Str("set_mode"@) },
        Field { key: "mode"@, text: json::json_text(mode), value: JsonValue::Str(mode) },
    ];
    lemma_keys();
    lemma_request_tags();
    json_reader::lemma_reads_as_str(mode);
    assert(request_members(RequestView::SetMode { mode }) =~= json_reader::field_texts(fields));
    json_reader::lemma_read_object(fields);
    let members = json_reader::field_values(fields);
    assert(members =~= seq![("type"@, JsonValue::Str("set_mode"@)), ("mode"@, JsonValue::Str(mode))]);
    reveal_with_fuel(json_reader::lookup, 3);
    assert(json_reader::lookup(members, "type"@) == Some(JsonValue::Str("set_mode"@)));
    assert(json_reader::lookup(members, "mode"@) == Some(JsonValue::Str(mode)));
}

proof fn lemma_set_model_is_read(model: Seq<char>)
    ensures
        decoded_request(request_text(RequestView::SetModel { model })) == Some(
            RequestView::SetModel { model },
        ),
{
    let fields = seq![
        Field { key: "type"@, text: "\"set_model\""@, value: JsonValue::Str("set_model"@) },
        Field { key: "model"@, text: json::json_text(model), value: JsonValue::Str(model) },
    ];
    lemma_keys();
    lemma_request_tags();
    json_reader::lemma_reads_as_str(model);
    assert(request_members(RequestView::SetModel { model }) =~= json_reader::field_texts(fields));
    json_reader::lemma_read_object(fields);
    let members = json_reader::field_values(fields);
    assert(members =~= seq![
        ("type"@, JsonValue::Str("set_model"@)),
        ("model"@, JsonValue::Str(model)),
    ]);
    reveal_with_fuel(json_reader::lookup, 3);
    assert(json_reader::lookup(members, "type"@) == Some(JsonValue::Str("set_model"@)));
    assert(json_reader::lookup(members, "model"@) == Some(JsonValue::Str(model)));
}

proof fn lemma_get_status_is_read()
    ensures
        decoded_request(request_text(RequestView::GetStatus)) == Some(RequestView::GetStatus),
{
    let fields = seq![
        Field { key: "type"@, text: "\"get_status\""@, value: JsonValue::Str("get_status"@) },
    ];
    lemma_keys();
    lemma_request_tags();
    assert(request_members(RequestView::GetStatus) =~= json_reader::field_texts(fields));
    json_reader::lemma_read_object(fields);
    let members = json_reader::field_values(fields);
    assert(members =~= seq![("type"@, JsonValue::Str("get_status"@))]);
    assert(json_reader::lookup(members, "type"@) == Some(JsonValue::Str("get_status"@)));
}

/// A request is found again in its line, whatever it is. Its text, its id and its
/// profile are those that were sent, and where none was sent, none is found.
pub proof fn law_request_is_read_back(r: RequestView)
    ensures
        decoded_request(request_text(r)) == Some(r),
{
    match r {
        RequestView::Process { text, request_id, profile } => {
            lemma_process_is_read(text, request_id, profile);
        },
        RequestView::SetMode { mode } => lemma_set_mode_is_read(mode),
        RequestView::SetModel { model } => lemma_set_model_is_read(model),
        RequestView::GetStatus => lemma_get_status_is_read(),
    }
}

/// A line stands for one request: different requests have different lines.
pub proof fn law_line_determines_the_request(a: RequestView, b: RequestView)
    requires
        request_text(a) == request_text(b),
    ensures
        a == b,
{
    law_request_is_read_back(a);
    law_request_is_read_back(b);
}

proof fn lemma_tagged_is_read(tag: Seq<char>, payload: Seq<char>, value: JsonValue)
    requires
        json_reader::plain_key(tag),
        json_reader::reads_as(payload, value),
    ensures
        decoded_response(tagged_text(tag, payload)) == decoded_answer(tag, value),
{
    lemma_keys();
    let quoted = "\""@ + tag + "\""@;
    let fields = seq![
        Field { key: "type"@, text: quoted, value: JsonValue::Str(tag) },
        Field { key: "payload"@, text: payload, value: value },
    ];
    json_reader::lemma_reads_as_quoted(quoted, tag);
    assert(tagged_members(tag, payload) =~= json_reader::field_texts(fields));
    json_reader::lemma_read_object(fields);
    let members = json_reader::field_values(fields);
    assert(members =~= seq![("type"@, JsonValue::Str(tag)), ("payload"@, value)]);
    reveal_with_fuel(json_reader::lookup, 3);
    assert(json_reader::lookup(members, "type"@) == Some(JsonValue::Str(tag)));
    assert(json_reader::lookup(members, "payload"@) == Some(value));
}

/// The tags of answers are different, and need no escapes.
proof fn lemma_response_tags()
    ensures
        json_reader::plain_key("text"@),
        json_reader::plain_key("error"@),
        json_reader::plain_key("mode_changed"@),
        json_reader::plain_key("model_changed"@),
        json_reader::plain_key("status"@),
        "text"@ != "error"@,
        "mode_changed"@ != "model_changed"@,
        "mode_changed"@ != "status"@,
        "model_changed"@ != "status"@,
{
    reveal_strlit("text");
    reveal_strlit("error");
    reveal_strlit("mode_changed");
    reveal_strlit("model_changed");
    reveal_strlit("status");
    assert("text"@.len() == 4 && "error"@.len() == 5 && "mode_changed"@.len() == 12
        && "model_changed"@.len() == 13 && "status"@.len() == 6);
}

proof fn lemma_one_member_is_read(key: Seq<char>, value: Seq<char>)
    requires
        json_reader::plain_key(key),
    ensures
        json_reader::reads_as(
            json::object_text(seq![json::member_text(key, json::json_text(value))]),
            JsonValue::Object(seq![(key, JsonValue::Str(value))]),
        ),
{
    let fields = seq![Field { key, text: json::json_text(value), value: JsonValue::Str(value) }];
    json_reader::lemma_reads_as_str(value);
    json_reader::lemma_read_object(fields);
    assert(json_reader::field_texts(fields) =~= seq![json::member_text(key, json::json_text(value))]);
    assert(json_reader::field_values(fields) =~= seq![(key, JsonValue::Str(value))]);
}

proof fn lemma_status_is_read(
    mode: Seq<char>,
    model: Seq<char>,
    version: Seq<char>,
    profile: Seq<char>,
)
    ensures
        decoded_response(
            response_text(ResponseView::Status { mode, model, version, profile }),
        ) == Some(ResponseView::Status { mode, model, version, profile }),
{
    let fields = seq![
        Field { key: "mode"@, text: json::json_text(mode), value: JsonValue::Str(mode) },
        Field { key: "model"@, text: json::json_text(model), value: JsonValue::Str(model) },
        Field { key: "version"@, text: json::json_text(version), value: JsonValue::Str(version) },
        Field { key: "profile"@, text: json::json_text(profile), value: JsonValue::Str(profile) },
    ];
    lemma_keys();
    lemma_response_tags();
    json_reader::lemma_reads_as_str(mode);
    json_reader::lemma_reads_as_str(model);
    json_reader::lemma_reads_as_str(version);
    json_reader::lemma_reads_as_str(profile);
    assert(status_members(mode, model, version, profile) =~= json_reader::field_texts(fields));
    json_reader::lemma_read_object(fields);
    let members = json_reader::field_values(fields);
    assert(members =~= seq![
        ("mode"@, JsonValue::Str(mode)),
        ("model"@, JsonValue::Str(model)),
        ("version"@, JsonValue::Str(version)),
        ("profile"@, JsonValue::Str(profile)),
    ]);
    reveal_with_fuel(json_reader::lookup, 5);
    assert(json_reader::lookup(members, "mode"@) == Some(JsonValue::Str(mode)));
    assert(json_reader::lookup(members, "model"@) == Some(JsonValue::Str(model)));
    assert(json_reader::lookup(members, "version"@) == Some(JsonValue::Str(version)));
    assert(json_reader::lookup(members, "profile"@) == Some(JsonValue::Str(profile)));
    lemma_tagged_is_read(
        "status"@,
        json::object_text(status_members(mode, model, version, profile)),
        JsonValue::Object(members),
    );
}

proof fn lemma_mode_changed_is_read(mode: Seq<char>)
    ensures
        decoded_response(response_text(ResponseView::ModeChanged { mode })) == Some(
            ResponseView::ModeChanged { mode },
        ),
{
    let members = seq![("mode"@, JsonValue::Str(mode))];
    lemma_keys();
    lemma_response_tags();
    lemma_one_member_is_read("mode"@, mode);
    lemma_tagged_is_read(
        "mode_changed"@,
        json::object_text(seq![json::member_text("mode"@, json::json_text(mode))]),
        JsonValue::Object(members),
    );
    assert(json_reader::lookup(members, "mode"@) == Some(JsonValue::Str(mode)));
}

proof fn lemma_model_changed_is_read(model: Seq<char>)
    ensures
        decoded_response(response_text(ResponseView::ModelChanged { model })) == Some(
            ResponseView::ModelChanged { model },
        ),
{
    let members = seq![("model"@, JsonValue::Str(model))];
    lemma_keys();
    lemma_response_tags();
    lemma_one_member_is_read("model"@, model);
    lemma_tagged_is_read(
        "model_changed"@,
        json::object_text(seq![json::member_text("model"@, json::json_text(model))]),
        JsonValue::Object(members),
    );
    assert(json_reader::lookup(members, "model"@) == Some(JsonValue::Str(model)));
}

/// An answer is found again in its line, whatever it is.
pub proof fn law_response_is_read_back(r: ResponseView)
    ensures
        decoded_response(response_text(r)) == Some(r),
{
    lemma_response_tags();
    match r {
        ResponseView::Text(t) => {
            json_reader::lemma_reads_as_str(t);
            lemma_tagged_is_read("text"@, json::json_text(t), JsonValue::Str(t));
        },
        ResponseView::ModeChanged { mode } => lemma_mode_changed_is_read(mode),
        ResponseView::ModelChanged { model } => lemma_model_changed_is_read(model),
        ResponseView::Status { mode, model, version, profile } => {
            lemma_status_is_read(mode, model, version, profile);
        },
        ResponseView::Error(e) => {
            json_reader::lemma_reads_as_str(e);
            lemma_tagged_is_read("error"@, json::json_text(e), JsonValue::Str(e));
        },
    }
}

/// A line stands for one answer: different answers have different lines.
pub proof fn law_line_determines_the_response(a: ResponseView, b: ResponseView)
    requires
        response_text(a) == response_text(b),
    ensures
        a == b,
{
    law_response_is_read_back(a);
    law_response_is_read_back(b);
}

// ─── Laws of requests ────────────────────────────────────────────────────────

/// A text is handed to the backend as it came, with the id that it came with, the model
/// in use and the time that models stay loaded. A text that came without an id gets one
/// that says so.
pub proof fn law_text_is_forwarded(
    s: AppStateView,
    input: Seq<char>,
    id: Seq<char>,
    p: Option<ProfileView>,
    named: Step,
    nameless: Step,
)
    requires
        is_step_for(
            s,
            RequestView::Process { text: input, request_id: Some(id), profile: p },
            named,
        ),
        is_step_for(
            s,
            RequestView::Process { text: input, request_id: None, profile: p },
            nameless,
        ),
    ensures
        named is Forward && nameless is Forward,
        named->Forward_0.text@ == input && nameless->Forward_0.text@ == input,
        named->Forward_0.request_id@ == id,
        nameless->Forward_0.request_id@ == "unknown-request"@,
        named->Forward_0.processor == s.processor,
        named->Forward_0.call.model@ == s.model(),
        named->Forward_0.call.keep_alive_secs == s.processor.keep_alive_secs,
        named->Forward_0.call.prompt@ == nameless->Forward_0.call.prompt@,
        named->Forward_0.call.model@ == nameless->Forward_0.call.model@,
{
}

/// A profile that comes with a text is the one that it is processed with, whatever mode
/// the daemon is in. Without one the daemon's own counts.
pub proof fn law_own_profile_counts(
    s: AppStateView,
    t: AppStateView,
    input: Seq<char>,
    id: Option<Seq<char>>,
    p: ProfileView,
    in_s: Step,
    in_t: Step,
    without: Step,
)
    requires
        is_step_for(
            s,
            RequestView::Process { text: input, request_id: id, profile: Some(p) },
            in_s,
        ),
        is_step_for(
            t,
            RequestView::Process { text: input, request_id: id, profile: Some(p) },
            in_t,
        ),
        is_step_for(
            s,
            RequestView::Process { text: input, request_id: id, profile: None },
            without,
        ),
    ensures
        in_s->Forward_0.call.prompt@ == in_t->Forward_0.call.prompt@,
        without->Forward_0.call.prompt@ == in_s->Forward_0.call.prompt@ <==> p == s.active_profile,
        text::contains(in_s->Forward_0.call.prompt@, input + p.instruction()),
{
    if p != s.active_profile {
        modes::law_profiles_give_different_prompts(p, s.active_profile, input);
    }
    let whole = input + p.instruction();
    text::law_parts_are_found(
        modes::CLEAN_INSTRUCTION@ + modes::INPUT_HEAD@,
        whole,
        modes::INPUT_TAIL@,
    );
}

/// The model in use is the one that was set last, and the configured one if none was.
pub proof fn law_last_model_counts(s: AppStateView, a: Seq<char>, b: Seq<char>)
    ensures
        s.override_model is None ==> s.model() == s.processor.default_model@,
        after_request(s, RequestView::SetModel { model: a }).model() == a,
        after_request(
            after_request(s, RequestView::SetModel { model: a }),
            RequestView::SetModel { model: b },
        ) == after_request(s, RequestView::SetModel { model: b }),
{
}

/// A model and a mode do not touch each other, and no request touches the processor.
pub proof fn law_requests_keep_the_rest(s: AppStateView, r: RequestView)
    ensures
        after_request(s, r).processor == s.processor,
        r !is SetMode ==> after_request(s, r).active_profile == s.active_profile,
        r !is SetModel ==> after_request(s, r).override_model == s.override_model,
{
}

/// A question for the status is answered with what holds: the mode and the name of the
/// active profile, the model in use and the version.
pub proof fn law_status_tells_the_state(s: AppStateView, step: Step)
    requires
        is_step_for(s, RequestView::GetStatus, step),
    ensures
        step matches Step::Reply(answer) && answer@ == (ResponseView::Status {
            mode: s.active_profile.mode_name(),
            model: s.model(),
            version: "0.1.0"@,
            profile: s.active_profile.name(),
        }),
        step matches Step::Reply(answer) && (answer@ matches ResponseView::Status { mode, profile, .. }
            && modes::profile_of_mode(mode) == Some(s.active_profile) && modes::profile_named(
            profile,
        ) == Some(s.active_profile)),
{
    modes::law_mode_roundtrip(s.active_profile);
    modes::law_name_roundtrip(s.active_profile);
}

/// A change of the model is answered with the model, at once.
pub proof fn law_model_change_is_answered(s: AppStateView, model: Seq<char>, step: Step)
    requires
        is_step_for(s, RequestView::SetModel { model }, step),
    ensures
        step matches Step::Reply(answer) && answer@ == (ResponseView::ModelChanged { model }),
{
}

/// A mode is refused exactly if it names no profile, with an answer that names it. Any
/// other is saved, and answered with its name once it is. If it cannot be saved, the
/// answer says why.
pub proof fn law_mode_change_is_answered(
    s: AppStateView,
    mode: Seq<char>,
    step: Step,
    p: ProfileView,
    e: ConfigError,
)
    requires
        is_step_for(s, RequestView::SetMode { mode }, step),
    ensures
        modes::profile_of_mode(mode) is None ==> (step matches Step::Reply(answer) && answer@
            == ResponseView::Error("unsupported mode: "@ + mode)),
        modes::profile_of_mode(mode) == Some(p) ==> (step matches Step::Save(state)
            && state.profile@ == p && state.profile@ == after_request(
            s,
            RequestView::SetMode { mode },
        ).active_profile),
        set_mode_answer(p, Ok(())) == (ResponseView::ModeChanged { mode: p.mode_name() }),
        set_mode_answer(p, Err(e)) == ResponseView::Error(
            "failed to persist mode: "@ + e.message_of(),
        ),
{
}

/// A line that is no request is answered with what is wrong with it, and changes nothing.
pub proof fn law_invalid_line_is_refused(s: AppStateView, e: String, step: Step)
    requires
        is_step_for_line(s, Err(e), step),
    ensures
        after_line(s, Err(e)) == s,
        step matches Step::Reply(answer) && answer@ == ResponseView::Error(
            "invalid request: "@ + e@,
        ),
{
}

/// Without the state every line is answered with an error. What is refused for itself
/// gets the answer that it would get with the state.
pub proof fn law_locked_out_lines_are_refused(
    s: AppStateView,
    line: Result<Request, String>,
    step: Step,
)
    requires
        is_step_for_line(s, line, step),
    ensures
        locked_out_answer(line) is Error,
        step is Reply && step->Reply_0@ is Error ==> locked_out_answer(line) == step->Reply_0@,
        !(step is Reply && step->Reply_0@ is Error) ==> locked_out_answer(line)
            == ResponseView::Error("failed to lock app state"@),
{
}

/// The socket is in the runtime directory, if there is one, whoever the user is, and
/// otherwise one in `/tmp` that is named after the user.
pub proof fn law_socket_path(dir: Seq<char>, uid: Option<Seq<char>>, id: Seq<char>)
    ensures
        dir.len() > 0 ==> socket_path_of(Some(dir), uid) == text::path_join(dir, "e-voice.sock"@),
        socket_path_of(None, Some(id)) == "/tmp/e-voice-"@ + id + ".sock"@,
        socket_path_of(None, None) == "/tmp/e-voice-unknown.sock"@,
        socket_path_of(Some(Seq::empty()), uid) == socket_path_of(None, uid),
{
    reveal_strlit("/tmp/e-voice-");
    reveal_strlit("unknown");
    reveal_strlit(".sock");
    reveal_strlit("/tmp/e-voice-unknown.sock");
    assert(socket_path_of(None, None) =~= "/tmp/e-voice-unknown.sock"@);
}

/// The daemon binds its socket only when nothing stands in its way, listens only when it
/// has bound it, and serves only when it listens.
pub proof fn law_daemon_starts_in_order(phase: DaemonPhase, event: DaemonEvent)
    ensures
        ({
            let (next, action) = daemon_turn(phase, event);
            &&& action is Bind <==> phase == DaemonPhase::Starting && match event {
                DaemonEvent::SocketExists(exists) => !exists,
                DaemonEvent::Removed(removed) => removed is Ok,
                _ => false,
            }
            &&& action is RemoveStale <==> phase == DaemonPhase::Starting && event
                == DaemonEvent::SocketExists(true)
            &&& next == DaemonPhase::Listening && phase != DaemonPhase::Listening ==> phase
                == DaemonPhase::Binding && event is Bound && event->Bound_0 is Ok
            &&& action is Serve <==> phase == DaemonPhase::Listening && event is Accepted
                && event->Accepted_0 is Ok
        }),
{
}

/// A daemon that listens goes on, whatever clients come, until it is told to shut down by
/// somebody who still watches, and then it cleans up. A failure ends it, and is named.
pub proof fn law_daemon_ends_when_told(phase: DaemonPhase, event: DaemonEvent, e: String)
    ensures
        ({
            let (next, action) = daemon_turn(phase, event);
            &&& action is CleanUp <==> phase == DaemonPhase::Listening && event == (
            DaemonEvent::ShutdownChanged { watched: true, requested: true })
            &&& phase == DaemonPhase::Listening && next == DaemonPhase::Ended ==> action is CleanUp
                || action is Fail
            &&& action is Fail ==> next == DaemonPhase::Ended && (event is Removed || event is Bound
                || event is Accepted)
            &&& phase == DaemonPhase::Ended ==> next == DaemonPhase::Ended && action is Ignore
        }),
        daemon_turn(DaemonPhase::Starting, DaemonEvent::Removed(Err(e))) == (
            DaemonPhase::Ended,
            DaemonAction::Fail(DaemonError::Io(e)),
        ),
        daemon_turn(DaemonPhase::Binding, DaemonEvent::Bound(Err(e))) == (
            DaemonPhase::Ended,
            DaemonAction::Fail(DaemonError::Io(e)),
        ),
        daemon_turn(DaemonPhase::Listening, DaemonEvent::Accepted(Err(e))) == (
            DaemonPhase::Ended,
            DaemonAction::Fail(DaemonError::Io(e)),
        ),
{
}

/// A connection that fails ends with the failure.
pub proof fn law_broken_connection_ends(e: String)
    ensures
        connection_action(ConnectionEvent::Read(Err(e))) == ConnectionActionView::Finish(
            Err(DaemonError::Io(e)),
        ),
        connection_action(ConnectionEvent::Written(Err(e))) == ConnectionActionView::Finish(
            Err(DaemonError::Io(e)),
        ),
{
}

/// A line is taken as it came, and an answer is written so that a client reads it back.
pub proof fn law_answer_is_read_by_the_client(line: String, answer: Response)
    ensures
        connection_action(ConnectionEvent::Read(Ok(Some(line)))) == ConnectionActionView::Handle(
            line@,
        ),
        connection_action(ConnectionEvent::Answered(answer)) matches ConnectionActionView::Write(
            out,
        ) && text::lines(out).len() == 1 && decoded_response(text::lines(out)[0]) == Some(answer@),
{
    lemma_response_is_line(answer@);
    law_frame_is_one_line(response_text(answer@));
    law_response_is_read_back(answer@);
}

/// How answers are shown in messages.
pub proof fn law_answers_are_shown(
    t: Seq<char>,
    mode: Seq<char>,
    model: Seq<char>,
    version: Seq<char>,
    profile: Seq<char>,
)
    ensures
        response_debug(ResponseView::Text(t)) == "Text("@ + debug_str_text(t) + ")"@,
        response_debug(ResponseView::Error(t)) == "Error("@ + debug_str_text(t) + ")"@,
        response_debug(ResponseView::ModeChanged { mode }) == "ModeChanged { mode: "@
            + debug_str_text(mode) + " }"@,
        response_debug(ResponseView::ModelChanged { model }) == "ModelChanged { model: "@
            + debug_str_text(model) + " }"@,
        response_debug(ResponseView::Status { mode, model, version, profile })
            == "Status { mode: "@ + debug_str_text(mode) + ", model: "@ + debug_str_text(model)
            + ", version: "@ + debug_str_text(version) + ", profile: "@ + debug_str_text(profile)
            + " }"@,
{
    reveal_strlit("(");
    reveal_strlit(")");
    reveal_strlit(": ");
    reveal_strlit(" { ");
    reveal_strlit(" }");
    reveal_strlit(", ");
    reveal_strlit("Text");
    reveal_strlit("Error");
    reveal_strlit("ModeChanged");
    reveal_strlit("ModelChanged");
    reveal_strlit("Status");
    reveal_strlit("mode");
    reveal_strlit("model");
    reveal_strlit("version");
    reveal_strlit("profile");
    reveal_strlit("Text(");
    reveal_strlit("Error(");
    reveal_strlit("ModeChanged { mode: ");
    reveal_strlit("ModelChanged { model: ");
    reveal_strlit("Status { mode: ");
    reveal_strlit(", model: ");
    reveal_strlit(", version: ");
    reveal_strlit(", profile: ");
    assert(response_debug(ResponseView::Text(t)) =~= "Text("@ + debug_str_text(t) + ")"@);
    assert(response_debug(ResponseView::Error(t)) =~= "Error("@ + debug_str_text(t) + ")"@);
    let a = shown_field("mode"@, debug_str_text(mode));
    let b = shown_field("model"@, debug_str_text(model));
    let c = shown_field("version"@, debug_str_text(version));
    let d = shown_field("profile"@, debug_str_text(profile));
    text::law_join(seq![a], seq![b], a, ", "@);
    text::law_join(seq![a], seq![b], b, ", "@);
    text::law_join(seq![a, b], seq![c], c, ", "@);
    text::law_join(seq![a, b, c], seq![d], d, ", "@);
    assert(seq![a] + seq![b] =~= seq![a, b]);
    assert(seq![a, b] + seq![c] =~= seq![a, b, c]);
    assert(seq![a, b, c] + seq![d] =~= seq![a, b, c, d]);
    assert(response_debug(ResponseView::ModeChanged { mode }) =~= "ModeChanged { mode: "@
        + debug_str_text(mode) + " }"@);
    assert(response_debug(ResponseView::ModelChanged { model }) =~= "ModelChanged { model: "@
        + debug_str_text(model) + " }"@);
    assert(response_debug(ResponseView::Status { mode, model, version, profile })
        =~= "Status { mode: "@ + debug_str_text(mode) + ", model: "@ + debug_str_text(model)
        + ", version: "@ + debug_str_text(version) + ", profile: "@ + debug_str_text(profile)
        + " }"@);
}

/// An error of the daemon names its kind and its cause.
pub proof fn law_errors_name_their_cause(e: String, c: ConfigError, b: BackendError)
    ensures
        DaemonError::Io(e).message_of() == "io error: "@ + e@,
        DaemonError::Json(e).message_of() == "json error: "@ + e@,
        DaemonError::Config(c).message_of() == "config error: "@ + c.message_of(),
        DaemonError::Processor(b).message_of() == "processor error: "@ + b.message_of(),
{
}

/// A daemon that starts reports the mode of the saved profile and the configured model.
pub proof fn law_new_daemon_reports_the_configuration(
    s: AppStateView,
    config: AppConfig,
    profile: ProfileView,
)
    requires
        is_new_state(s, config, profile),
    ensures
        status_of(s) == (ResponseView::Status {
            mode: profile.mode_name(),
            model: config.llm.model@,
            version: "0.1.0"@,
            profile: profile.name(),
        }),
        s.processor.backend.server() == (config.llm.backend, config.llm.url@),
        s.processor.keep_alive_secs == config.llm.keep_alive_secs,
{
}

/// A mode that was set is the one that a daemon starts with the next time, if what was
/// saved is what is read.
pub proof fn law_next_daemon_has_the_mode(
    s: AppStateView,
    mode: Seq<char>,
    step: Step,
    next: AppStateView,
    config: AppConfig,
)
    requires
        modes::profile_of_mode(mode) is Some,
        is_step_for(s, RequestView::SetMode { mode }, step),
        is_new_state(next, config, step->Save_0.profile@),
    ensures
        next.active_profile == after_request(s, RequestView::SetMode { mode }).active_profile,
{
}

/// A text is answered with what the backend made of it, as it is, or with the text itself
/// if the backend failed or wrote nothing but white space. It is never answered with an
/// error.
pub proof fn law_text_is_answered(
    input: Seq<char>,
    output: String,
    e: BackendError,
    i: int,
)
    ensures
        0 <= i < output@.len() && !text::white_space(output@[i]) ==> processed_answer(
            input,
            Ok(output),
        ) == ResponseView::Text(output@),
        text::blank(output@) ==> processed_answer(input, Ok(output)) == ResponseView::Text(input),
        processed_answer(input, Err(e)) == ResponseView::Text(input),
{
}

} // verus!
