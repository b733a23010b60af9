//! The checks of `e-voice doctor`: is the daemon there, is the model server there,
//! and does it have the configured models?
use crate::config::AppConfig;
use crate::daemon;
use crate::daemon::Response;
use crate::llm_backend;
use crate::strings;
use crate::text;
use crate::transport::DaemonTransportError;
use vstd::prelude::*;
use vstd::string::*;

verus! {

/// How long the model server has to name its models.
pub const TAGS_TIMEOUT_SECS: u64 = 5;

/// How a check came out.
#[derive(Debug, Clone, Copy, PartialEq, Eq, Structural)]
pub enum CheckStatus {
    Pass,
    Fail,
    Info,
    Warn,
}

/// A check and how it came out.
#[derive(Debug)]
pub struct CheckResult {
    pub status: CheckStatus,
    pub message: String,
}

impl View for CheckResult {
    type V = (CheckStatus, Seq<char>);

    open spec fn view(&self) -> (CheckStatus, Seq<char>) {
        (self.status, self.message@)
    }
}

impl CheckResult {
    /// A check that came out as given.
    pub fn new(status: CheckStatus, message: &str) -> (res: CheckResult)
        ensures
            res@ == (status, message@),
    {
        CheckResult { status, message: message.to_owned() }
    }

    /// A check that came out as given, with a message in two parts.
    pub fn about(status: CheckStatus, what: &str, which: &str) -> (res: CheckResult)
        ensures
            res@ == (status, what@ + which@),
    {
        let mut message = what.to_owned();
        message.append(which);
        CheckResult { status, message }
    }
}

/// A status code and its name, as the HTTP library shows them.
pub uninterp spec fn status_code_text(code: u16) -> Seq<char>;

/// The `Display` format of `reqwest::StatusCode`. The codes are those that
/// `StatusCode::from_u16` accepts.
#[verifier::external_body]
fn show_status_code(code: u16) -> (res: String)
    requires
        100 <= code < 1000,
    ensures
        res@ == status_code_text(code),
{
    reqwest::StatusCode::from_u16(code).expect("a code in range").to_string()
}

// ─── Models ──────────────────────────────────────────────────────────────────

/// The models that the configuration names.
pub fn configured_models(config: &AppConfig) -> (res: Vec<String>)
    ensures
        text::texts(res@) == seq![config.llm.model@],
{
    let mut models: Vec<String> = Vec::new();
    models.push(config.llm.model.clone());
    assert(text::texts(models@) =~= seq![config.llm.model@]);
    models
}

/// Whether a name is among the given ones.
fn is_among(name: &str, names: &Vec<String>, until: usize) -> (res: bool)
    requires
        until <= names@.len(),
    ensures
        res == text::texts(names@.take(until as int)).contains(name@),
{
    let mut i: usize = 0;
    while i < until
        invariant
            i <= until <= names@.len(),
            forall|k: int| 0 <= k < i ==> (#[trigger] names@[k])@ != name@,
        decreases until - i,
    {
        if strings::same(names[i].as_str(), name) {
            assert(text::texts(names@.take(until as int))[i as int] == name@);
            return true;
        }
        i = i + 1;
    }
    let ghost all = text::texts(names@.take(until as int));
    assert forall|k: int| 0 <= k < all.len() implies #[trigger] all[k] != name@ by {
        assert(all[k] == names@[k]@);
    }
    false
}

/// How many different names there are.
fn count_distinct(names: &Vec<String>) -> (res: usize)
    ensures
        res == text::texts(names@).to_set().len(),
{
    let mut count: usize = 0;
    let mut i: usize = 0;
    assert(text::texts(names@.take(0)).to_set() =~= Set::empty());
    while i < names.len()
        invariant
            i <= names@.len(),
            count <= i,
            count == text::texts(names@.take(i as int)).to_set().len(),
            text::texts(names@.take(i as int)).to_set().finite(),
        decreases names@.len() - i,
    {
        let ghost before = text::texts(names@.take(i as int));
        let ghost after = text::texts(names@.take(i as int + 1));
        proof {
            assert(after =~= before.push(names@[i as int]@));
            before.lemma_push_to_set_commute(names@[i as int]@);
        }
        if !is_among(names[i].as_str(), names, i) {
            count = count + 1;
        } else {
            assert(before.to_set().insert(names@[i as int]@) =~= before.to_set());
        }
        i = i + 1;
    }
    assert(names@.take(i as int) =~= names@);
    count
}

/// The models that are not among the available ones, in their order.
pub open spec fn missing_of(models: Seq<Seq<char>>, available: Seq<Seq<char>>) -> Seq<Seq<char>>
    decreases models.len(),
{
    if models.len() == 0 {
        Seq::empty()
    } else if available.contains(models.last()) {
        missing_of(models.drop_last(), available)
    } else {
        missing_of(models.drop_last(), available).push(models.last())
    }
}

/// The models that are not among the available ones, in their order.
fn missing_models(models: &Vec<String>, available: &Vec<String>) -> (res: Vec<String>)
    ensures
        text::texts(res@) == missing_of(text::texts(models@), text::texts(available@)),
{
    let mut missing: Vec<String> = Vec::new();
    let mut i: usize = 0;
    assert(text::texts(missing@) =~= Seq::<Seq<char>>::empty());
    while i < models.len()
        invariant
            i <= models@.len(),
            text::texts(missing@) == missing_of(
                text::texts(models@).take(i as int),
                text::texts(available@),
            ),
        decreases models@.len() - i,
    {
        let ghost next = text::texts(models@).take(i as int + 1);
        assert(next.drop_last() =~= text::texts(models@).take(i as int));
        assert(available@.take(available@.len() as int) =~= available@);
        if !is_among(models[i].as_str(), available, available.len()) {
            let ghost before = missing@;
            missing.push(models[i].clone());
            assert(text::texts(missing@) =~= text::texts(before).push(models@[i as int]@));
        }
        i = i + 1;
    }
    assert(text::texts(models@).take(i as int) =~= text::texts(models@));
    missing
}

// ─── The run ─────────────────────────────────────────────────────────────────

/// What is looked at next.
#[derive(Debug, Clone, Copy, PartialEq, Eq, Structural)]
pub enum Stage {
    /// Whether something stands at the path of the daemon's socket.
    Socket,
    /// What the daemon answers to a question for its status.
    Daemon,
    /// Whether the model server is healthy.
    Ollama,
    /// Whether an HTTP client can be had.
    Client,
    /// What status the model server answers with, when asked for its models.
    Tags,
    /// Which models the answer names.
    Models,
    /// Nothing: the run is over.
    Done,
}

/// What was found.
#[derive(Debug)]
pub enum Finding {
    Socket(bool),
    Daemon(Result<Response, DaemonTransportError>),
    Ollama(bool),
    Client(Result<(), String>),
    Tags(Result<u16, String>),
    Models(Result<Vec<String>, String>),
}

impl Finding {
    /// A status code has three digits.
    pub open spec fn valid(self) -> bool {
        self matches Finding::Tags(Ok(code)) ==> 100 <= code < 1000
    }
}

/// A run of the checks.
#[derive(Debug)]
pub struct Diagnosis {
    pub socket_path: String,
    /// Where the model server names its models.
    pub tags_url: String,
    pub models: Vec<String>,
    pub results: Vec<CheckResult>,
    pub stage: Stage,
}

/// What a [`Diagnosis`] holds.
pub struct DiagnosisView {
    pub socket_path: Seq<char>,
    pub tags_url: Seq<char>,
    pub models: Seq<Seq<char>>,
    pub results: Seq<(CheckStatus, Seq<char>)>,
    pub stage: Stage,
}

/// The views of check results.
pub open spec fn results_view(results: Seq<CheckResult>) -> Seq<(CheckStatus, Seq<char>)> {
    results.map_values(|r: CheckResult| r@)
}

impl View for Diagnosis {
    type V = DiagnosisView;

    open spec fn view(&self) -> DiagnosisView {
        DiagnosisView {
            socket_path: self.socket_path@,
            tags_url: self.tags_url@,
            models: text::texts(self.models@),
            results: results_view(self.results@),
            stage: self.stage,
        }
    }
}

/// A run at its start.
pub open spec fn started(url: Seq<char>, model: Seq<char>, socket_path: Seq<char>) -> DiagnosisView {
    DiagnosisView {
        socket_path: socket_path,
        tags_url: llm_backend::endpoint_of(url, "/api/tags"@),
        models: seq![model],
        results: seq![
            (CheckStatus::Info, "llm url: "@ + url),
            (CheckStatus::Info, "configured models: "@ + text::join(seq![model], ", "@)),
        ],
        stage: Stage::Socket,
    }
}

/// What is made of the daemon's answer.
pub open spec fn daemon_check(answer: Result<Response, DaemonTransportError>) -> (
    CheckStatus,
    Seq<char>,
) {
    match answer {
        Ok(Response::Status { version, .. }) => (
            CheckStatus::Pass,
            "daemon reachable: version="@ + version@,
        ),
        Ok(Response::Error(e)) => (CheckStatus::Fail, "daemon error response: "@ + e@),
        Ok(other) => (
            CheckStatus::Fail,
            "unexpected daemon response: "@ + daemon::response_debug(other@),
        ),
        Err(e) => (CheckStatus::Fail, "daemon unreachable: "@ + e.message_of()),
    }
}

/// What is made of the models that are missing.
pub open spec fn missing_check(missing: Seq<Seq<char>>) -> (CheckStatus, Seq<char>) {
    if missing.len() == 0 {
        (CheckStatus::Pass, "configured models available in ollama"@)
    } else {
        (CheckStatus::Fail, "missing models in ollama: "@ + text::join(missing, ", "@))
    }
}

impl DiagnosisView {
    /// The run with one more result, at the given stage.
    pub open spec fn noted(self, result: (CheckStatus, Seq<char>), stage: Stage) -> DiagnosisView {
        DiagnosisView { results: self.results.push(result), stage: stage, ..self }
    }

    /// The run after a finding. What does not belong to the stage is passed over.
    pub open spec fn told(self, finding: Finding) -> DiagnosisView {
        match (self.stage, finding) {
            (Stage::Socket, Finding::Socket(exists)) => if exists {
                self.noted(
                    (CheckStatus::Pass, "daemon socket exists: "@ + self.socket_path),
                    Stage::Daemon,
                )
            } else {
                self.noted(
                    (CheckStatus::Fail, "daemon socket missing: "@ + self.socket_path),
                    Stage::Done,
                )
            },
            (Stage::Daemon, Finding::Daemon(answer)) => self.noted(
                daemon_check(answer),
                Stage::Ollama,
            ),
            (Stage::Ollama, Finding::Ollama(healthy)) => if healthy {
                DiagnosisView { stage: Stage::Client, ..self }
            } else {
                self.noted(
                    (CheckStatus::Fail, "ollama unreachable: health check failed"@),
                    Stage::Done,
                )
            },
            (Stage::Client, Finding::Client(Ok(_))) => DiagnosisView { stage: Stage::Tags, ..self },
            (Stage::Client, Finding::Client(Err(e))) => self.noted(
                (
                    CheckStatus::Fail,
                    "ollama unreachable: cannot initialize HTTP client: "@ + e@,
                ),
                Stage::Done,
            ),
            (Stage::Tags, Finding::Tags(Ok(code))) => if code == 200 {
                DiagnosisView { stage: Stage::Models, ..self }
            } else {
                self.noted(
                    (
                        CheckStatus::Fail,
                        "ollama tags endpoint returned status "@ + status_code_text(code),
                    ),
                    Stage::Done,
                )
            },
            (Stage::Tags, Finding::Tags(Err(e))) => self.noted(
                (CheckStatus::Fail, "ollama unreachable: "@ + e@),
                Stage::Done,
            ),
            (Stage::Models, Finding::Models(Ok(names))) => self.noted(
                (
                    CheckStatus::Pass,
                    "ollama reachable: "@ + text::decimal(text::texts(names@).to_set().len())
                        + " models available"@,
                ),
                Stage::Models,
            ).noted(missing_check(missing_of(self.models, text::texts(names@))), Stage::Done),
            (Stage::Models, Finding::Models(Err(e))) => self.noted(
                (CheckStatus::Fail, "ollama tags parse failed: "@ + e@),
                Stage::Done,
            ),
            _ => self,
        }
    }
}

impl Diagnosis {
    /// A run at its start.
    pub fn start(config: &AppConfig, socket_path: &str) -> (res: Diagnosis)
        ensures
            res@ == started(config.llm.url@, config.llm.model@, socket_path@),
    {
        let models = configured_models(config);
        let mut results: Vec<CheckResult> = Vec::new();
        results.push(CheckResult::about(CheckStatus::Info, "llm url: ", config.llm.url.as_str()));
        results.push(
            CheckResult::about(
                CheckStatus::Info,
                "configured models: ",
                strings::join(&models, ", ").as_str(),
            ),
        );
        let res = Diagnosis {
            socket_path: socket_path.to_owned(),
            tags_url: llm_backend::endpoint(config.llm.url.as_str(), "/api/tags"),
            models,
            results,
            stage: Stage::Socket,
        };
        assert(res@.results =~= started(
            config.llm.url@,
            config.llm.model@,
            socket_path@,
        ).results);
        res
    }

    fn note(&mut self, result: CheckResult, stage: Stage)
        ensures
            final(self)@ == old(self)@.noted(result@, stage),
    {
        let ghost before = self.results@;
        self.results.push(result);
        self.stage = stage;
        assert(results_view(self.results@) =~= results_view(before).push(result@));
    }

    /// What is made of the daemon's answer.
    fn check_daemon(answer: &Result<Response, DaemonTransportError>) -> (res: CheckResult)
        ensures
            res@ == daemon_check(*answer),
    {
        match answer {
            Ok(Response::Status { mode: _, model: _, version, profile: _ }) => CheckResult::about(
                CheckStatus::Pass,
                "daemon reachable: version=",
                version.as_str(),
            ),
            Ok(Response::Error(e)) => CheckResult::about(
                CheckStatus::Fail,
                "daemon error response: ",
                e.as_str(),
            ),
            Ok(other) => CheckResult::about(
                CheckStatus::Fail,
                "unexpected daemon response: ",
                other.debug().as_str(),
            ),
            Err(e) => CheckResult::about(
                CheckStatus::Fail,
                "daemon unreachable: ",
                e.message().as_str(),
            ),
        }
    }
}

/// Takes a finding.
pub fn run(diagnosis: &mut Diagnosis, finding: Finding)
    requires
        finding.valid(),
    ensures
        final(diagnosis)@ == old(diagnosis)@.told(finding),
{
    match (diagnosis.stage, finding) {
        (Stage::Socket, Finding::Socket(exists)) => {
            if exists {
                let result = CheckResult::about(
                    CheckStatus::Pass,
                    "daemon socket exists: ",
                    diagnosis.socket_path.as_str(),
                );
                diagnosis.note(result, Stage::Daemon);
            } else {
                let result = CheckResult::about(
                    CheckStatus::Fail,
                    "daemon socket missing: ",
                    diagnosis.socket_path.as_str(),
                );
                diagnosis.note(result, Stage::Done);
            }
        },
        (Stage::Daemon, Finding::Daemon(answer)) => {
            let result = Diagnosis::check_daemon(&answer);
            diagnosis.note(result, Stage::Ollama);
        },
        (Stage::Ollama, Finding::Ollama(healthy)) => {
            if healthy {
                diagnosis.stage = Stage::Client;
            } else {
                let result = CheckResult::new(
                    CheckStatus::Fail,
                    "ollama unreachable: health check failed",
                );
                diagnosis.note(result, Stage::Done);
            }
        },
        (Stage::Client, Finding::Client(Ok(_))) => {
            diagnosis.stage = Stage::Tags;
        },
        (Stage::Client, Finding::Client(Err(e))) => {
            let result = CheckResult::about(
                CheckStatus::Fail,
                "ollama unreachable: cannot initialize HTTP client: ",
                e.as_str(),
            );
            diagnosis.note(result, Stage::Done);
        },
        (Stage::Tags, Finding::Tags(Ok(code))) => {
            if code == 200 {
                diagnosis.stage = Stage::Models;
            } else {
                let result = CheckResult::about(
                    CheckStatus::Fail,
                    "ollama tags endpoint returned status ",
                    show_status_code(code).as_str(),
                );
                diagnosis.note(result, Stage::Done);
            }
        },
        (Stage::Tags, Finding::Tags(Err(e))) => {
            let result = CheckResult::about(
                CheckStatus::Fail,
                "ollama unreachable: ",
                e.as_str(),
            );
            diagnosis.note(result, Stage::Done);
        },
        (Stage::Models, Finding::Models(Ok(names))) => {
            let mut message = "ollama reachable: ".to_owned();
            message.append(strings::decimal(count_distinct(&names) as u64).as_str());
            message.append(" models available");
            diagnosis.note(CheckResult::new(CheckStatus::Pass, message.as_str()), Stage::Models);
            let missing = missing_models(&diagnosis.models, &names);
            assert(text::texts(missing@).len() == missing@.len());
            let result = if missing.len() == 0 {
                CheckResult::new(CheckStatus::Pass, "configured models available in ollama")
            } else {
                CheckResult::about(
                    CheckStatus::Fail,
                    "missing models in ollama: ",
                    strings::join(&missing, ", ").as_str(),
                )
            };
            diagnosis.note(result, Stage::Done);
        },
        (Stage::Models, Finding::Models(Err(e))) => {
            let result = CheckResult::about(
                CheckStatus::Fail,
                "ollama tags parse failed: ",
                e.as_str(),
            );
            diagnosis.note(result, Stage::Done);
        },
        _ => {},
    }
}

// ─── Laws ────────────────────────────────────────────────────────────────────

/// How many of the results are failures.
pub open spec fn failures(results: Seq<(CheckStatus, Seq<char>)>) -> nat
    decreases results.len(),
{
    if results.len() == 0 {
        0
    } else {
        failures(results.drop_last()) + if results.last().0 == CheckStatus::Fail {
            1nat
        } else {
            0nat
        }
    }
}

proof fn lemma_failures_push(results: Seq<(CheckStatus, Seq<char>)>, r: (CheckStatus, Seq<char>))
    ensures
        failures(results.push(r)) == failures(results) + if r.0 == CheckStatus::Fail {
            1nat
        } else {
            0nat
        },
{
    assert(results.push(r).drop_last() =~= results);
}

proof fn lemma_failures_at_start(url: Seq<char>, model: Seq<char>, socket_path: Seq<char>)
    ensures
        failures(started(url, model, socket_path).results) == 0,
{
    let results = started(url, model, socket_path).results;
    let none = Seq::<(CheckStatus, Seq<char>)>::empty();
    lemma_failures_push(none, results[0]);
    lemma_failures_push(none.push(results[0]), results[1]);
    assert(none.push(results[0]).push(results[1]) =~= results);
}

/// Without a socket the run is over at once, with one failure, and this names the
/// socket.
pub proof fn law_missing_socket_is_the_only_failure(
    url: Seq<char>,
    model: Seq<char>,
    socket_path: Seq<char>,
)
    ensures
        ({
            let d = started(url, model, socket_path).told(Finding::Socket(false));
            &&& d.stage == Stage::Done
            &&& failures(d.results) == 1
            &&& d.results.last() == (CheckStatus::Fail, "daemon socket missing: "@ + socket_path)
        }),
{
    let d = started(url, model, socket_path);
    lemma_failures_at_start(url, model, socket_path);
    lemma_failures_push(
        d.results,
        (CheckStatus::Fail, "daemon socket missing: "@ + socket_path),
    );
}

/// With a daemon that reports its status and a healthy model server that has the
/// configured model, nothing fails.
pub proof fn law_healthy_system_has_no_failures(
    url: Seq<char>,
    model: Seq<char>,
    socket_path: Seq<char>,
    answer: Response,
    names: Vec<String>,
)
    requires
        answer is Status,
        text::texts(names@).contains(model),
    ensures
        ({
            let d = started(url, model, socket_path).told(Finding::Socket(true)).told(
                Finding::Daemon(Ok(answer)),
            ).told(Finding::Ollama(true)).told(Finding::Client(Ok(()))).told(
                Finding::Tags(Ok(200)),
            ).told(Finding::Models(Ok(names)));
            d.stage == Stage::Done && failures(d.results) == 0
        }),
{
    let d0 = started(url, model, socket_path);
    let d1 = d0.told(Finding::Socket(true));
    let d2 = d1.told(Finding::Daemon(Ok(answer)));
    let d5 = d2.told(Finding::Ollama(true)).told(Finding::Client(Ok(()))).told(
        Finding::Tags(Ok(200)),
    );
    let found = (
        CheckStatus::Pass,
        "ollama reachable: "@ + text::decimal(text::texts(names@).to_set().len())
            + " models available"@,
    );
    lemma_failures_at_start(url, model, socket_path);
    lemma_failures_push(d0.results, d1.results.last());
    lemma_failures_push(d1.results, d2.results.last());
    lemma_failures_push(d5.results, found);
    assert(seq![model].last() == model);
    reveal_with_fuel(missing_of, 2);
    assert(missing_of(seq![model], text::texts(names@)).len() == 0) by {
        assert(seq![model].drop_last() =~= Seq::<Seq<char>>::empty());
    }
    lemma_failures_push(
        d5.results.push(found),
        missing_check(missing_of(d5.models, text::texts(names@))),
    );
}

/// A model server that lacks the configured model is a failure that names it.
pub proof fn law_missing_model_is_named(d: DiagnosisView, model: Seq<char>, names: Vec<String>)
    requires
        d.stage == Stage::Models,
        d.models == seq![model],
        !text::texts(names@).contains(model),
    ensures
        d.told(Finding::Models(Ok(names))).results.last() == (
            CheckStatus::Fail,
            "missing models in ollama: "@ + model,
        ),
{
    reveal_with_fuel(missing_of, 2);
    assert(seq![model].drop_last() =~= Seq::<Seq<char>>::empty());
    assert(missing_of(seq![model], text::texts(names@)) =~= seq![model]);
    reveal_with_fuel(text::join, 2);
    assert(text::join(seq![model], ", "@) =~= model);
}

/// How many findings a run can still take.
pub open spec fn steps_left(stage: Stage) -> nat {
    match stage {
        Stage::Socket => 6,
        Stage::Daemon => 5,
        Stage::Ollama => 4,
        Stage::Client => 3,
        Stage::Tags => 2,
        Stage::Models => 1,
        Stage::Done => 0,
    }
}

/// Results are never taken back, and every finding that belongs to the stage brings
/// the run nearer to its end.
pub proof fn law_run_goes_on(d: DiagnosisView, finding: Finding)
    ensures
        d.results.is_prefix_of(d.told(finding).results),
        d.told(finding) == d || steps_left(d.told(finding).stage) < steps_left(d.stage),
{
}

/// There are failures exactly if a check failed, and never more than checks.
pub proof fn law_failures_are_counted(results: Seq<(CheckStatus, Seq<char>)>)
    ensures
        failures(results) == 0 <==> forall|i: int|
            0 <= i < results.len() ==> (#[trigger] results[i]).0 != CheckStatus::Fail,
        failures(results) <= results.len(),
    decreases results.len(),
{
    if results.len() > 0 {
        let init = results.drop_last();
        law_failures_are_counted(init);
        assert(results[results.len() - 1] == results.last());
        if failures(init) == 0 && results.last().0 != CheckStatus::Fail {
            assert forall|i: int| 0 <= i < results.len() implies (#[trigger] results[i]).0
                != CheckStatus::Fail by {
                if i < init.len() {
                    assert(results[i] == init[i]);
                }
            }
        }
        if failures(init) != 0 {
            let i = choose|i: int|
                0 <= i < init.len() && (#[trigger] init[i]).0 == CheckStatus::Fail;
            assert(results[i].0 == CheckStatus::Fail);
        }
    }
}

/// One more result is one more failure if the check failed, and none otherwise.
pub proof fn law_one_result_more(
    results: Seq<(CheckStatus, Seq<char>)>,
    status: CheckStatus,
    message: Seq<char>,
)
    ensures
        failures(results.push((status, message))) == failures(results) + if status
            == CheckStatus::Fail {
            1nat
        } else {
            0nat
        },
{
    lemma_failures_push(results, (status, message));
}

/// What is missing is what is configured and not available, in the order in which it is
/// configured.
pub proof fn law_missing_models(models: Seq<Seq<char>>, available: Seq<Seq<char>>)
    ensures
        missing_of(models, available) == models.filter(|m: Seq<char>| !available.contains(m)),
        forall|m: Seq<char>| #[trigger]
            missing_of(models, available).contains(m) <==> models.contains(m)
                && !available.contains(m),
        forall|m: Seq<char>|
            !available.contains(m) ==> #[trigger] missing_of(seq![m], available) == seq![m],
    decreases models.len(),
{
    let p = |m: Seq<char>| !available.contains(m);
    reveal(Seq::filter);
    assert forall|m: Seq<char>| !available.contains(m) implies #[trigger] missing_of(
        seq![m],
        available,
    ) == seq![m] by {
        reveal_with_fuel(missing_of, 2);
        assert(seq![m].drop_last() =~= Seq::<Seq<char>>::empty());
        assert(missing_of(seq![m], available) =~= seq![m]);
    }
    if models.len() > 0 {
        let init = models.drop_last();
        let last = models.last();
        law_missing_models(init, available);
        let before = missing_of(init, available);
        assert(missing_of(models, available) == if available.contains(last) {
            before
        } else {
            before.push(last)
        });
        assert forall|m: Seq<char>| #[trigger]
            missing_of(models, available).contains(m) <==> models.contains(m)
                && !available.contains(m) by {
            assert(models =~= init.push(last));
            assert(models.contains(m) <==> init.contains(m) || m == last) by {
                if init.contains(m) {
                    let k = choose|k: int| 0 <= k < init.len() && init[k] == m;
                    assert(models[k] == m);
                }
                if m == last {
                    assert(models[models.len() - 1] == m);
                }
            }
            assert(before.push(last).contains(m) <==> before.contains(m) || m == last) by {
                if before.contains(m) {
                    let k = choose|k: int| 0 <= k < before.len() && before[k] == m;
                    assert(before.push(last)[k] == m);
                }
                if m == last {
                    assert(before.push(last)[before.len() as int] == m);
                }
            }
        }
    }
}

/// A finding belongs to the stage of the run.
pub open spec fn fits(stage: Stage, finding: Finding) -> bool {
    match finding {
        Finding::Socket(_) => stage == Stage::Socket,
        Finding::Daemon(_) => stage == Stage::Daemon,
        Finding::Ollama(_) => stage == Stage::Ollama,
        Finding::Client(_) => stage == Stage::Client,
        Finding::Tags(_) => stage == Stage::Tags,
        Finding::Models(_) => stage == Stage::Models,
    }
}

/// Something is wrong, given the configured models.
pub open spec fn is_bad(finding: Finding, models: Seq<Seq<char>>) -> bool {
    match finding {
        Finding::Socket(exists) => !exists,
        Finding::Daemon(answer) => !(answer is Ok && answer->Ok_0 is Status),
        Finding::Ollama(healthy) => !healthy,
        Finding::Client(made) => made is Err,
        Finding::Tags(status) => !(status is Ok && status->Ok_0 == 200),
        Finding::Models(found) => match found {
            Ok(names) => exists|i: int|
                0 <= i < models.len() && !text::texts(names@).contains(#[trigger] models[i]),
            Err(_) => true,
        },
    }
}

/// Every finding that shows that something is wrong is one failure more, and no other
/// finding is any. What is wrong ends the run, except that the model server is looked at
/// even if the daemon is not well.
pub proof fn law_what_is_wrong_fails(d: DiagnosisView, finding: Finding)
    requires
        fits(d.stage, finding),
    ensures
        ({
            let t = d.told(finding);
            let bad = is_bad(finding, d.models);
            &&& failures(t.results) == failures(d.results) + if bad {
                1nat
            } else {
                0nat
            }
            &&& bad && finding !is Daemon ==> t.stage == Stage::Done
            &&& !bad || finding is Daemon ==> t.stage == match finding {
                Finding::Socket(_) => Stage::Daemon,
                Finding::Daemon(_) => Stage::Ollama,
                Finding::Ollama(_) => Stage::Client,
                Finding::Client(_) => Stage::Tags,
                Finding::Tags(_) => Stage::Models,
                Finding::Models(_) => Stage::Done,
            }
            &&& t.socket_path == d.socket_path && t.tags_url == d.tags_url && t.models == d.models
        }),
{
    let t = d.told(finding);
    match finding {
        Finding::Models(Ok(names)) => {
            let available = text::texts(names@);
            let found = t.results[d.results.len() as int];
            let missing = missing_of(d.models, available);
            law_missing_models(d.models, available);
            lemma_failures_push(d.results, found);
            lemma_failures_push(d.results.push(found), missing_check(missing));
            assert(t.results =~= d.results.push(found).push(missing_check(missing)));
            if is_bad(finding, d.models) {
                let i = choose|i: int|
                    0 <= i < d.models.len() && !available.contains(#[trigger] d.models[i]);
                assert(d.models.contains(d.models[i]));
                assert(missing.contains(d.models[i]));
            } else if missing.len() > 0 {
                assert(missing.contains(missing[0]));
                let i = choose|i: int| 0 <= i < d.models.len() && d.models[i] == missing[0];
                assert(!available.contains(d.models[i]));
            }
        },
        _ => {
            if t.results.len() > d.results.len() {
                lemma_failures_push(d.results, t.results.last());
            }
        },
    }
}

/// A finding that does not belong to the stage is passed over.
pub proof fn law_other_findings_are_passed_over(d: DiagnosisView, finding: Finding)
    requires
        !fits(d.stage, finding),
    ensures
        d.told(finding) == d,
{
}

/// What is wrong is named.
pub proof fn law_what_is_wrong_is_named(
    d: DiagnosisView,
    e: String,
    t: DaemonTransportError,
    code: u16,
)
    ensures
        d.stage == Stage::Tags && code != 200 ==> d.told(Finding::Tags(Ok(code))).results.last()
            == (
            CheckStatus::Fail,
            "ollama tags endpoint returned status "@ + status_code_text(code),
        ),
        d.stage == Stage::Daemon ==> d.told(Finding::Daemon(Ok(Response::Error(e)))).results.last()
            == (CheckStatus::Fail, "daemon error response: "@ + e@),
        d.stage == Stage::Daemon ==> d.told(Finding::Daemon(Err(t))).results.last() == (
            CheckStatus::Fail,
            "daemon unreachable: "@ + t.message_of(),
        ),
        d.stage == Stage::Client ==> d.told(Finding::Client(Err(e))).results.last() == (
            CheckStatus::Fail,
            "ollama unreachable: cannot initialize HTTP client: "@ + e@,
        ),
        d.stage == Stage::Tags ==> d.told(Finding::Tags(Err(e))).results.last() == (
            CheckStatus::Fail,
            "ollama unreachable: "@ + e@,
        ),
        d.stage == Stage::Models ==> d.told(Finding::Models(Err(e))).results.last() == (
            CheckStatus::Fail,
            "ollama tags parse failed: "@ + e@,
        ),
        d.stage == Stage::Ollama ==> d.told(Finding::Ollama(false)).results.last() == (
            CheckStatus::Fail,
            "ollama unreachable: health check failed"@,
        ),
{
}

/// The number of models that is reported is that of the different names, whatever their
/// order and however often one comes.
pub proof fn law_models_are_counted_once(d: DiagnosisView, a: Vec<String>, b: Vec<String>)
    requires
        d.stage == Stage::Models,
        text::texts(a@).to_set() == text::texts(b@).to_set(),
    ensures
        d.told(Finding::Models(Ok(a))).results == d.told(Finding::Models(Ok(b))).results,
        d.told(Finding::Models(Ok(a))).results[d.results.len() as int] == (
            CheckStatus::Pass,
            "ollama reachable: "@ + text::decimal(text::texts(a@).to_set().len())
                + " models available"@,
        ),
{
    let x = text::texts(a@);
    let y = text::texts(b@);
    assert forall|m: Seq<char>| x.contains(m) <==> y.contains(m) by {
        assert(x.to_set().contains(m) <==> x.contains(m));
        assert(y.to_set().contains(m) <==> y.contains(m));
    }
    lemma_missing_same(d.models, x, y);
}

proof fn lemma_missing_same(models: Seq<Seq<char>>, x: Seq<Seq<char>>, y: Seq<Seq<char>>)
    requires
        forall|m: Seq<char>| x.contains(m) <==> y.contains(m),
    ensures
        missing_of(models, x) == missing_of(models, y),
    decreases models.len(),
{
    if models.len() > 0 {
        lemma_missing_same(models.drop_last(), x, y);
    }
}

/// The checks begin with what is configured: the server and the model, neither of which is
/// a check that can fail.
pub proof fn law_run_starts_with_the_configuration(
    url: Seq<char>,
    model: Seq<char>,
    socket_path: Seq<char>,
)
    ensures
        ({
            let d = started(url, model, socket_path);
            &&& d.stage == Stage::Socket
            &&& d.models == seq![model]
            &&& d.socket_path == socket_path
            &&& d.results == seq![
                (CheckStatus::Info, "llm url: "@ + url),
                (CheckStatus::Info, "configured models: "@ + model),
            ]
            &&& url.len() > 0 && url.last() != '/' ==> d.tags_url == url + "/api/tags"@
        }),
{
    text::law_join(seq![model], seq![model], model, ", "@);
    llm_backend::law_slashes_do_not_count(url, "/api/tags"@);
    assert(started(url, model, socket_path).results =~= seq![
        (CheckStatus::Info, "llm url: "@ + url),
        (CheckStatus::Info, "configured models: "@ + model),
    ]);
}

/// A daemon that is well is reported with its version, and a socket with its path.
pub proof fn law_what_is_well_is_named(d: DiagnosisView, answer: Response)
    requires
        answer is Status,
    ensures
        d.stage == Stage::Daemon ==> d.told(Finding::Daemon(Ok(answer))).results.last() == (
            CheckStatus::Pass,
            "daemon reachable: version="@ + answer->Status_version@,
        ),
        d.stage == Stage::Socket ==> d.told(Finding::Socket(true)).results.last() == (
            CheckStatus::Pass,
            "daemon socket exists: "@ + d.socket_path,
        ),
{
}

} // verus!
