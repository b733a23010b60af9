//! The commands of the `e-voice` program.
use crate::daemon;
use crate::daemon::{Request, RequestView, Response, ResponseView};
use crate::diagnostics;
use crate::diagnostics::{CheckResult, CheckStatus};
use crate::http_server::DEFAULT_HTTP_PORT;
use crate::json;
use crate::json::JsonObject;
use crate::json_reader;
use crate::json_reader::{Field, JsonValue};
use crate::llm_backend::BackendError;
use crate::modes;
use crate::modes::{ProfileView, MENU_MODES};
use crate::processor;
use crate::strings;
use crate::text;
use crate::transport::DaemonTransportError;
use vstd::prelude::*;
use vstd::string::*;

verus! {

/// How long the status command waits between two looks at the daemon.
pub const STATUS_POLL_MILLIS: u64 = 500;

/// What the program is asked to do.
#[derive(Debug)]
pub enum Commands {
    /// Start the headless Unix socket daemon.
    Daemon,
    /// Start the daemon with the tray icon.
    Tray,
    /// Process the text on stdin.
    Process,
    /// Show the daemon's status.
    Status { format: Option<String>, follow: bool },
    /// Run the first-run wizard.
    Setup,
    /// Diagnose the pipeline.
    Doctor,
    /// Change the mode.
    Mode { mode: String },
    /// List the modes for a picker.
    Menu,
}

/// The log filter, unless the environment names one.
pub open spec fn log_filter(headless: bool, command: Option<Commands>) -> Seq<char> {
    match command {
        Some(Commands::Daemon) => "e_voice=info"@,
        Some(Commands::Tray) => "e_voice=info"@,
        _ => if headless {
            "e_voice=info"@
        } else {
            "off"@
        },
    }
}

/// The log filter, unless the environment names one: the programs that stay log,
/// the others are silent.
pub fn default_log_filter(headless: bool, command: Option<&Commands>) -> (res: &'static str)
    ensures
        res@ == if headless || (command matches Some(c) && (c is Daemon || c is Tray)) {
            "e_voice=info"@
        } else {
            "off"@
        },
        res@ == log_filter(
            headless,
            match command {
                Some(c) => Some(*c),
                None => None,
            },
        ),
{
    if headless {
        return "e_voice=info";
    }
    match command {
        Some(Commands::Daemon) => "e_voice=info",
        Some(Commands::Tray) => "e_voice=info",
        _ => "off",
    }
}

// ─── process ─────────────────────────────────────────────────────────────────

/// What the process command answers a user who pipes nothing to it.
pub const PROCESS_USAGE: &'static str =
    "Pipe text via stdin, e.g.: echo 'hello' | e-voice process\nThe daemon must be running: e-voice daemon";

/// The text of a request, from what came on stdin.
pub open spec fn input_text(input: Seq<char>) -> Seq<char> {
    text::trim_end_matches(input, '\n')
}

/// The text to process, if there is anything but white space on stdin.
pub open spec fn text_to_process(input: Seq<char>) -> Option<Seq<char>> {
    if text::blank(input_text(input)) {
        None
    } else {
        Some(input_text(input))
    }
}

/// The text to process, if there is anything but white space on stdin.
pub fn process_input(input: &str) -> (res: Option<String>)
    ensures
        match res {
            Some(t) => t@ == input_text(input@) && !text::blank(input_text(input@)),
            None => text::blank(input_text(input@)),
        },
        match res {
            Some(t) => text_to_process(input@) == Some(t@),
            None => text_to_process(input@) is None,
        },
{
    let trimmed = strings::trim_end_matches(input, '\n');
    if strings::is_blank(trimmed.as_str()) {
        None
    } else {
        Some(trimmed)
    }
}

/// The number in the name of the next request.
#[derive(Debug)]
pub struct RequestSeq {
    pub next: u64,
}

/// The name of a request.
pub open spec fn request_id_of(seq: u64) -> Seq<char> {
    "req-"@ + text::decimal(seq as nat)
}

/// The number that follows, and zero behind the last one.
pub open spec fn next_number(n: u64) -> u64 {
    if n == u64::MAX {
        0
    } else {
        (n + 1) as u64
    }
}

impl RequestSeq {
    /// Requests are numbered from one.
    pub fn new() -> (res: RequestSeq)
        ensures
            res.next == 1,
    {
        RequestSeq { next: 1 }
    }

    /// The name of the next request.
    pub fn next_request_id(&mut self) -> (res: String)
        ensures
            res@ == request_id_of(old(self).next),
            final(self).next == if old(self).next == u64::MAX {
                0
            } else {
                old(self).next + 1
            },
            final(self).next == next_number(old(self).next),
    {
        let mut res = "req-".to_owned();
        res.append(strings::decimal(self.next).as_str());
        self.next = self.next.wrapping_add(1);
        res
    }
}

/// The request to process a text.
pub open spec fn process_request_of(input: Seq<char>, request_id: Seq<char>) -> RequestView {
    RequestView::Process { text: input, request_id: Some(request_id), profile: None }
}

/// The request to process a text.
pub fn process_request(text: &str, request_id: &str) -> (res: Request)
    ensures
        res@ == (RequestView::Process {
            text: text@,
            request_id: Some(request_id@),
            profile: None,
        }),
        res@ == process_request_of(text@, request_id@),
{
    Request::Process {
        text: text.to_owned(),
        request_id: Some(request_id.to_owned()),
        profile: None,
    }
}

/// What a command writes and how it ends.
#[derive(Debug)]
pub struct Outcome {
    pub stdout: String,
    pub stderr: Option<String>,
    pub result: Result<(), String>,
}

/// What an [`Outcome`] holds.
pub struct OutcomeView {
    pub stdout: Seq<char>,
    pub stderr: Option<Seq<char>>,
    pub error: Option<Seq<char>>,
}

impl View for Outcome {
    type V = OutcomeView;

    open spec fn view(&self) -> OutcomeView {
        OutcomeView {
            stdout: self.stdout@,
            stderr: match self.stderr {
                Some(e) => Some(e@),
                None => None,
            },
            error: match self.result {
                Ok(_) => None,
                Err(e) => Some(e@),
            },
        }
    }
}

/// What the process command writes, and how it ends, for the daemon's answer.
pub open spec fn process_outcome_of(
    input: Seq<char>,
    answer: Result<Response, DaemonTransportError>,
) -> OutcomeView {
    match answer {
        Ok(Response::Text(output)) => OutcomeView { stdout: output@, stderr: None, error: None },
        Ok(Response::Error(e)) => OutcomeView {
            stdout: input,
            stderr: Some("e-voice: daemon error: "@ + e@),
            error: Some("process failed with daemon error"@),
        },
        Ok(other) => OutcomeView {
            stdout: input,
            stderr: Some("e-voice: unexpected daemon response, falling back to raw input"@),
            error: Some(
                "process failed: unexpected response "@ + daemon::response_debug(other@),
            ),
        },
        Err(e) => OutcomeView {
            stdout: input,
            stderr: Some(
                "e-voice: daemon unreachable ("@ + e.message_of()
                    + "). Start it with: e-voice daemon"@,
            ),
            error: Some("process failed: daemon unreachable"@),
        },
    }
}

/// What the process command writes, and how it ends, for the daemon's answer.
pub fn process_outcome(text: &str, answer: Result<Response, DaemonTransportError>) -> (res: Outcome)
    ensures
        res@ == process_outcome_of(text@, answer),
{
    match answer {
        Ok(Response::Text(output)) => Outcome { stdout: output, stderr: None, result: Ok(()) },
        Ok(Response::Error(e)) => {
            let mut stderr = "e-voice: daemon error: ".to_owned();
            stderr.append(e.as_str());
            Outcome {
                stdout: text.to_owned(),
                stderr: Some(stderr),
                result: Err("process failed with daemon error".to_owned()),
            }
        },
        Ok(other) => {
            let mut message = "process failed: unexpected response ".to_owned();
            message.append(other.debug().as_str());
            Outcome {
                stdout: text.to_owned(),
                stderr: Some(
                    "e-voice: unexpected daemon response, falling back to raw input".to_owned(),
                ),
                result: Err(message),
            }
        },
        Err(e) => {
            let mut stderr = "e-voice: daemon unreachable (".to_owned();
            stderr.append(e.message().as_str());
            stderr.append("). Start it with: e-voice daemon");
            Outcome {
                stdout: text.to_owned(),
                stderr: Some(stderr),
                result: Err("process failed: daemon unreachable".to_owned()),
            }
        },
    }
}

// ─── status ──────────────────────────────────────────────────────────────────

/// What Waybar is told of a daemon that is there.
pub const ACTIVE_JSON: &'static str =
    "{\"class\":\"active\",\"text\":\"active\",\"tooltip\":\"e-voice active\"}";

/// The status is wanted as JSON.
pub open spec fn is_json(format: Option<Seq<char>>) -> bool {
    format == Some("json"@)
}

/// Whether the status is wanted as JSON.
pub fn wants_json(format: Option<&str>) -> (res: bool)
    ensures
        res == (format matches Some(f) && f@ == "json"@),
        res == is_json(text::opt_text(format)),
{
    match format {
        Some(f) => strings::same(f, "json"),
        None => false,
    }
}

/// A turn of the status command: the line it prints, if any, whether there is another
/// turn, and the mode that the daemon is in.
#[derive(Debug)]
pub struct StatusTurn {
    pub line: Option<&'static str>,
    pub again: bool,
    pub mode: String,
}

/// Whether the status command prints a line for a mode, given the mode that it last
/// printed one for: the first time, and on every change if it follows the daemon.
pub open spec fn status_is_printed(follow: bool, last: Option<Seq<char>>, mode: Seq<char>) -> bool {
    match last {
        None => true,
        Some(l) => follow && l != mode,
    }
}

/// The line that the status command prints for a daemon that is there.
pub open spec fn status_line(as_json: bool) -> Seq<char> {
    if as_json {
        ACTIVE_JSON@
    } else {
        "active"@
    }
}

/// Why the status command fails, if it does.
pub open spec fn status_error(answer: Result<Response, DaemonTransportError>) -> Option<
    Seq<char>,
> {
    match answer {
        Ok(Response::Status { .. }) => None,
        Ok(Response::Error(e)) => Some("daemon error: "@ + e@),
        Ok(other) => Some("unexpected response: "@ + daemon::response_debug(other@)),
        Err(e) => Some("failed to query daemon status: "@ + e.message_of()),
    }
}

/// A turn of the status command, for the daemon's answer. `last` is the mode that a
/// line was last printed for.
pub fn print_status(
    as_json: bool,
    follow: bool,
    last: Option<&str>,
    answer: Result<Response, DaemonTransportError>,
) -> (res: Result<StatusTurn, String>)
    ensures
        match status_error(answer) {
            Some(message) => res matches Err(e) && e@ == message,
            None => res matches Ok(turn) && {
                let mode = answer->Ok_0->Status_mode@;
                &&& turn.mode@ == mode
                &&& turn.again == follow
                &&& turn.line is Some <==> status_is_printed(follow, text::opt_text(last), mode)
                &&& turn.line is Some ==> turn.line->0@ == if as_json {
                    ACTIVE_JSON@
                } else {
                    "active"@
                }
                &&& turn.line matches Some(line) ==> line@ == status_line(as_json)
            },
        },
{
    match answer {
        Ok(Response::Status { mode, model: _, version: _, profile: _ }) => {
            let print = match last {
                None => true,
                Some(l) => follow && !strings::same(l, mode.as_str()),
            };
            let line = if print {
                if as_json {
                    Some(ACTIVE_JSON)
                } else {
                    Some("active")
                }
            } else {
                None
            };
            Ok(StatusTurn { line, again: follow, mode })
        },
        Ok(Response::Error(e)) => {
            let mut message = "daemon error: ".to_owned();
            message.append(e.as_str());
            Err(message)
        },
        Ok(other) => {
            let mut message = "unexpected response: ".to_owned();
            message.append(other.debug().as_str());
            Err(message)
        },
        Err(e) => {
            let mut message = "failed to query daemon status: ".to_owned();
            message.append(e.message().as_str());
            Err(message)
        },
    }
}

// ─── mode and menu ───────────────────────────────────────────────────────────

/// The request to change the mode.
pub open spec fn mode_request_of(mode: Seq<char>) -> RequestView {
    RequestView::SetMode { mode }
}

/// The request to change the mode.
pub fn mode_request(mode: &str) -> (res: Request)
    ensures
        res@ == (RequestView::SetMode { mode: mode@ }),
        res@ == mode_request_of(mode@),
{
    Request::SetMode { mode: mode.to_owned() }
}

/// The new mode, or why it was not changed.
pub open spec fn mode_result(answer: Result<Response, DaemonTransportError>) -> Result<
    Seq<char>,
    Seq<char>,
> {
    match answer {
        Ok(Response::ModeChanged { mode }) => Ok(mode@),
        Ok(Response::Error(e)) => Err("daemon error: "@ + e@),
        Ok(other) => Err("unexpected response: "@ + daemon::response_debug(other@)),
        Err(e) => Err("failed to set mode: "@ + e.message_of()),
    }
}

/// The new mode, or why it was not changed.
pub fn mode_outcome(answer: Result<Response, DaemonTransportError>) -> (res: Result<String, String>)
    ensures
        match answer {
            Ok(Response::ModeChanged { mode }) => res matches Ok(m) && m@ == mode@,
            Ok(Response::Error(e)) => res matches Err(m) && m@ == "daemon error: "@ + e@,
            Ok(other) => res matches Err(m) && m@ == "unexpected response: "@
                + daemon::response_debug(other@),
            Err(e) => res matches Err(m) && m@ == "failed to set mode: "@ + e.message_of(),
        },
        match mode_result(answer) {
            Ok(mode) => res matches Ok(m) && m@ == mode,
            Err(message) => res matches Err(m) && m@ == message,
        },
{
    match answer {
        Ok(Response::ModeChanged { mode }) => Ok(mode),
        Ok(Response::Error(e)) => {
            let mut message = "daemon error: ".to_owned();
            message.append(e.as_str());
            Err(message)
        },
        Ok(other) => {
            let mut message = "unexpected response: ".to_owned();
            message.append(other.debug().as_str());
            Err(message)
        },
        Err(e) => {
            let mut message = "failed to set mode: ".to_owned();
            message.append(e.message().as_str());
            Err(message)
        },
    }
}

/// The members of an option of the mode picker: its label and the command that it
/// executes.
pub open spec fn option_members(mode: Seq<char>) -> Seq<Seq<char>> {
    seq![
        json::member_text("label"@, json::json_text(mode)),
        json::member_text("exec"@, json::json_text("e-voice mode "@ + mode)),
    ]
}

/// An option of the mode picker.
pub open spec fn menu_option(mode: Seq<char>) -> Seq<char> {
    json::object_text(option_members(mode))
}

/// The JSON text of a list, from those of its items.
pub open spec fn list_text(items: Seq<Seq<char>>) -> Seq<char> {
    "["@ + text::join(items, ","@) + "]"@
}

/// The JSON text of a list, from those of its items.
pub fn list(items: &Vec<String>) -> (res: String)
    ensures
        res@ == list_text(text::texts(items@)),
{
    let mut out = "[".to_owned();
    out.append(strings::join(items, ",").as_str());
    out.append("]");
    out
}

/// The JSON list for a mode picker.
pub open spec fn menu_text() -> Seq<char> {
    list_text(Seq::new(4, |i: int| menu_option(MENU_MODES@[i]@)))
}

/// The JSON list for a mode picker.
pub fn menu() -> (res: String)
    ensures
        res@ == list_text(Seq::new(4, |i: int| menu_option(MENU_MODES@[i]@))),
        res@ == menu_text(),
{
    let mut items: Vec<String> = Vec::new();
    let mut i: usize = 0;
    while i < 4
        invariant
            i <= 4,
            items@.len() == i,
            forall|k: int| 0 <= k < i ==> (#[trigger] items@[k])@ == menu_option(MENU_MODES@[k]@),
        decreases 4 - i,
    {
        let mode = MENU_MODES[i];
        let mut exec = "e-voice mode ".to_owned();
        exec.append(mode);
        let object = JsonObject::new().with_str("label", mode).with_str("exec", exec.as_str());
        assert(object@ =~= option_members(mode@));
        items.push(object.text());
        i = i + 1;
    }
    assert(text::texts(items@) =~= Seq::new(4, |k: int| menu_option(MENU_MODES@[k]@)));
    list(&items)
}

// ─── doctor ──────────────────────────────────────────────────────────────────

/// How the outcome of a check is shown.
pub open spec fn shown(status: CheckStatus) -> Seq<char> {
    match status {
        CheckStatus::Pass => "ok"@,
        CheckStatus::Fail => "fail"@,
        CheckStatus::Info => "info"@,
        CheckStatus::Warn => "warn"@,
    }
}

/// How the outcome of a check is shown.
pub fn render_check_status(status: CheckStatus) -> (res: &'static str)
    ensures
        res@ == shown(status),
{
    match status {
        CheckStatus::Pass => "ok",
        CheckStatus::Fail => "fail",
        CheckStatus::Info => "info",
        CheckStatus::Warn => "warn",
    }
}

/// How a check is shown.
pub open spec fn check_line(result: (CheckStatus, Seq<char>)) -> Seq<char> {
    "["@ + shown(result.0) + "] "@ + result.1
}

/// A report: its lines and how the command ends.
#[derive(Debug)]
pub struct Report {
    pub lines: Vec<String>,
    pub result: Result<(), String>,
}

/// The lines of the report on whether the configuration could be loaded.
pub open spec fn config_report(error: Option<Seq<char>>) -> Seq<Seq<char>> {
    seq![
        "e-voice doctor"@,
        match error {
            None => check_line((CheckStatus::Pass, "config load"@)),
            Some(e) => check_line((CheckStatus::Fail, "config load: "@ + e)),
        },
    ]
}

/// The report on whether the configuration could be loaded. Without it there are no
/// other checks.
pub fn report_config(error: Option<&str>) -> (res: Report)
    ensures
        match error {
            None => text::texts(res.lines@) == seq!["e-voice doctor"@, "[ok] config load"@]
                && res.result is Ok,
            Some(e) => text::texts(res.lines@) == seq![
                "e-voice doctor"@,
                "[fail] config load: "@ + e@,
            ] && (res.result matches Err(m) && m@
                == "doctor failed: config could not be loaded"@),
        },
        text::texts(res.lines@) == config_report(text::opt_text(error)),
        res.result is Ok <==> error is None,
{
    let mut lines: Vec<String> = Vec::new();
    lines.push("e-voice doctor".to_owned());
    match error {
        None => {
            lines.push("[ok] config load".to_owned());
            assert(text::texts(lines@) =~= seq!["e-voice doctor"@, "[ok] config load"@]);
            proof {
                lemma_config_line("config load"@);
                assert(text::texts(lines@) =~= config_report(None));
            }
            Report { lines, result: Ok(()) }
        },
        Some(e) => {
            let mut line = "[fail] config load: ".to_owned();
            line.append(e);
            lines.push(line);
            assert(text::texts(lines@) =~= seq![
                "e-voice doctor"@,
                "[fail] config load: "@ + e@,
            ]);
            proof {
                lemma_config_line("config load: "@ + e@);
                lemma_config_failure(e@);
                assert(text::texts(lines@) =~= config_report(Some(e@)));
            }
            Report {
                lines,
                result: Err("doctor failed: config could not be loaded".to_owned()),
            }
        },
    }
}

/// The lines of the report on the checks.
pub open spec fn report_lines(results: Seq<(CheckStatus, Seq<char>)>) -> Seq<Seq<char>> {
    let lines = Seq::new(results.len(), |i: int| check_line(results[i]));
    if diagnostics::failures(results) == 0 {
        lines.push("[ok] doctor completed successfully"@)
    } else {
        lines
    }
}

/// Why the doctor command fails, if it does.
pub open spec fn doctor_error(results: Seq<(CheckStatus, Seq<char>)>) -> Option<Seq<char>> {
    let n = diagnostics::failures(results);
    if n == 0 {
        None
    } else {
        Some("doctor found "@ + text::decimal(n) + " issue(s)"@)
    }
}

/// The report on the checks. The command fails if one of them did.
pub fn run_doctor(results: &Vec<CheckResult>) -> (res: Report)
    ensures
        text::texts(res.lines@) == report_lines(diagnostics::results_view(results@)),
        match res.result {
            Ok(_) => diagnostics::failures(diagnostics::results_view(results@)) == 0,
            Err(m) => diagnostics::failures(diagnostics::results_view(results@)) > 0 && m@
                == "doctor found "@ + text::decimal(
                diagnostics::failures(diagnostics::results_view(results@)),
            ) + " issue(s)"@,
        },
        match doctor_error(diagnostics::results_view(results@)) {
            Some(message) => res.result matches Err(m) && m@ == message,
            None => res.result is Ok,
        },
{
    let ghost all = diagnostics::results_view(results@);
    let mut lines: Vec<String> = Vec::new();
    let mut failures: usize = 0;
    let mut i: usize = 0;
    assert(all.take(0) =~= Seq::<(CheckStatus, Seq<char>)>::empty());
    while i < results.len()
        invariant
            i <= results@.len(),
            all == diagnostics::results_view(results@),
            lines@.len() == i,
            failures <= i,
            failures == diagnostics::failures(all.take(i as int)),
            forall|k: int| 0 <= k < i ==> (#[trigger] lines@[k])@ == check_line(all[k]),
        decreases results@.len() - i,
    {
        let result = &results[i];
        assert(all[i as int] == result@);
        assert(all.take(i as int + 1).drop_last() =~= all.take(i as int));
        assert(all.take(i as int + 1).last() == all[i as int]);
        if result.status == CheckStatus::Fail {
            failures = failures + 1;
        }
        let mut line = "[".to_owned();
        line.append(render_check_status(result.status));
        line.append("] ");
        line.append(result.message.as_str());
        lines.push(line);
        i = i + 1;
    }
    assert(all.take(i as int) =~= all);
    if failures == 0 {
        lines.push("[ok] doctor completed successfully".to_owned());
        assert(text::texts(lines@) =~= report_lines(all));
        Report { lines, result: Ok(()) }
    } else {
        let mut message = "doctor found ".to_owned();
        message.append(strings::decimal(failures as u64).as_str());
        message.append(" issue(s)");
        assert(text::texts(lines@) =~= report_lines(all));
        Report { lines, result: Err(message) }
    }
}

// ─── The port ────────────────────────────────────────────────────────────────

/// All characters are decimal digits.
pub open spec fn all_digits(s: Seq<char>) -> bool {
    forall|i: int| 0 <= i < s.len() ==> '0' <= #[trigger] s[i] <= '9'
}

/// The number that a sequence of decimal digits stands for.
pub open spec fn number(s: Seq<char>) -> nat
    decreases s.len(),
{
    if s.len() == 0 {
        0
    } else {
        10 * number(s.drop_last()) + (s.last() as nat - '0' as nat) as nat
    }
}

/// The port that a text stands for: decimal digits, with or without a plus sign
/// before them, for a number below 65536.
pub open spec fn port_of(s: Seq<char>) -> Option<u16> {
    let digits = if s.len() > 0 && s[0] == '+' {
        s.skip(1)
    } else {
        s
    };
    if digits.len() > 0 && all_digits(digits) && number(digits) < 65536 {
        Some(number(digits) as u16)
    } else {
        None
    }
}

/// The number of digits, unless it is 65536 or more.
fn parse_digits(v: &Vec<char>, from: usize) -> (res: Option<u16>)
    requires
        from <= v@.len(),
    ensures
        ({
            let digits = v@.skip(from as int);
            match res {
                Some(n) => all_digits(digits) && number(digits) == n,
                None => !all_digits(digits) || number(digits) >= 65536,
            }
        }),
{
    let ghost digits = v@.skip(from as int);
    let mut n: u64 = 0;
    let mut i: usize = from;
    assert(digits.take(0) =~= Seq::<char>::empty());
    while i < v.len()
        invariant
            from <= i <= v@.len(),
            digits == v@.skip(from as int),
            all_digits(digits.take(i - from)),
            n < 65536 ==> number(digits.take(i - from)) == n,
            n >= 65536 ==> number(digits.take(i - from)) >= 65536,
            n <= 655360,
        decreases v@.len() - i,
    {
        let c = v[i];
        let ghost head = digits.take(i - from);
        let ghost next = digits.take(i + 1 - from);
        assert(next.drop_last() =~= head);
        assert(next.last() == c);
        assert(digits[i - from] == c);
        if c < '0' || c > '9' {
            return None;
        }
        assert forall|k: int| 0 <= k < next.len() implies '0' <= #[trigger] next[k] <= '9' by {
            if k < head.len() {
                assert(next[k] == head[k]);
            }
        }
        if n < 65536 {
            n = n * 10 + (c as u64 - '0' as u64);
        }
        i = i + 1;
    }
    assert(digits.take(i - from) =~= digits);
    if n < 65536 {
        Some(n as u16)
    } else {
        None
    }
}

/// The port of the HTTP server, from the value of `E_VOICE_HTTP_PORT`.
pub fn http_port_from_env(value: Option<&str>) -> (res: Option<u16>)
    ensures
        res == match value {
            Some(s) => port_of(s@),
            None => None,
        },
{
    let s = match value {
        Some(s) => s,
        None => {
            return None;
        },
    };
    let v = strings::to_chars(s);
    let from: usize = if v.len() > 0 && v[0] == '+' {
        1
    } else {
        0
    };
    assert(v@.skip(0) =~= v@);
    if v.len() == from {
        return None;
    }
    parse_digits(&v, from)
}

/// The port that the HTTP server listens at, from the value of `E_VOICE_HTTP_PORT`.
pub open spec fn listening_port(value: Option<Seq<char>>) -> u16 {
    match value {
        Some(s) => match port_of(s) {
            Some(port) => port,
            None => DEFAULT_HTTP_PORT,
        },
        None => DEFAULT_HTTP_PORT,
    }
}

/// The port that the HTTP server listens at, from the value of `E_VOICE_HTTP_PORT`.
pub fn http_port(value: Option<&str>) -> (res: u16)
    ensures
        res == match value {
            Some(s) => match port_of(s@) {
                Some(port) => port,
                None => DEFAULT_HTTP_PORT,
            },
            None => DEFAULT_HTTP_PORT,
        },
        res == listening_port(text::opt_text(value)),
{
    match http_port_from_env(value) {
        Some(port) => port,
        None => DEFAULT_HTTP_PORT,
    }
}

// ─── Laws ────────────────────────────────────────────────────────────────────

/// From stdin to stdout: a daemon in any state that takes the request of the process
/// command forwards the input as it is, and whatever the backend does with it, the
/// command succeeds and writes something. It writes the input if the backend failed.
pub proof fn law_dictated_text_is_typed(
    s: daemon::AppStateView,
    input: Seq<char>,
    request_id: Seq<char>,
    step: daemon::Step,
    outcome: Result<String, BackendError>,
    answer: Response,
)
    requires
        !text::blank(input_text(input)),
        daemon::is_step_for(
            s,
            RequestView::Process {
                text: input_text(input),
                request_id: Some(request_id),
                profile: None,
            },
            step,
        ),
        answer@ == ResponseView::Text(processor::typed_text(step->Forward_0.text@, outcome)),
    ensures
        step is Forward && step->Forward_0.text@ == input_text(input),
        ({
            let written = process_outcome_of(input_text(input), Ok(answer));
            &&& written.error is None
            &&& written.stdout == processor::typed_text(input_text(input), outcome)
            &&& !text::blank(written.stdout)
            &&& outcome is Err ==> written.stdout == input_text(input)
        }),
{
}

/// The process command always hands a text on: what the daemon made of it, or the
/// input itself, and then it also fails and says why.
pub proof fn law_input_is_handed_on(input: Seq<char>, answer: Result<Response, DaemonTransportError>)
    ensures
        ({
            let outcome = process_outcome_of(input, answer);
            if answer is Ok && answer->Ok_0 is Text {
                outcome.stdout == answer->Ok_0->Text_0@ && outcome.error is None
            } else {
                outcome.stdout == input && outcome.error is Some && outcome.stderr is Some
            }
        }),
{
}

/// The mode that a line was last printed for, after the daemon was seen in some modes.
pub open spec fn last_printed(follow: bool, seen: Seq<Seq<char>>) -> Option<Seq<char>>
    decreases seen.len(),
{
    if seen.len() == 0 {
        None
    } else {
        let last = last_printed(follow, seen.drop_last());
        if status_is_printed(follow, last, seen.last()) {
            Some(seen.last())
        } else {
            last
        }
    }
}

/// A command that follows the daemon prints on the first look and on mode changes: on
/// every look that finds another mode than the look before, and on no other.
pub proof fn law_status_follows_mode_changes(seen: Seq<Seq<char>>, mode: Seq<char>)
    ensures
        status_is_printed(true, last_printed(true, seen), mode) <==> seen.len() == 0
            || seen.last() != mode,
    decreases seen.len(),
{
    if seen.len() > 0 {
        law_status_follows_mode_changes(seen.drop_last(), seen.last());
    }
}

/// Different numbers make different names of requests.
pub proof fn law_request_ids_differ(a: u64, b: u64)
    requires
        a != b,
    ensures
        request_id_of(a) != request_id_of(b),
{
    if request_id_of(a) == request_id_of(b) {
        let n = "req-"@.len() as int;
        assert(request_id_of(a).skip(n) =~= text::decimal(a as nat));
        assert(request_id_of(b).skip(n) =~= text::decimal(b as nat));
        lemma_number_of_decimal(a as nat);
        lemma_number_of_decimal(b as nat);
    }
}

proof fn lemma_number_of_decimal(n: nat)
    ensures
        all_digits(text::decimal(n)),
        text::decimal(n).len() > 0,
        number(text::decimal(n)) == n,
    decreases n,
{
    reveal_with_fuel(number, 2);
    if n >= 10 {
        lemma_number_of_decimal(n / 10);
        assert(text::decimal(n).drop_last() =~= text::decimal(n / 10));
    } else {
        assert(text::decimal(n).drop_last() =~= Seq::<char>::empty());
    }
}

/// A port that was written in decimal digits is read back.
pub proof fn law_port_roundtrip(port: u16)
    ensures
        port_of(text::decimal(port as nat)) == Some(port),
{
    lemma_number_of_decimal(port as nat);
    assert(text::decimal(port as nat)[0] != '+');
}

/// Every command in the mode picker is one that the daemon takes.
pub proof fn law_menu_commands_are_taken(i: int, s: daemon::AppStateView)
    requires
        0 <= i < 4,
    ensures
        ({
            let after = daemon::after_request(
                s,
                RequestView::SetMode { mode: MENU_MODES@[i]@ },
            );
            daemon::status_of(after)->Status_mode == MENU_MODES@[i]@
        }),
{
    modes::law_menu_modes_are_modes(i);
}

/// The text of a request is what came on stdin, but for line feeds at its end, and these
/// are gone.
pub proof fn law_input_loses_line_feeds_only(input: Seq<char>)
    ensures
        ({
            let t = input_text(input);
            &&& text::starts_with(input, t)
            &&& forall|i: int| t.len() <= i < input.len() ==> #[trigger] input[i] == '\n'
            &&& t.len() > 0 ==> t.last() != '\n'
        }),
{
    text::law_trim_end_matches(input, '\n');
}

/// Input is processed exactly if there is anything in it but white space.
pub proof fn law_input_is_processed_unless_blank(input: Seq<char>)
    ensures
        text_to_process(input) is Some <==> exists|i: int|
            0 <= i < input.len() && !text::white_space(#[trigger] input[i]),
        text_to_process(input) matches Some(t) ==> t == input_text(input),
{
    let t = input_text(input);
    text::law_trim_end_matches(input, '\n');
    if text::blank(t) {
        assert forall|i: int| 0 <= i < input.len() implies text::white_space(
            #[trigger] input[i],
        ) by {
            if i < t.len() {
                assert(input.take(t.len() as int)[i] == t[i]);
            } else {
                assert(input[i] == '\n');
            }
        }
    } else {
        let i = choose|i: int| 0 <= i < t.len() && !text::white_space(#[trigger] t[i]);
        assert(input.take(t.len() as int)[i] == input[i]);
    }
}

/// The numbers of two requests in a row are different, and each but the last is followed
/// by the next one.
pub proof fn law_numbers_go_on(n: u64)
    ensures
        next_number(n) != n,
        n < u64::MAX ==> next_number(n) == n + 1,
        request_id_of(next_number(n)) != request_id_of(n),
{
    law_request_ids_differ(next_number(n), n);
}

/// The name of a request is `req-` and its number in decimal digits.
pub proof fn law_request_id_names_the_number(n: u64)
    ensures
        text::starts_with(request_id_of(n), "req-"@),
        all_digits(request_id_of(n).skip(4)),
        number(request_id_of(n).skip(4)) == n,
{
    reveal_strlit("req-");
    lemma_number_of_decimal(n as nat);
    assert(request_id_of(n).take(4) =~= "req-"@);
    assert(request_id_of(n).skip(4) =~= text::decimal(n as nat));
}

/// What the process command says of a failure names what failed.
pub proof fn law_failure_is_explained(input: Seq<char>, e: String, t: DaemonTransportError)
    ensures
        process_outcome_of(input, Ok(Response::Error(e))) == (OutcomeView {
            stdout: input,
            stderr: Some("e-voice: daemon error: "@ + e@),
            error: Some("process failed with daemon error"@),
        }),
        process_outcome_of(input, Err(t)).stderr == Some(
            "e-voice: daemon unreachable ("@ + t.message_of()
                + "). Start it with: e-voice daemon"@,
        ),
        process_outcome_of(input, Err(t)).error == Some("process failed: daemon unreachable"@),
{
}

/// The status command fails for every answer but a status, and says why.
pub proof fn law_status_fails_without_a_status(answer: Result<Response, DaemonTransportError>)
    ensures
        status_error(answer) is None <==> answer is Ok && answer->Ok_0 is Status,
        answer matches Ok(Response::Error(e)) ==> status_error(answer) == Some(
            "daemon error: "@ + e@,
        ),
        answer matches Err(e) ==> status_error(answer) == Some(
            "failed to query daemon status: "@ + e.message_of(),
        ),
{
}

/// Without following the daemon, a line is printed for the first look and for no other.
pub proof fn law_status_is_printed_once(last: Seq<char>, mode: Seq<char>)
    ensures
        status_is_printed(false, None, mode),
        !status_is_printed(false, Some(last), mode),
{
}

/// A mode is changed exactly if the daemon says so, and then to what it says. Otherwise
/// the command says what the daemon says, or what is wrong with it.
pub proof fn law_mode_is_what_the_daemon_says(answer: Result<Response, DaemonTransportError>)
    ensures
        mode_result(answer) is Ok <==> answer is Ok && answer->Ok_0 is ModeChanged,
        answer matches Ok(Response::ModeChanged { mode }) ==> mode_result(answer) == Ok::<
            Seq<char>,
            Seq<char>,
        >(mode@),
        answer matches Ok(Response::Error(e)) ==> mode_result(answer) == Err::<
            Seq<char>,
            Seq<char>,
        >("daemon error: "@ + e@),
        answer matches Err(e) ==> mode_result(answer) == Err::<Seq<char>, Seq<char>>(
            "failed to set mode: "@ + e.message_of(),
        ),
{
}

/// An option of the mode picker shows the mode, and executes the command that asks for
/// that very mode.
pub proof fn law_option_is_read_back(mode: Seq<char>)
    ensures
        json_reader::read_object(menu_option(mode)) == Some(
            seq![
                ("label"@, JsonValue::Str(mode)),
                ("exec"@, JsonValue::Str("e-voice mode "@ + mode)),
            ],
        ),
{
    let exec = "e-voice mode "@ + mode;
    let fields = seq![
        Field { key: "label"@, text: json::json_text(mode), value: JsonValue::Str(mode) },
        Field { key: "exec"@, text: json::json_text(exec), value: JsonValue::Str(exec) },
    ];
    reveal_strlit("label");
    reveal_strlit("exec");
    json_reader::lemma_reads_as_str(mode);
    json_reader::lemma_reads_as_str(exec);
    assert(json_reader::plain_key("label"@));
    assert(json_reader::plain_key("exec"@));
    assert(option_members(mode) =~= json_reader::field_texts(fields));
    json_reader::lemma_read_object(fields);
    assert(json_reader::field_values(fields) =~= seq![
        ("label"@, JsonValue::Str(mode)),
        ("exec"@, JsonValue::Str(exec)),
    ]);
}

/// The outcomes of checks are shown differently, and a check is shown with its outcome in
/// front and its message behind.
pub proof fn law_checks_are_told_apart(a: CheckStatus, b: CheckStatus, message: Seq<char>)
    ensures
        shown(a) == shown(b) ==> a == b,
        check_line((CheckStatus::Pass, message)) == "[ok] "@ + message,
        check_line((CheckStatus::Fail, message)) == "[fail] "@ + message,
        check_line((CheckStatus::Info, message)) == "[info] "@ + message,
        check_line((CheckStatus::Warn, message)) == "[warn] "@ + message,
{
    reveal_strlit("[");
    reveal_strlit("] ");
    reveal_strlit("ok");
    reveal_strlit("fail");
    reveal_strlit("info");
    reveal_strlit("warn");
    reveal_strlit("[ok] ");
    reveal_strlit("[fail] ");
    reveal_strlit("[info] ");
    reveal_strlit("[warn] ");
    assert("ok"@.len() == 2);
    assert("fail"@[0] == 'f' && "info"@[0] == 'i' && "warn"@[0] == 'w' && "ok"@[0] == 'o');
    assert(check_line((CheckStatus::Pass, message)) =~= "[ok] "@ + message);
    assert(check_line((CheckStatus::Fail, message)) =~= "[fail] "@ + message);
    assert(check_line((CheckStatus::Info, message)) =~= "[info] "@ + message);
    assert(check_line((CheckStatus::Warn, message)) =~= "[warn] "@ + message);
}

/// The report has a line for every check, in order, and one more exactly if none failed.
/// The command fails exactly if a check did.
pub proof fn law_report_is_complete(results: Seq<(CheckStatus, Seq<char>)>, i: int)
    requires
        0 <= i < results.len(),
    ensures
        report_lines(results)[i] == check_line(results[i]),
        ({
            let failed = exists|k: int|
                0 <= k < results.len() && (#[trigger] results[k]).0 == CheckStatus::Fail;
            &&& failed ==> report_lines(results).len() == results.len()
            &&& !failed ==> report_lines(results).len() == results.len() + 1
                && report_lines(results).last() == "[ok] doctor completed successfully"@
            &&& doctor_error(results) is Some <==> failed
        }),
{
    diagnostics::law_failures_are_counted(results);
}

/// The number of failures is named if there are any.
pub proof fn law_failures_are_numbered(results: Seq<(CheckStatus, Seq<char>)>)
    ensures
        doctor_error(results) matches Some(message) ==> message == "doctor found "@
            + text::decimal(diagnostics::failures(results)) + " issue(s)"@,
{
}

/// A plus sign and zeros in front of a port do not count.
pub proof fn law_port_prefixes_do_not_count(s: Seq<char>)
    requires
        s.len() > 0,
        s[0] != '+',
    ensures
        port_of("+"@ + s) == port_of(s),
        port_of("0"@ + s) == port_of(s),
{
    reveal_strlit("+");
    reveal_strlit("0");
    let plus = "+"@ + s;
    let zero = "0"@ + s;
    assert(plus[0] == '+');
    assert(plus.skip(1) =~= s);
    assert(zero[0] == '0');
    lemma_leading_zero(s);
    assert(zero =~= seq!['0'] + s);
    if all_digits(zero) {
        assert forall|i: int| 0 <= i < s.len() implies '0' <= #[trigger] s[i] <= '9' by {
            assert(zero[i + 1] == s[i]);
        }
    }
    if all_digits(s) {
        assert forall|i: int| 0 <= i < zero.len() implies '0' <= #[trigger] zero[i] <= '9' by {
            if i > 0 {
                assert(zero[i] == s[i - 1]);
            }
        }
    }
}

proof fn lemma_leading_zero(s: Seq<char>)
    ensures
        number(seq!['0'] + s) == number(s),
    decreases s.len(),
{
    let all = seq!['0'] + s;
    if s.len() == 0 {
        reveal_with_fuel(number, 2);
        assert(all.drop_last() =~= Seq::<char>::empty());
        assert(all.last() == '0');
    } else {
        lemma_leading_zero(s.drop_last());
        assert(all.drop_last() =~= seq!['0'] + s.drop_last());
        assert(all.last() == s.last());
    }
}

/// A number that is too large is no port, and neither is a text with anything but digits
/// behind the first character, with no digit at all, or that begins otherwise.
pub proof fn law_other_texts_are_no_ports(n: nat, s: Seq<char>, i: int)
    requires
        n >= 65536,
    ensures
        port_of(text::decimal(n)) is None,
        0 < i < s.len() && !('0' <= s[i] <= '9') ==> port_of(s) is None,
        s.len() > 0 && s[0] != '+' && !('0' <= s[0] <= '9') ==> port_of(s) is None,
        s.len() == 0 ==> port_of(s) is None,
        s.len() == 1 && s[0] == '+' ==> port_of(s) is None,
{
    lemma_number_of_decimal(n);
    assert('0' <= text::decimal(n)[0] <= '9');
    if 0 < i < s.len() && !('0' <= s[i] <= '9') {
        assert(s.skip(1)[i - 1] == s[i]);
    }
}

/// Decimal digits stand for their number.
pub proof fn law_decimal_stands_for_the_number(n: nat)
    ensures
        all_digits(text::decimal(n)),
        number(text::decimal(n)) == n,
{
    lemma_number_of_decimal(n);
}

/// The server listens at the port that the environment names, and at its own if the
/// environment names none.
pub proof fn law_server_listens_where_it_is_told(port: u16, s: Seq<char>)
    ensures
        listening_port(Some(text::decimal(port as nat))) == port,
        port_of(s) is None ==> listening_port(Some(s)) == 39539,
        listening_port(None) == 39539,
{
    law_port_roundtrip(port);
}

proof fn lemma_reads_as_active(t: Seq<char>)
    requires
        json_reader::plain_key(t),
    ensures
        json_reader::reads_as("\""@ + t + "\""@, JsonValue::Str(t)),
{
    json_reader::lemma_reads_as_quoted("\""@ + t + "\""@, t);
}

/// The status as JSON is an object in which Waybar finds the class, the text and the
/// tooltip of a daemon that is there. The plain status says the same in a word.
pub proof fn law_status_line_is_read()
    ensures
        json_reader::read_object(status_line(true)) == Some(
            seq![
                ("class"@, JsonValue::Str("active"@)),
                ("text"@, JsonValue::Str("active"@)),
                ("tooltip"@, JsonValue::Str("e-voice active"@)),
            ],
        ),
        status_line(false) == "active"@,
{
    reveal_strlit("class");
    reveal_strlit("text");
    reveal_strlit("tooltip");
    reveal_strlit("active");
    reveal_strlit("e-voice active");
    reveal_strlit("\"");
    reveal_strlit("\":");
    reveal_strlit("{");
    reveal_strlit("}");
    reveal_strlit(",");
    reveal_strlit("{\"class\":\"active\",\"text\":\"active\",\"tooltip\":\"e-voice active\"}");
    let active = "\""@ + "active"@ + "\""@;
    let tip = "\""@ + "e-voice active"@ + "\""@;
    lemma_reads_as_active("active"@);
    lemma_reads_as_active("e-voice active"@);
    let fields = seq![
        Field { key: "class"@, text: active, value: JsonValue::Str("active"@) },
        Field { key: "text"@, text: active, value: JsonValue::Str("active"@) },
        Field { key: "tooltip"@, text: tip, value: JsonValue::Str("e-voice active"@) },
    ];
    json_reader::lemma_read_object(fields);
    assert(json_reader::field_values(fields) =~= seq![
        ("class"@, JsonValue::Str("active"@)),
        ("text"@, JsonValue::Str("active"@)),
        ("tooltip"@, JsonValue::Str("e-voice active"@)),
    ]);
    let a = json::member_text("class"@, active);
    let b = json::member_text("text"@, active);
    let c = json::member_text("tooltip"@, tip);
    assert(json_reader::field_texts(fields) =~= seq![a, b, c]);
    text::law_join(seq![a], seq![b], a, ","@);
    text::law_join(seq![a], seq![b], b, ","@);
    text::law_join(seq![a, b], seq![c], c, ","@);
    assert(seq![a] + seq![b] =~= seq![a, b]);
    assert(seq![a, b] + seq![c] =~= seq![a, b, c]);
    assert(json::object_text(seq![a, b, c]) =~= ACTIVE_JSON@);
}

proof fn lemma_config_line(message: Seq<char>)
    ensures
        check_line((CheckStatus::Pass, "config load"@)) == "[ok] config load"@,
        check_line((CheckStatus::Fail, message)) == "[fail] "@ + message,
{
    law_checks_are_told_apart(CheckStatus::Pass, CheckStatus::Pass, message);
    law_checks_are_told_apart(CheckStatus::Pass, CheckStatus::Pass, "config load"@);
    reveal_strlit("[ok] ");
    reveal_strlit("config load");
    reveal_strlit("[ok] config load");
    assert("[ok] "@ + "config load"@ =~= "[ok] config load"@);
}

proof fn lemma_config_failure(e: Seq<char>)
    ensures
        "[fail] "@ + ("config load: "@ + e) == "[fail] config load: "@ + e,
{
    reveal_strlit("[fail] ");
    reveal_strlit("config load: ");
    reveal_strlit("[fail] config load: ");
    assert("[fail] "@ + ("config load: "@ + e) =~= "[fail] config load: "@ + e);
}

/// A configuration that cannot be loaded is the one failure of the report, and is
/// explained in it.
pub proof fn law_unloadable_configuration_is_explained(e: Seq<char>)
    ensures
        config_report(None) == seq!["e-voice doctor"@, "[ok] config load"@],
        config_report(Some(e)) == seq!["e-voice doctor"@, "[fail] config load: "@ + e],
{
    lemma_config_line("config load: "@ + e);
    lemma_config_failure(e);
}

/// The process command leaves the profile to the daemon: a daemon in any mode processes
/// the text with the profile of that mode.
pub proof fn law_process_command_uses_the_mode(
    s: daemon::AppStateView,
    input: Seq<char>,
    request_id: Seq<char>,
    step: daemon::Step,
)
    requires
        daemon::is_step_for(s, process_request_of(input, request_id), step),
    ensures
        step is Forward,
        step->Forward_0.text@ == input,
        step->Forward_0.request_id@ == request_id,
        step->Forward_0.call.prompt@ == modes::prompt(input + s.active_profile.instruction()),
{
}

/// The mode command asks for the mode that it is given, as it is.
pub proof fn law_mode_command_asks_for_the_mode(s: daemon::AppStateView, p: ProfileView)
    ensures
        daemon::after_request(s, mode_request_of(p.mode_name())).active_profile == p,
        daemon::decoded_request(daemon::request_text(mode_request_of(p.mode_name()))) == Some(
            RequestView::SetMode { mode: p.mode_name() },
        ),
{
    modes::law_mode_roundtrip(p);
    daemon::law_request_is_read_back(mode_request_of(p.mode_name()));
}

/// The programs that stay log, and no others do.
pub proof fn law_who_logs(headless: bool, command: Option<Commands>)
    ensures
        log_filter(true, command) == "e_voice=info"@,
        command matches Some(c) && (c is Daemon || c is Tray) ==> log_filter(headless, command)
            == "e_voice=info"@,
        command is None ==> log_filter(false, command) == "off"@,
        command matches Some(c) && !(c is Daemon || c is Tray) ==> log_filter(false, command)
            == "off"@,
{
}

/// Only the format of that name, in this spelling, is JSON.
pub proof fn law_format(format: Seq<char>)
    ensures
        is_json(Some(format)) <==> format == "json"@,
        !is_json(None),
{
}

/// The mode picker is a list of the options for all modes, in order: `law_option_is_read_back`
/// says what each of them is.
pub proof fn law_picker_lists_the_modes()
    ensures
        menu_text() == "["@ + menu_option("clean"@) + ","@ + menu_option("formal"@) + ","@
            + menu_option("casual"@) + ","@ + menu_option("bullet"@) + "]"@,
{
    let a = menu_option("clean"@);
    let b = menu_option("formal"@);
    let c = menu_option("casual"@);
    let d = menu_option("bullet"@);
    let items = Seq::new(4, |i: int| menu_option(MENU_MODES@[i]@));
    assert(items =~= seq![a] + seq![b] + seq![c] + seq![d]);
    text::law_join(seq![a], seq![b], a, ","@);
    text::law_join(seq![a], seq![b], b, ","@);
    text::law_join(seq![a] + seq![b], seq![c], c, ","@);
    text::law_join(seq![a] + seq![b] + seq![c], seq![d], d, ","@);
    assert(menu_text() =~= "["@ + a + ","@ + b + ","@ + c + ","@ + d + "]"@);
}

} // verus!
