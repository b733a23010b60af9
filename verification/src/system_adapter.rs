//! What has to be run, written and sent on the host for each operation that the
//! program needs from it.
use crate::hook;
use crate::llm_backend;
use crate::llm_backend::{HttpFailure, HttpRequest, HttpRequestView, Method};
use crate::strings;
use crate::text;
use crate::voxtype;
use vstd::prelude::*;
use vstd::string::*;

verus! {

/// How long the model server has to show that it is reachable.
pub const HEALTH_TIMEOUT_SECS: u64 = 2;

// ─── Commands ────────────────────────────────────────────────────────────────

/// A program to run, with its arguments.
#[derive(Debug)]
pub struct SystemCommand {
    pub program: String,
    pub args: Vec<String>,
}

impl View for SystemCommand {
    type V = (Seq<char>, Seq<Seq<char>>);

    open spec fn view(&self) -> (Seq<char>, Seq<Seq<char>>) {
        (self.program@, text::texts(self.args@))
    }
}

impl SystemCommand {
    /// A program without arguments.
    fn new(program: &str) -> (res: SystemCommand)
        ensures
            res@ == (program@, Seq::<Seq<char>>::empty()),
    {
        let res = SystemCommand { program: program.to_owned(), args: Vec::new() };
        assert(res@.1 =~= Seq::<Seq<char>>::empty());
        res
    }

    /// The command with one more argument.
    fn arg(self, arg: &str) -> (res: SystemCommand)
        ensures
            res@ == (self@.0, self@.1.push(arg@)),
    {
        let mut args = self.args;
        args.push(arg.to_owned());
        let res = SystemCommand { program: self.program, args };
        assert(res@.1 =~= self@.1.push(arg@));
        res
    }
}

/// Whether a command did what it is for. A command that cannot be run does not.
pub fn command_succeeded(outcome: &Result<bool, String>) -> (res: bool)
    ensures
        res == (outcome matches Ok(success) && *success),
{
    match outcome {
        Ok(success) => *success,
        Err(_) => false,
    }
}

/// The result of an operation for which it is enough that its command can be run.
pub fn command_ran(outcome: Result<bool, String>) -> (res: Result<(), String>)
    ensures
        match outcome {
            Ok(_) => res is Ok,
            Err(e) => res == Err::<(), String>(e),
        },
{
    match outcome {
        Ok(_) => Ok(()),
        Err(e) => Err(e),
    }
}

// ─── Plans ───────────────────────────────────────────────────────────────────

/// A step of an operation. The first step that fails ends the operation.
#[derive(Debug)]
pub enum HostStep {
    CreateDir(String),
    WriteFile { path: String, content: String },
    Run(SystemCommand),
}

/// What a [`HostStep`] holds.
pub enum HostStepView {
    CreateDir(Seq<char>),
    WriteFile { path: Seq<char>, content: Seq<char> },
    Run((Seq<char>, Seq<Seq<char>>)),
}

impl View for HostStep {
    type V = HostStepView;

    open spec fn view(&self) -> HostStepView {
        match self {
            HostStep::CreateDir(path) => HostStepView::CreateDir(path@),
            HostStep::WriteFile { path, content } => HostStepView::WriteFile {
                path: path@,
                content: content@,
            },
            HostStep::Run(command) => HostStepView::Run(command@),
        }
    }
}

/// A desktop notification.
#[derive(Debug)]
pub struct DesktopNotification {
    pub summary: String,
    pub body: String,
    pub icon: String,
    pub timeout_ms: u32,
}

// ─── Linux ───────────────────────────────────────────────────────────────────

/// The operations on a Linux host with systemd and a freedesktop session.
#[derive(Debug, Clone, Copy)]
pub struct LinuxSystemAdapter;

/// The command that makes systemd read its unit files again.
pub open spec fn reload_command() -> (Seq<char>, Seq<Seq<char>>) {
    ("systemctl"@, seq!["--user"@, "daemon-reload"@])
}

/// The command that starts the daemon now and at every login.
pub open spec fn enable_command() -> (Seq<char>, Seq<Seq<char>>) {
    ("systemctl"@, seq!["--user"@, "enable"@, "--now"@, "e-voice"@])
}

/// The steps that install and enable the daemon's user service.
pub open spec fn autostart_plan(home: Seq<char>, service_content: Seq<char>) -> Seq<HostStepView> {
    seq![
        HostStepView::CreateDir(text::path_join(home, ".config/systemd/user"@)),
        HostStepView::WriteFile {
            path: text::path_join(home, ".config/systemd/user/e-voice.service"@),
            content: service_content,
        },
        HostStepView::Run(reload_command()),
        HostStepView::Run(enable_command()),
    ]
}

/// The views of steps.
pub open spec fn plan_view(steps: Seq<HostStep>) -> Seq<HostStepView> {
    steps.map_values(|s: HostStep| s@)
}

/// The notification says what it is meant to say.
pub open spec fn is_notification(
    n: DesktopNotification,
    summary: Seq<char>,
    body: Seq<char>,
) -> bool {
    n.summary@ == summary && n.body@ == body && n.icon@ == "e-voice"@ && n.timeout_ms == 3000
}

/// The request whose answer shows whether the model server is reachable.
pub open spec fn health_request(url: Seq<char>) -> HttpRequestView {
    HttpRequestView {
        method: Method::Get,
        url: llm_backend::endpoint_of(url, "/api/tags"@),
        body: None,
    }
}

/// What a file holds. One that cannot be read counts as empty.
pub open spec fn content_or_empty(content: Option<Seq<char>>) -> Seq<char> {
    match content {
        Some(c) => c,
        None => Seq::empty(),
    }
}

/// The command that does something to the speech-to-text service.
pub open spec fn service_command(verb: Seq<char>) -> (Seq<char>, Seq<Seq<char>>) {
    ("systemctl"@, seq!["--user"@, verb, "voxtype.service"@])
}

/// The command that opens a file.
pub open spec fn open_command(path: Seq<char>) -> (Seq<char>, Seq<Seq<char>>) {
    ("xdg-open"@, seq![path])
}

/// The command that looks for a program.
pub open spec fn find_command(name: Seq<char>) -> (Seq<char>, Seq<Seq<char>>) {
    ("which"@, seq![name])
}

/// The command that pulls a model.
pub open spec fn pull_command(model: Seq<char>) -> (Seq<char>, Seq<Seq<char>>) {
    ("ollama"@, seq!["pull"@, model])
}

/// Why a model was not pulled, if it was not.
pub open spec fn pull_error(model: Seq<char>, outcome: Result<bool, String>) -> Option<Seq<char>> {
    match outcome {
        Ok(success) => if success {
            None
        } else {
            Some("ollama pull "@ + model + " failed"@)
        },
        Err(e) => Some(e@),
    }
}

/// The voxtype configuration file, from the value of `HOME`.
pub open spec fn voxtype_config_of(home: Option<Seq<char>>) -> Seq<char> {
    match home {
        Some(dir) => text::path_join(dir, ".config/voxtype/config.toml"@),
        None => text::path_join("/tmp"@, ".config/voxtype/config.toml"@),
    }
}

impl LinuxSystemAdapter {
    /// Restarts the speech-to-text service.
    pub fn restart_stt_service(&self) -> (res: SystemCommand)
        ensures
            res@ == ("systemctl"@, seq!["--user"@, "restart"@, "voxtype.service"@]),
            res@ == service_command("restart"@),
    {
        let res = SystemCommand::new("systemctl").arg("--user").arg("restart").arg(
            "voxtype.service",
        );
        assert(res@.1 =~= seq!["--user"@, "restart"@, "voxtype.service"@]);
        assert(res@.1 =~= service_command("restart"@).1);
        res
    }

    /// Succeeds if the speech-to-text service is active.
    pub fn is_stt_service_running(&self) -> (res: SystemCommand)
        ensures
            res@ == ("systemctl"@, seq!["--user"@, "is-active"@, "--quiet"@, "voxtype.service"@]),
    {
        let res = SystemCommand::new("systemctl").arg("--user").arg("is-active").arg("--quiet").arg(
            "voxtype.service",
        );
        assert(res@.1 =~= seq!["--user"@, "is-active"@, "--quiet"@, "voxtype.service"@]);
        res
    }

    /// Makes systemd read its unit files again.
    pub fn reload_service_manager(&self) -> (res: SystemCommand)
        ensures
            res@ == reload_command(),
    {
        let res = SystemCommand::new("systemctl").arg("--user").arg("daemon-reload");
        assert(res@.1 =~= reload_command().1);
        res
    }

    /// The steps that install and enable the daemon's user service, from the value
    /// of `HOME`, or why it has none.
    pub fn enable_autostart(&self, service_content: &str, home: Result<&str, String>) -> (res:
        Result<Vec<HostStep>, String>)
        ensures
            match home {
                Ok(dir) => res matches Ok(steps) && plan_view(steps@) == autostart_plan(
                    dir@,
                    service_content@,
                ),
                Err(e) => res == Err::<Vec<HostStep>, String>(e),
            },
    {
        let dir = match home {
            Ok(dir) => dir,
            Err(e) => {
                return Err(e);
            },
        };
        let enable = SystemCommand::new("systemctl").arg("--user").arg("enable").arg("--now").arg(
            "e-voice",
        );
        assert(enable@.1 =~= enable_command().1);
        let mut steps: Vec<HostStep> = Vec::new();
        steps.push(HostStep::CreateDir(strings::path_join(dir, ".config/systemd/user")));
        steps.push(
            HostStep::WriteFile {
                path: strings::path_join(dir, ".config/systemd/user/e-voice.service"),
                content: service_content.to_owned(),
            },
        );
        steps.push(HostStep::Run(self.reload_service_manager()));
        steps.push(HostStep::Run(enable));
        assert(plan_view(steps@) =~= autostart_plan(dir@, service_content@));
        Ok(steps)
    }

    /// The request whose answer shows whether the model server is reachable.
    pub fn check_ollama_health(&self, url: &str) -> (res: HttpRequest)
        ensures
            res@ == (HttpRequestView {
                method: Method::Get,
                url: llm_backend::endpoint_of(url@, "/api/tags"@),
                body: None,
            }),
            res@ == health_request(url@),
    {
        HttpRequest {
            method: Method::Get,
            url: llm_backend::endpoint(url, "/api/tags"),
            body: None,
        }
    }

    /// Whether the model server is reachable: whether it answered with success. An HTTP
    /// client that cannot be had counts as a failure.
    pub fn ollama_healthy(&self, answer: &Result<u16, HttpFailure>) -> (res: bool)
        ensures
            res == (answer matches Ok(status) && 200 <= *status < 300),
    {
        llm_backend::is_reachable(answer)
    }

    /// Opens a file with the application that the desktop has for it.
    pub fn open_file(&self, path: &str) -> (res: SystemCommand)
        ensures
            res@ == ("xdg-open"@, seq![path@]),
            res@ == open_command(path@),
    {
        let res = SystemCommand::new("xdg-open").arg(path);
        assert(res@.1 =~= seq![path@]);
        res
    }

    /// A notification as this program shows it.
    pub fn send_notification(&self, summary: &str, body: &str) -> (res: DesktopNotification)
        ensures
            res.summary@ == summary@,
            res.body@ == body@,
            res.icon@ == "e-voice"@,
            res.timeout_ms == 3000,
            is_notification(res, summary@, body@),
    {
        DesktopNotification {
            summary: summary.to_owned(),
            body: body.to_owned(),
            icon: "e-voice".to_owned(),
            timeout_ms: 3000,
        }
    }

    /// The (label, model, language) that the voxtype configuration holds, from the
    /// content of the file, if it can be read.
    pub fn read_voxtype_stt_config(&self, content: Option<&str>) -> (res: (String, String, String))
        ensures
            match content {
                Some(c) => (res.0@, res.1@, res.2@) == voxtype::stt_config(c@),
                None => (res.0@, res.1@, res.2@) == ("Unknown"@, "base.en"@, "en"@),
            },
    {
        voxtype::read_voxtype_stt_config(content)
    }

    /// The voxtype configuration with a new model and language, from the content
    /// of the file. A file that cannot be read counts as empty.
    pub fn write_voxtype_stt_config(
        &self,
        content: Option<&str>,
        model: &str,
        language: &str,
    ) -> (res: String)
        ensures
            res@ == voxtype::written(
                match content {
                    Some(c) => c@,
                    None => ""@,
                },
                model@,
                language@,
            ),
            res@ == voxtype::written(content_or_empty(text::opt_text(content)), model@, language@),
    {
        proof {
            reveal_strlit("");
            assert(""@ =~= Seq::<char>::empty());
        }
        match content {
            Some(c) => voxtype::write_voxtype_stt_config(c, model, language),
            None => voxtype::write_voxtype_stt_config("", model, language),
        }
    }

    /// The voxtype configuration with the hook, from the content of the file, if
    /// it exists. `None` means that nothing has to be written.
    pub fn patch_voxtype_post_process_hook(&self, content: Option<&str>) -> (res: Option<String>)
        ensures
            ({
                let c = match content {
                    Some(c) => c@,
                    None => ""@,
                };
                &&& res is None <==> hook::hook_present(c, hook::HOOK_COMMAND@)
                &&& res is Some ==> res->0@ == hook::hooked(
                    c,
                    hook::HOOK_COMMAND@,
                    hook::POST_PROCESS_BLOCK@,
                )
            }),
            res matches Some(r) ==> r@ == hook::hooked(
                content_or_empty(text::opt_text(content)),
                hook::HOOK_COMMAND@,
                hook::POST_PROCESS_BLOCK@,
            ),
    {
        proof {
            reveal_strlit("");
            assert(""@ =~= Seq::<char>::empty());
        }
        match content {
            Some(c) => hook::patch_voxtype_post_process_hook(c),
            None => hook::patch_voxtype_post_process_hook(""),
        }
    }

    /// The voxtype configuration file, from the value of `HOME`.
    pub fn voxtype_config_path(&self, home: Option<&str>) -> (res: String)
        ensures
            res@ == text::path_join(
                match home {
                    Some(dir) => dir@,
                    None => "/tmp"@,
                },
                ".config/voxtype/config.toml"@,
            ),
            res@ == voxtype_config_of(text::opt_text(home)),
    {
        match home {
            Some(dir) => strings::path_join(dir, ".config/voxtype/config.toml"),
            None => strings::path_join("/tmp", ".config/voxtype/config.toml"),
        }
    }

    /// Succeeds if a program of the given name can be found.
    pub fn is_binary_available(&self, name: &str) -> (res: SystemCommand)
        ensures
            res@ == ("which"@, seq![name@]),
            res@ == find_command(name@),
    {
        let res = SystemCommand::new("which").arg(name);
        assert(res@.1 =~= seq![name@]);
        res
    }

    /// Pulls a model.
    pub fn pull_ollama_model(&self, model: &str) -> (res: SystemCommand)
        ensures
            res@ == ("ollama"@, seq!["pull"@, model@]),
            res@ == pull_command(model@),
    {
        let res = SystemCommand::new("ollama").arg("pull").arg(model);
        assert(res@.1 =~= seq!["pull"@, model@]);
        res
    }

    /// The result of pulling a model, given what became of the command.
    pub fn pull_result(&self, model: &str, outcome: Result<bool, String>) -> (res: Result<
        (),
        String,
    >)
        ensures
            match outcome {
                Ok(true) => res is Ok,
                Ok(false) => res matches Err(e) && e@ == "ollama pull "@ + model@ + " failed"@,
                Err(e) => res == Err::<(), String>(e),
            },
            match pull_error(model@, outcome) {
                Some(message) => res matches Err(e) && e@ == message,
                None => res is Ok,
            },
    {
        match outcome {
            Ok(success) => if success {
                Ok(())
            } else {
                let mut message = "ollama pull ".to_owned();
                message.append(model);
                message.append(" failed");
                Err(message)
            },
            Err(e) => Err(e),
        }
    }
}

// ─── Laws ────────────────────────────────────────────────────────────────────

/// The service is written as it is before systemd reads its files again, and is enabled
/// after that. Its directory is created first, and holds it.
pub proof fn law_autostart_order(home: Seq<char>, service: Seq<char>)
    requires
        home.len() > 0,
        home.last() != '/',
    ensures
        ({
            let plan = autostart_plan(home, service);
            &&& plan.len() == 4
            &&& plan[0] matches HostStepView::CreateDir(dir) && dir == home
                + "/.config/systemd/user"@
            &&& plan[1] matches HostStepView::WriteFile { path, content } && content == service
                && path == home + "/.config/systemd/user"@ + "/e-voice.service"@
            &&& plan[2] == HostStepView::Run(("systemctl"@, seq!["--user"@, "daemon-reload"@]))
            &&& plan[3] == HostStepView::Run(
                ("systemctl"@, seq!["--user"@, "enable"@, "--now"@, "e-voice"@]),
            )
        }),
{
    reveal_strlit("/");
    reveal_strlit(".config/systemd/user");
    reveal_strlit(".config/systemd/user/e-voice.service");
    reveal_strlit("/.config/systemd/user");
    reveal_strlit("/e-voice.service");
    assert(home + "/"@ + ".config/systemd/user"@ =~= home + "/.config/systemd/user"@);
    assert(home + "/"@ + ".config/systemd/user/e-voice.service"@ =~= home
        + "/.config/systemd/user"@ + "/e-voice.service"@);
}

/// Commands name what they are about as it is, as their last argument.
pub proof fn law_commands_name_their_object(a: Seq<char>, b: Seq<char>)
    ensures
        open_command(a).1.last() == a && open_command(a).1.len() == 1,
        find_command(a).1.last() == a && find_command(a).1.len() == 1,
        pull_command(a).1.last() == a && pull_command(a).1[0] == "pull"@,
        service_command(a).1 == seq!["--user"@, a, "voxtype.service"@],
        open_command(a) == open_command(b) ==> a == b,
        find_command(a) == find_command(b) ==> a == b,
        pull_command(a) == pull_command(b) ==> a == b,
{
    assert(open_command(a).1[0] == a && open_command(b).1[0] == b);
    assert(find_command(a).1[0] == a && find_command(b).1[0] == b);
    assert(pull_command(a).1[1] == a && pull_command(b).1[1] == b);
}

/// A model is pulled exactly if the command succeeded. If it did not, the error names the
/// model, and if it could not be run, the error is the reason.
pub proof fn law_pull_succeeds_with_its_command(model: Seq<char>, success: bool, e: String)
    ensures
        pull_error(model, Ok(success)) is None <==> success,
        pull_error(model, Ok(false)) == Some("ollama pull "@ + model + " failed"@),
        pull_error(model, Err(e)) == Some(e@),
{
}

/// The voxtype configuration is below the home directory, whichever that is.
pub proof fn law_voxtype_config_is_below_home(home: Seq<char>)
    ensures
        home.len() > 0 && home.last() != '/' ==> voxtype_config_of(Some(home)) == home
            + "/.config/voxtype/config.toml"@,
        voxtype_config_of(None) == "/tmp/.config/voxtype/config.toml"@,
{
    reveal_strlit("/");
    reveal_strlit("/tmp");
    reveal_strlit(".config/voxtype/config.toml");
    reveal_strlit("/.config/voxtype/config.toml");
    reveal_strlit("/tmp/.config/voxtype/config.toml");
    assert("/tmp"@.last() == 'p');
    assert(home + "/"@ + ".config/voxtype/config.toml"@ =~= home
        + "/.config/voxtype/config.toml"@);
    assert(voxtype_config_of(None) =~= "/tmp/.config/voxtype/config.toml"@);
}

/// A notification holds the whole summary and the whole body, and the program's icon.
pub proof fn law_notification_is_complete(
    n: DesktopNotification,
    summary: Seq<char>,
    body: Seq<char>,
)
    requires
        is_notification(n, summary, body),
    ensures
        n.summary@ == summary,
        n.body@ == body,
        n.icon@ == "e-voice"@,
        n.timeout_ms == 3000,
{
}

/// A voxtype configuration that is not there counts as an empty one: it gets the settings,
/// and the hook.
pub proof fn law_missing_configuration_counts_as_empty(c: Seq<char>)
    ensures
        content_or_empty(Some(c)) == c,
        content_or_empty(None).len() == 0,
        hook::hooked(content_or_empty(None), hook::HOOK_COMMAND@, hook::POST_PROCESS_BLOCK@)
            == hook::POST_PROCESS_BLOCK@,
{
    let none = Seq::<char>::empty();
    reveal_strlit("e-voice process");
    assert(hook::HOOK_COMMAND@.len() == 15);
    assert(!hook::hook_present(none, hook::HOOK_COMMAND@));
    assert(none + hook::POST_PROCESS_BLOCK@ =~= hook::POST_PROCESS_BLOCK@);
}

/// The model server is asked at its own address for its models.
pub proof fn law_health_request(url: Seq<char>)
    requires
        url.len() > 0,
        url.last() != '/',
    ensures
        health_request(url).url == url + "/api/tags"@,
        health_request(url + "/"@) == health_request(url),
        health_request(url).method == Method::Get && health_request(url).body is None,
{
    llm_backend::law_slashes_do_not_count(url, "/api/tags"@);
}

} // verus!
