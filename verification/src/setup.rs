//! The first-run wizard: checks voxtype and Ollama, patches the voxtype
//! configuration, and writes this program's own configuration and snippets.
use crate::config;
use crate::config::{AppConfig, ConfigError};
use crate::strings;
use crate::text;
use vstd::prelude::*;
use vstd::string::*;

verus! {

/// What stands before a success.
pub const SUCCESS_MARK: &'static str = "\x1b[32m✓\x1b[0m ";

/// What stands before a failure.
pub const FAILURE_MARK: &'static str = "\x1b[31m✗\x1b[0m ";

/// What stands before what is done next.
pub const INFO_MARK: &'static str = "\x1b[33m→\x1b[0m ";

/// The key bindings for Hyprland.
pub const HYPRLAND_SNIPPET: &'static str =
    "# e-voice / voxtype keybindings\n# Paste into ~/.config/hypr/bindings.conf\nbind = , F9, exec, voxtype record start\nbindr = , F9, exec, voxtype record stop\nbind = SUPER SHIFT, D, exec, e-voice menu | walker --dmenu\n";

/// The module for Waybar.
pub const WAYBAR_SNIPPET: &'static str =
    "\"custom/e-voice\": {\n  \"exec\": \"e-voice status --follow --format json\",\n  \"return-type\": \"json\",\n  \"format\": \"{}\",\n  \"tooltip\": true\n}\n";

/// Why the wizard stopped.
#[derive(Debug)]
pub enum SetupError {
    MissingDependency(String),
    Io(String),
    Toml(String),
    Config(String),
    Adapter(String),
}

/// What a [`SetupError`] holds.
pub enum SetupErrorView {
    MissingDependency(Seq<char>),
    Io(Seq<char>),
    Toml(Seq<char>),
    Config(Seq<char>),
    Adapter(Seq<char>),
}

impl View for SetupError {
    type V = SetupErrorView;

    open spec fn view(&self) -> SetupErrorView {
        match self {
            SetupError::MissingDependency(e) => SetupErrorView::MissingDependency(e@),
            SetupError::Io(e) => SetupErrorView::Io(e@),
            SetupError::Toml(e) => SetupErrorView::Toml(e@),
            SetupError::Config(e) => SetupErrorView::Config(e@),
            SetupError::Adapter(e) => SetupErrorView::Adapter(e@),
        }
    }
}

impl SetupErrorView {
    /// The error in words.
    pub open spec fn message(self) -> Seq<char> {
        match self {
            SetupErrorView::MissingDependency(e) => "missing dependency: "@ + e,
            SetupErrorView::Io(e) => "io error: "@ + e,
            SetupErrorView::Toml(e) => "toml error: "@ + e,
            SetupErrorView::Config(e) => "config error: "@ + e,
            SetupErrorView::Adapter(e) => "adapter error: "@ + e,
        }
    }
}

impl SetupError {
    /// The error in words.
    pub fn message(&self) -> (res: String)
        ensures
            res@ == self@.message(),
    {
        let (mut res, e) = match self {
            SetupError::MissingDependency(e) => ("missing dependency: ".to_owned(), e),
            SetupError::Io(e) => ("io error: ".to_owned(), e),
            SetupError::Toml(e) => ("toml error: ".to_owned(), e),
            SetupError::Config(e) => ("config error: ".to_owned(), e),
            SetupError::Adapter(e) => ("adapter error: ".to_owned(), e),
        };
        res.append(e.as_str());
        res
    }
}

/// What the wizard waits for.
#[derive(Debug, Clone, Copy, PartialEq, Eq, Structural)]
pub enum SetupStage {
    /// To be started.
    Start,
    /// Whether voxtype is installed.
    Voxtype,
    /// The hook in the voxtype configuration.
    Hook,
    /// Whether Ollama is installed.
    Ollama,
    /// The first model.
    FirstModel,
    /// The second model.
    SecondModel,
    /// The configuration directory.
    ConfigDir,
    /// Whether the configuration exists.
    ConfigFile,
    /// The default configuration.
    ConfigWrite,
    /// The directory of the Hyprland snippet.
    HyprlandDir,
    /// The Hyprland snippet.
    HyprlandFile,
    /// The directory of the Waybar snippet.
    WaybarDir,
    /// The Waybar snippet.
    WaybarFile,
    /// The user service.
    Autostart,
    /// Nothing.
    Ended,
}

/// What happened to the wizard.
#[derive(Debug)]
pub enum SetupEvent {
    /// The user started it.
    Begin,
    /// Whether what was looked for is there.
    Found(bool),
    /// What was asked for is done.
    Done,
    /// What was asked for failed.
    Failed(String),
    /// The default configuration has no TOML text.
    TomlFailed(String),
}

/// What the wizard does next.
#[derive(Debug)]
pub enum SetupAction {
    /// Look for a program.
    CheckBinary(String),
    /// Patch the voxtype configuration.
    PatchHook,
    /// Pull a model.
    PullModel(String),
    /// Create a directory and those above it.
    CreateDir(String),
    /// Look for a file.
    CheckFile(String),
    /// Write the default configuration to a file.
    WriteDefaultConfig(String),
    /// Write a file.
    WriteFile { path: String, content: String },
    /// Install and enable the user service.
    EnableAutostart,
    /// End.
    Finish(Result<(), SetupError>),
    /// Nothing: the event does not belong to the stage.
    Ignore,
}

/// What a [`SetupAction`] holds.
pub enum SetupActionView {
    CheckBinary(Seq<char>),
    PatchHook,
    PullModel(Seq<char>),
    CreateDir(Seq<char>),
    CheckFile(Seq<char>),
    WriteDefaultConfig(Seq<char>),
    WriteFile { path: Seq<char>, content: Seq<char> },
    EnableAutostart,
    Finish(Result<(), SetupErrorView>),
    Ignore,
}

impl View for SetupAction {
    type V = SetupActionView;

    open spec fn view(&self) -> SetupActionView {
        match self {
            SetupAction::CheckBinary(name) => SetupActionView::CheckBinary(name@),
            SetupAction::PatchHook => SetupActionView::PatchHook,
            SetupAction::PullModel(model) => SetupActionView::PullModel(model@),
            SetupAction::CreateDir(path) => SetupActionView::CreateDir(path@),
            SetupAction::CheckFile(path) => SetupActionView::CheckFile(path@),
            SetupAction::WriteDefaultConfig(path) => SetupActionView::WriteDefaultConfig(path@),
            SetupAction::WriteFile { path, content } => SetupActionView::WriteFile {
                path: path@,
                content: content@,
            },
            SetupAction::EnableAutostart => SetupActionView::EnableAutostart,
            SetupAction::Finish(Ok(_)) => SetupActionView::Finish(Ok(())),
            SetupAction::Finish(Err(e)) => SetupActionView::Finish(Err(e@)),
            SetupAction::Ignore => SetupActionView::Ignore,
        }
    }
}

/// A turn of the wizard: what it prints, what it waits for from then on, and what it
/// does.
#[derive(Debug)]
pub struct SetupTurn {
    pub output: Vec<String>,
    pub stage: SetupStage,
    pub action: SetupAction,
}

/// What a [`SetupTurn`] holds.
pub struct SetupTurnView {
    pub output: Seq<Seq<char>>,
    pub stage: SetupStage,
    pub action: SetupActionView,
}

impl View for SetupTurn {
    type V = SetupTurnView;

    open spec fn view(&self) -> SetupTurnView {
        SetupTurnView {
            output: text::texts(self.output@),
            stage: self.stage,
            action: self.action@,
        }
    }
}

// ─── What a turn is ──────────────────────────────────────────────────────────

/// A line that reports a success.
pub open spec fn success_line(message: Seq<char>) -> Seq<char> {
    SUCCESS_MARK@ + message
}

/// A line that reports a failure.
pub open spec fn failure_line(message: Seq<char>) -> Seq<char> {
    FAILURE_MARK@ + message
}

/// A line that says what is done.
pub open spec fn info_line(message: Seq<char>) -> Seq<char> {
    INFO_MARK@ + message
}

/// A turn that goes on.
pub open spec fn goes_on(
    output: Seq<Seq<char>>,
    stage: SetupStage,
    action: SetupActionView,
) -> SetupTurnView {
    SetupTurnView { output: output, stage: stage, action: action }
}

/// A turn that ends the wizard with an error.
pub open spec fn stops(output: Seq<Seq<char>>, error: SetupErrorView) -> SetupTurnView {
    SetupTurnView {
        output: output,
        stage: SetupStage::Ended,
        action: SetupActionView::Finish(Err(error)),
    }
}

/// A turn that creates the configuration directory, if it is known.
pub open spec fn makes_dir(
    output: Seq<Seq<char>>,
    dir: Result<Seq<char>, Seq<char>>,
    stage: SetupStage,
) -> SetupTurnView {
    match dir {
        Ok(d) => goes_on(output, stage, SetupActionView::CreateDir(d)),
        Err(e) => stops(output, SetupErrorView::Config(e)),
    }
}

/// A turn that uses a file in the configuration directory, if this is known.
pub open spec fn uses_file(
    dir: Result<Seq<char>, Seq<char>>,
    name: Seq<char>,
    stage: SetupStage,
    action: spec_fn(Seq<char>) -> SetupActionView,
) -> SetupTurnView {
    match dir {
        Ok(d) => goes_on(Seq::empty(), stage, action(text::path_join(d, name))),
        Err(e) => stops(Seq::empty(), SetupErrorView::Config(e)),
    }
}

/// A turn of the wizard. `dir` is the configuration directory, or why there is none.
pub open spec fn setup_turn(
    stage: SetupStage,
    dir: Result<Seq<char>, Seq<char>>,
    event: SetupEvent,
) -> SetupTurnView {
    match (stage, event) {
        (SetupStage::Start, SetupEvent::Begin) => goes_on(
            seq![info_line("Step 1: checking voxtype installation"@)],
            SetupStage::Voxtype,
            SetupActionView::CheckBinary("voxtype"@),
        ),
        (SetupStage::Voxtype, SetupEvent::Found(found)) => if found {
            goes_on(
                seq![
                    success_line("Found voxtype"@),
                    info_line("Step 2: patching voxtype config"@),
                ],
                SetupStage::Hook,
                SetupActionView::PatchHook,
            )
        } else {
            stops(
                seq![failure_line("voxtype is not installed"@)],
                SetupErrorView::MissingDependency("voxtype"@),
            )
        },
        (SetupStage::Hook, SetupEvent::Done) => goes_on(
            seq![
                success_line("voxtype post_process hook configured"@),
                info_line("Step 3: checking ollama installation"@),
            ],
            SetupStage::Ollama,
            SetupActionView::CheckBinary("ollama"@),
        ),
        (SetupStage::Hook, SetupEvent::Failed(e)) => stops(
            Seq::empty(),
            SetupErrorView::Adapter(e@),
        ),
        (SetupStage::Ollama, SetupEvent::Found(found)) => if found {
            goes_on(
                seq![
                    success_line("Found ollama"@),
                    info_line("Step 4: pulling required models"@),
                ],
                SetupStage::FirstModel,
                SetupActionView::PullModel("llama3.2:1b"@),
            )
        } else {
            stops(
                seq![failure_line("ollama is not installed"@)],
                SetupErrorView::MissingDependency("ollama"@),
            )
        },
        (SetupStage::FirstModel, SetupEvent::Done) => goes_on(
            seq![success_line("Pulled model llama3.2:1b"@)],
            SetupStage::SecondModel,
            SetupActionView::PullModel("qwen2.5:1.5b"@),
        ),
        (SetupStage::FirstModel, SetupEvent::Failed(e)) => stops(
            Seq::empty(),
            SetupErrorView::Adapter(e@),
        ),
        (SetupStage::SecondModel, SetupEvent::Done) => makes_dir(
            seq![
                success_line("Pulled model qwen2.5:1.5b"@),
                info_line("Step 5: ensuring e-voice config exists"@),
            ],
            dir,
            SetupStage::ConfigDir,
        ),
        (SetupStage::SecondModel, SetupEvent::Failed(e)) => stops(
            Seq::empty(),
            SetupErrorView::Adapter(e@),
        ),
        (SetupStage::ConfigDir, SetupEvent::Done) => uses_file(
            dir,
            "config.toml"@,
            SetupStage::ConfigFile,
            |path: Seq<char>| SetupActionView::CheckFile(path),
        ),
        (SetupStage::ConfigDir, SetupEvent::Failed(e)) => stops(
            Seq::empty(),
            SetupErrorView::Io(e@),
        ),
        (SetupStage::ConfigFile, SetupEvent::Found(found)) => if found {
            makes_dir(
                seq![
                    info_line("e-voice config already exists"@),
                    info_line("Step 6: generating Hyprland snippet"@),
                ],
                dir,
                SetupStage::HyprlandDir,
            )
        } else {
            uses_file(
                dir,
                "config.toml"@,
                SetupStage::ConfigWrite,
                |path: Seq<char>| SetupActionView::WriteDefaultConfig(path),
            )
        },
        (SetupStage::ConfigWrite, SetupEvent::Done) => makes_dir(
            seq![
                success_line("Created default e-voice config.toml"@),
                info_line("Step 6: generating Hyprland snippet"@),
            ],
            dir,
            SetupStage::HyprlandDir,
        ),
        (SetupStage::ConfigWrite, SetupEvent::Failed(e)) => stops(
            Seq::empty(),
            SetupErrorView::Io(e@),
        ),
        (SetupStage::ConfigWrite, SetupEvent::TomlFailed(e)) => stops(
            Seq::empty(),
            SetupErrorView::Toml(e@),
        ),
        (SetupStage::HyprlandDir, SetupEvent::Done) => uses_file(
            dir,
            "hyprland-snippet.conf"@,
            SetupStage::HyprlandFile,
            |path: Seq<char>|
                SetupActionView::WriteFile { path: path, content: HYPRLAND_SNIPPET@ },
        ),
        (SetupStage::HyprlandDir, SetupEvent::Failed(e)) => stops(
            Seq::empty(),
            SetupErrorView::Io(e@),
        ),
        (SetupStage::HyprlandFile, SetupEvent::Done) => makes_dir(
            seq![
                success_line("Wrote hyprland-snippet.conf"@),
                info_line("Step 7: generating Waybar snippet"@),
            ],
            dir,
            SetupStage::WaybarDir,
        ),
        (SetupStage::HyprlandFile, SetupEvent::Failed(e)) => stops(
            Seq::empty(),
            SetupErrorView::Io(e@),
        ),
        (SetupStage::WaybarDir, SetupEvent::Done) => uses_file(
            dir,
            "waybar-snippet.json"@,
            SetupStage::WaybarFile,
            |path: Seq<char>| SetupActionView::WriteFile { path: path, content: WAYBAR_SNIPPET@ },
        ),
        (SetupStage::WaybarDir, SetupEvent::Failed(e)) => stops(
            Seq::empty(),
            SetupErrorView::Io(e@),
        ),
        (SetupStage::WaybarFile, SetupEvent::Done) => goes_on(
            seq![
                success_line("Wrote waybar-snippet.json"@),
                info_line("Step 8: enabling user service if available"@),
            ],
            SetupStage::Autostart,
            SetupActionView::EnableAutostart,
        ),
        (SetupStage::WaybarFile, SetupEvent::Failed(e)) => stops(
            Seq::empty(),
            SetupErrorView::Io(e@),
        ),
        (SetupStage::Autostart, SetupEvent::Done) => goes_on(
            seq![
                success_line("Enabled and started e-voice user service"@),
                success_line("Setup completed"@),
            ],
            SetupStage::Ended,
            SetupActionView::Finish(Ok(())),
        ),
        (SetupStage::Autostart, SetupEvent::Failed(e)) => stops(
            Seq::empty(),
            SetupErrorView::Adapter(e@),
        ),
        _ => goes_on(Seq::empty(), stage, SetupActionView::Ignore),
    }
}

// ─── The wizard ──────────────────────────────────────────────────────────────

fn success(message: &str) -> (res: String)
    ensures
        res@ == success_line(message@),
{
    let mut res = SUCCESS_MARK.to_owned();
    res.append(message);
    res
}

fn failure(message: &str) -> (res: String)
    ensures
        res@ == failure_line(message@),
{
    let mut res = FAILURE_MARK.to_owned();
    res.append(message);
    res
}

fn info(message: &str) -> (res: String)
    ensures
        res@ == info_line(message@),
{
    let mut res = INFO_MARK.to_owned();
    res.append(message);
    res
}

fn no_lines() -> (res: Vec<String>)
    ensures
        text::texts(res@) == Seq::<Seq<char>>::empty(),
{
    let res: Vec<String> = Vec::new();
    assert(text::texts(res@) =~= Seq::<Seq<char>>::empty());
    res
}

fn one_line(line: String) -> (res: Vec<String>)
    ensures
        text::texts(res@) == seq![line@],
{
    let mut res: Vec<String> = Vec::new();
    res.push(line);
    assert(text::texts(res@) =~= seq![line@]);
    res
}

fn two_lines(first: String, second: String) -> (res: Vec<String>)
    ensures
        text::texts(res@) == seq![first@, second@],
{
    let mut res: Vec<String> = Vec::new();
    res.push(first);
    res.push(second);
    assert(text::texts(res@) =~= seq![first@, second@]);
    res
}

fn go_on(output: Vec<String>, stage: SetupStage, action: SetupAction) -> (res: SetupTurn)
    ensures
        res@ == goes_on(text::texts(output@), stage, action@),
{
    SetupTurn { output, stage, action }
}

fn stop(output: Vec<String>, error: SetupError) -> (res: SetupTurn)
    ensures
        res@ == stops(text::texts(output@), error@),
{
    SetupTurn { output, stage: SetupStage::Ended, action: SetupAction::Finish(Err(error)) }
}

/// The configuration directory, or why there is none.
pub open spec fn setup_dir(
    xdg_config_home: Option<Seq<char>>,
    home: Option<Seq<char>>,
) -> Result<Seq<char>, Seq<char>> {
    match config::config_dir_of(xdg_config_home, home) {
        Some(dir) => Ok(dir),
        None => Err(ConfigError::MissingHome.message_of()),
    }
}

fn make_dir(
    output: Vec<String>,
    xdg_config_home: Option<&str>,
    home: Option<&str>,
    stage: SetupStage,
) -> (res: SetupTurn)
    ensures
        res@ == makes_dir(
            text::texts(output@),
            setup_dir(text::opt_text(xdg_config_home), text::opt_text(home)),
            stage,
        ),
{
    match config::config_dir(xdg_config_home, home) {
        Ok(dir) => go_on(output, stage, SetupAction::CreateDir(dir)),
        Err(e) => stop(output, SetupError::Config(e.message())),
    }
}

/// A file in the configuration directory, or the turn that ends the wizard because
/// there is none.
fn file_in_dir(xdg_config_home: Option<&str>, home: Option<&str>, name: &str) -> (res: Result<
    String,
    SetupTurn,
>)
    ensures
        match setup_dir(text::opt_text(xdg_config_home), text::opt_text(home)) {
            Ok(dir) => res matches Ok(path) && path@ == text::path_join(dir, name@),
            Err(e) => res matches Err(turn) && turn@ == stops(
                Seq::empty(),
                SetupErrorView::Config(e),
            ),
        },
{
    match config::config_dir(xdg_config_home, home) {
        Ok(dir) => Ok(strings::path_join(dir.as_str(), name)),
        Err(e) => Err(stop(no_lines(), SetupError::Config(e.message()))),
    }
}

/// A turn of the wizard, from the values of `XDG_CONFIG_HOME` and `HOME`.
pub fn run_setup(
    stage: SetupStage,
    xdg_config_home: Option<&str>,
    home: Option<&str>,
    event: SetupEvent,
) -> (res: SetupTurn)
    ensures
        res@ == setup_turn(
            stage,
            setup_dir(text::opt_text(xdg_config_home), text::opt_text(home)),
            event,
        ),
{
    match (stage, event) {
        (SetupStage::Start, SetupEvent::Begin) => go_on(
            one_line(info("Step 1: checking voxtype installation")),
            SetupStage::Voxtype,
            SetupAction::CheckBinary("voxtype".to_owned()),
        ),
        (SetupStage::Voxtype, SetupEvent::Found(found)) => if found {
            go_on(
                two_lines(success("Found voxtype"), info("Step 2: patching voxtype config")),
                SetupStage::Hook,
                SetupAction::PatchHook,
            )
        } else {
            stop(
                one_line(failure("voxtype is not installed")),
                SetupError::MissingDependency("voxtype".to_owned()),
            )
        },
        (SetupStage::Hook, SetupEvent::Done) => go_on(
            two_lines(
                success("voxtype post_process hook configured"),
                info("Step 3: checking ollama installation"),
            ),
            SetupStage::Ollama,
            SetupAction::CheckBinary("ollama".to_owned()),
        ),
        (SetupStage::Hook, SetupEvent::Failed(e)) => stop(no_lines(), SetupError::Adapter(e)),
        (SetupStage::Ollama, SetupEvent::Found(found)) => if found {
            go_on(
                two_lines(success("Found ollama"), info("Step 4: pulling required models")),
                SetupStage::FirstModel,
                SetupAction::PullModel("llama3.2:1b".to_owned()),
            )
        } else {
            stop(
                one_line(failure("ollama is not installed")),
                SetupError::MissingDependency("ollama".to_owned()),
            )
        },
        (SetupStage::FirstModel, SetupEvent::Done) => go_on(
            one_line(success("Pulled model llama3.2:1b")),
            SetupStage::SecondModel,
            SetupAction::PullModel("qwen2.5:1.5b".to_owned()),
        ),
        (SetupStage::FirstModel, SetupEvent::Failed(e)) => stop(
            no_lines(),
            SetupError::Adapter(e),
        ),
        (SetupStage::SecondModel, SetupEvent::Done) => make_dir(
            two_lines(
                success("Pulled model qwen2.5:1.5b"),
                info("Step 5: ensuring e-voice config exists"),
            ),
            xdg_config_home,
            home,
            SetupStage::ConfigDir,
        ),
        (SetupStage::SecondModel, SetupEvent::Failed(e)) => stop(
            no_lines(),
            SetupError::Adapter(e),
        ),
        (SetupStage::ConfigDir | SetupStage::ConfigFile | SetupStage::ConfigWrite, event) => {
            ensure_evoice_config(stage, xdg_config_home, home, event)
        },
        (
            SetupStage::HyprlandDir
            | SetupStage::HyprlandFile
            | SetupStage::WaybarDir
            | SetupStage::WaybarFile,
            event,
        ) => write_snippet(stage, xdg_config_home, home, event),
        (SetupStage::Autostart, SetupEvent::Done) => go_on(
            two_lines(
                success("Enabled and started e-voice user service"),
                success("Setup completed"),
            ),
            SetupStage::Ended,
            SetupAction::Finish(Ok(())),
        ),
        (SetupStage::Autostart, SetupEvent::Failed(e)) => stop(no_lines(), SetupError::Adapter(e)),
        _ => go_on(no_lines(), stage, SetupAction::Ignore),
    }
}

/// The turns about the configuration.
fn ensure_evoice_config(
    stage: SetupStage,
    xdg_config_home: Option<&str>,
    home: Option<&str>,
    event: SetupEvent,
) -> (res: SetupTurn)
    requires
        stage == SetupStage::ConfigDir || stage == SetupStage::ConfigFile || stage
            == SetupStage::ConfigWrite,
    ensures
        res@ == setup_turn(
            stage,
            setup_dir(text::opt_text(xdg_config_home), text::opt_text(home)),
            event,
        ),
{
    match (stage, event) {
        (SetupStage::ConfigDir, SetupEvent::Done) => match file_in_dir(
            xdg_config_home,
            home,
            "config.toml",
        ) {
            Ok(path) => go_on(no_lines(), SetupStage::ConfigFile, SetupAction::CheckFile(path)),
            Err(turn) => turn,
        },
        (SetupStage::ConfigDir, SetupEvent::Failed(e)) => stop(no_lines(), SetupError::Io(e)),
        (SetupStage::ConfigFile, SetupEvent::Found(found)) => if found {
            make_dir(
                two_lines(
                    info("e-voice config already exists"),
                    info("Step 6: generating Hyprland snippet"),
                ),
                xdg_config_home,
                home,
                SetupStage::HyprlandDir,
            )
        } else {
            match file_in_dir(xdg_config_home, home, "config.toml") {
                Ok(path) => go_on(
                    no_lines(),
                    SetupStage::ConfigWrite,
                    SetupAction::WriteDefaultConfig(path),
                ),
                Err(turn) => turn,
            }
        },
        (SetupStage::ConfigWrite, SetupEvent::Done) => make_dir(
            two_lines(
                success("Created default e-voice config.toml"),
                info("Step 6: generating Hyprland snippet"),
            ),
            xdg_config_home,
            home,
            SetupStage::HyprlandDir,
        ),
        (SetupStage::ConfigWrite, SetupEvent::Failed(e)) => stop(no_lines(), SetupError::Io(e)),
        (SetupStage::ConfigWrite, SetupEvent::TomlFailed(e)) => stop(
            no_lines(),
            SetupError::Toml(e),
        ),
        _ => go_on(no_lines(), stage, SetupAction::Ignore),
    }
}

/// The turns about the snippets.
fn write_snippet(
    stage: SetupStage,
    xdg_config_home: Option<&str>,
    home: Option<&str>,
    event: SetupEvent,
) -> (res: SetupTurn)
    requires
        stage == SetupStage::HyprlandDir || stage == SetupStage::HyprlandFile || stage
            == SetupStage::WaybarDir || stage == SetupStage::WaybarFile,
    ensures
        res@ == setup_turn(
            stage,
            setup_dir(text::opt_text(xdg_config_home), text::opt_text(home)),
            event,
        ),
{
    match (stage, event) {
        (SetupStage::HyprlandDir, SetupEvent::Done) => match file_in_dir(
            xdg_config_home,
            home,
            "hyprland-snippet.conf",
        ) {
            Ok(path) => go_on(
                no_lines(),
                SetupStage::HyprlandFile,
                SetupAction::WriteFile { path, content: HYPRLAND_SNIPPET.to_owned() },
            ),
            Err(turn) => turn,
        },
        (SetupStage::HyprlandFile, SetupEvent::Done) => make_dir(
            two_lines(
                success("Wrote hyprland-snippet.conf"),
                info("Step 7: generating Waybar snippet"),
            ),
            xdg_config_home,
            home,
            SetupStage::WaybarDir,
        ),
        (SetupStage::WaybarDir, SetupEvent::Done) => match file_in_dir(
            xdg_config_home,
            home,
            "waybar-snippet.json",
        ) {
            Ok(path) => go_on(
                no_lines(),
                SetupStage::WaybarFile,
                SetupAction::WriteFile { path, content: WAYBAR_SNIPPET.to_owned() },
            ),
            Err(turn) => turn,
        },
        (SetupStage::WaybarFile, SetupEvent::Done) => go_on(
            two_lines(
                success("Wrote waybar-snippet.json"),
                info("Step 8: enabling user service if available"),
            ),
            SetupStage::Autostart,
            SetupAction::EnableAutostart,
        ),
        (_, SetupEvent::Failed(e)) => stop(no_lines(), SetupError::Io(e)),
        _ => go_on(no_lines(), stage, SetupAction::Ignore),
    }
}

// ─── Laws ────────────────────────────────────────────────────────────────────

/// Where the wizard stands after some events, and what it has done on the way.
pub open spec fn setup_run(dir: Result<Seq<char>, Seq<char>>, events: Seq<SetupEvent>) -> (
    SetupStage,
    Seq<SetupActionView>,
)
    decreases events.len(),
{
    if events.len() == 0 {
        (SetupStage::Start, Seq::empty())
    } else {
        let (stage, done) = setup_run(dir, events.drop_last());
        let turn = setup_turn(stage, dir, events.last());
        (turn.stage, done.push(turn.action))
    }
}

/// How often an action was taken.
pub open spec fn times(done: Seq<SetupActionView>, action: SetupActionView) -> nat
    decreases done.len(),
{
    if done.len() == 0 {
        0
    } else {
        times(done.drop_last(), action) + if done.last() == action {
            1nat
        } else {
            0nat
        }
    }
}

/// How far a stage is.
pub open spec fn progress(stage: SetupStage) -> nat {
    match stage {
        SetupStage::Start => 0,
        SetupStage::Voxtype => 1,
        SetupStage::Hook => 2,
        SetupStage::Ollama => 3,
        SetupStage::FirstModel => 4,
        SetupStage::SecondModel => 5,
        SetupStage::ConfigDir => 6,
        SetupStage::ConfigFile => 7,
        SetupStage::ConfigWrite => 8,
        SetupStage::HyprlandDir => 9,
        SetupStage::HyprlandFile => 10,
        SetupStage::WaybarDir => 11,
        SetupStage::WaybarFile => 12,
        SetupStage::Autostart => 13,
        SetupStage::Ended => 14,
    }
}

/// Every turn brings the wizard nearer to its end, or is none. So there is an end,
/// and nothing is done after it.
pub proof fn law_setup_goes_on(
    stage: SetupStage,
    dir: Result<Seq<char>, Seq<char>>,
    event: SetupEvent,
)
    ensures
        ({
            let turn = setup_turn(stage, dir, event);
            ||| progress(turn.stage) > progress(stage)
            ||| turn == goes_on(Seq::empty(), stage, SetupActionView::Ignore)
        }),
        setup_turn(stage, dir, event).action is Finish <==> stage != SetupStage::Ended
            && setup_turn(stage, dir, event).stage == SetupStage::Ended,
{
}

/// What the wizard does when it succeeds, with a configuration directory.
pub open spec fn required_actions(dir: Seq<char>) -> Seq<SetupActionView> {
    seq![
        SetupActionView::CheckBinary("voxtype"@),
        SetupActionView::PatchHook,
        SetupActionView::CheckBinary("ollama"@),
        SetupActionView::PullModel("llama3.2:1b"@),
        SetupActionView::PullModel("qwen2.5:1.5b"@),
        SetupActionView::CheckFile(text::path_join(dir, "config.toml"@)),
        SetupActionView::WriteFile {
            path: text::path_join(dir, "hyprland-snippet.conf"@),
            content: HYPRLAND_SNIPPET@,
        },
        SetupActionView::WriteFile {
            path: text::path_join(dir, "waybar-snippet.json"@),
            content: WAYBAR_SNIPPET@,
        },
        SetupActionView::EnableAutostart,
    ]
}

/// The stage that waits for what a required action leads to.
spec fn stage_behind(i: int) -> SetupStage {
    if i == 0 {
        SetupStage::Voxtype
    } else if i == 1 {
        SetupStage::Hook
    } else if i == 2 {
        SetupStage::Ollama
    } else if i == 3 {
        SetupStage::FirstModel
    } else if i == 4 {
        SetupStage::SecondModel
    } else if i == 5 {
        SetupStage::ConfigFile
    } else if i == 6 {
        SetupStage::HyprlandFile
    } else if i == 7 {
        SetupStage::WaybarFile
    } else {
        SetupStage::Autostart
    }
}

proof fn lemma_required_are_distinct(dir: Seq<char>)
    ensures
        forall|i: int, j: int|
            0 <= i < 9 && 0 <= j < 9 && i != j ==> #[trigger] required_actions(dir)[i]
                != #[trigger] required_actions(dir)[j],
{
    reveal_strlit("voxtype");
    reveal_strlit("ollama");
    reveal_strlit("llama3.2:1b");
    reveal_strlit("qwen2.5:1.5b");
    assert("voxtype"@.len() != "ollama"@.len());
    assert("llama3.2:1b"@.len() != "qwen2.5:1.5b"@.len());
    lemma_snippets_differ();
}

proof fn lemma_snippets_differ()
    ensures
        HYPRLAND_SNIPPET@ != WAYBAR_SNIPPET@,
{
    reveal_strlit(
        "# e-voice / voxtype keybindings\n# Paste into ~/.config/hypr/bindings.conf\nbind = , F9, exec, voxtype record start\nbindr = , F9, exec, voxtype record stop\nbind = SUPER SHIFT, D, exec, e-voice menu | walker --dmenu\n",
    );
    reveal_strlit(
        "\"custom/e-voice\": {\n  \"exec\": \"e-voice status --follow --format json\",\n  \"return-type\": \"json\",\n  \"format\": \"{}\",\n  \"tooltip\": true\n}\n",
    );
    assert(HYPRLAND_SNIPPET@[0] == '#');
    assert(WAYBAR_SNIPPET@[0] == '"');
}

/// A required action is taken on the turn into the stage behind it, and on no other.
proof fn lemma_turn_action(stage: SetupStage, dir: Seq<char>, event: SetupEvent, i: int)
    requires
        0 <= i < 9,
    ensures
        ({
            let turn = setup_turn(stage, Ok(dir), event);
            turn.action == required_actions(dir)[i] <==> turn.stage != stage && turn.stage
                == stage_behind(i)
        }),
{
    lemma_required_are_distinct(dir);
}

proof fn lemma_times_push(done: Seq<SetupActionView>, next: SetupActionView, action: SetupActionView)
    ensures
        times(done.push(next), action) == times(done, action) + if next == action {
            1nat
        } else {
            0nat
        },
{
    assert(done.push(next).drop_last() =~= done);
}

/// What holds of a run, for one of the required actions.
spec fn run_is_orderly(run: (SetupStage, Seq<SetupActionView>), dir: Seq<char>, i: int) -> bool {
    let n = times(run.1, required_actions(dir)[i]);
    &&& n <= 1
    &&& run.0 != SetupStage::Ended ==> {
        &&& n == 1 <==> progress(run.0) >= progress(stage_behind(i))
        &&& !run.1.contains(SetupActionView::Finish(Ok(())))
    }
    &&& run.1.contains(SetupActionView::Finish(Ok(()))) ==> n == 1
}

proof fn lemma_run_is_orderly(dir: Seq<char>, events: Seq<SetupEvent>, i: int)
    requires
        0 <= i < 9,
    ensures
        run_is_orderly(setup_run(Ok(dir), events), dir, i),
    decreases events.len(),
{
    if events.len() > 0 {
        lemma_run_is_orderly(dir, events.drop_last(), i);
        let (stage, done) = setup_run(Ok(dir), events.drop_last());
        let turn = setup_turn(stage, Ok(dir), events.last());
        let ok = SetupActionView::Finish(Ok(()));
        lemma_turn_action(stage, dir, events.last(), i);
        lemma_times_push(done, turn.action, required_actions(dir)[i]);
        assert(done.push(turn.action).contains(ok) <==> done.contains(ok) || turn.action == ok) by {
            if done.contains(ok) {
                let k = choose|k: int| 0 <= k < done.len() && done[k] == ok;
                assert(done.push(turn.action)[k] == ok);
            }
            if turn.action == ok {
                assert(done.push(turn.action)[done.len() as int] == ok);
            }
        }
    }
}

/// Whatever happens, the wizard takes none of its actions on the system twice. If it
/// succeeds, it has taken each of them: it has enabled the service exactly once.
pub proof fn law_setup_success_is_complete(dir: Seq<char>, events: Seq<SetupEvent>)
    ensures
        ({
            let done = setup_run(Ok(dir), events).1;
            forall|i: int|
                0 <= i < 9 ==> {
                    let n = times(done, #[trigger] required_actions(dir)[i]);
                    n <= 1 && (done.contains(SetupActionView::Finish(Ok(()))) ==> n == 1)
                }
        }),
{
    assert forall|i: int| 0 <= i < 9 implies {
        let done = setup_run(Ok(dir), events).1;
        let n = times(done, #[trigger] required_actions(dir)[i]);
        n <= 1 && (done.contains(SetupActionView::Finish(Ok(()))) ==> n == 1)
    } by {
        lemma_run_is_orderly(dir, events, i);
    }
}

proof fn lemma_run_push(dir: Result<Seq<char>, Seq<char>>, events: Seq<SetupEvent>, event: SetupEvent)
    ensures
        ({
            let (stage, done) = setup_run(dir, events);
            let turn = setup_turn(stage, dir, event);
            setup_run(dir, events.push(event)) == (turn.stage, done.push(turn.action))
        }),
{
    assert(events.push(event).drop_last() =~= events);
}

/// The events of a run in which everything goes well.
pub open spec fn clean_events(config_exists: bool) -> Seq<SetupEvent> {
    let first = seq![
        SetupEvent::Begin,
        SetupEvent::Found(true),
        SetupEvent::Done,
        SetupEvent::Found(true),
        SetupEvent::Done,
        SetupEvent::Done,
        SetupEvent::Done,
        SetupEvent::Found(config_exists),
    ];
    let last = seq![
        SetupEvent::Done,
        SetupEvent::Done,
        SetupEvent::Done,
        SetupEvent::Done,
        SetupEvent::Done,
    ];
    if config_exists {
        first + last
    } else {
        first + seq![SetupEvent::Done] + last
    }
}

/// If everything goes well, the wizard succeeds, and it has enabled the service
/// exactly once.
pub proof fn law_clean_setup_succeeds(dir: Seq<char>, config_exists: bool)
    ensures
        ({
            let (stage, done) = setup_run(Ok(dir), clean_events(config_exists));
            &&& stage == SetupStage::Ended
            &&& done.last() == SetupActionView::Finish(Ok(()))
            &&& times(done, SetupActionView::EnableAutostart) == 1
        }),
{
    let d = Ok::<Seq<char>, Seq<char>>(dir);
    let e0 = Seq::<SetupEvent>::empty();
    let e1 = e0.push(SetupEvent::Begin);
    let e2 = e1.push(SetupEvent::Found(true));
    let e3 = e2.push(SetupEvent::Done);
    let e4 = e3.push(SetupEvent::Found(true));
    let e5 = e4.push(SetupEvent::Done);
    let e6 = e5.push(SetupEvent::Done);
    let e7 = e6.push(SetupEvent::Done);
    let e8 = e7.push(SetupEvent::Found(config_exists));
    let e9 = if config_exists {
        e8
    } else {
        e8.push(SetupEvent::Done)
    };
    let e10 = e9.push(SetupEvent::Done);
    let e11 = e10.push(SetupEvent::Done);
    let e12 = e11.push(SetupEvent::Done);
    let e13 = e12.push(SetupEvent::Done);
    let e14 = e13.push(SetupEvent::Done);
    lemma_run_push(d, e0, SetupEvent::Begin);
    lemma_run_push(d, e1, SetupEvent::Found(true));
    lemma_run_push(d, e2, SetupEvent::Done);
    lemma_run_push(d, e3, SetupEvent::Found(true));
    lemma_run_push(d, e4, SetupEvent::Done);
    lemma_run_push(d, e5, SetupEvent::Done);
    lemma_run_push(d, e6, SetupEvent::Done);
    lemma_run_push(d, e7, SetupEvent::Found(config_exists));
    lemma_run_push(d, e8, SetupEvent::Done);
    lemma_run_push(d, e9, SetupEvent::Done);
    lemma_run_push(d, e10, SetupEvent::Done);
    lemma_run_push(d, e11, SetupEvent::Done);
    lemma_run_push(d, e12, SetupEvent::Done);
    lemma_run_push(d, e13, SetupEvent::Done);
    assert(e14 =~= clean_events(config_exists));
    let done = setup_run(d, e14).1;
    assert(done[done.len() - 1] == SetupActionView::Finish(Ok(())));
    assert(done.contains(SetupActionView::Finish(Ok(()))));
    law_setup_success_is_complete(dir, e14);
    assert(required_actions(dir)[8] == SetupActionView::EnableAutostart);
}

/// Without voxtype the wizard stops before it changes anything.
pub proof fn law_missing_voxtype_stops_setup(dir: Result<Seq<char>, Seq<char>>)
    ensures
        setup_run(dir, seq![SetupEvent::Begin, SetupEvent::Found(false)]) == (
            SetupStage::Ended,
            seq![
                SetupActionView::CheckBinary("voxtype"@),
                SetupActionView::Finish(Err(SetupErrorView::MissingDependency("voxtype"@))),
            ],
        ),
{
    let e0 = Seq::<SetupEvent>::empty();
    let e1 = e0.push(SetupEvent::Begin);
    lemma_run_push(dir, e0, SetupEvent::Begin);
    lemma_run_push(dir, e1, SetupEvent::Found(false));
    assert(e1.push(SetupEvent::Found(false)) =~= seq![SetupEvent::Begin, SetupEvent::Found(false)]);
    assert(setup_run(dir, seq![SetupEvent::Begin, SetupEvent::Found(false)]).1 =~= seq![
        SetupActionView::CheckBinary("voxtype"@),
        SetupActionView::Finish(Err(SetupErrorView::MissingDependency("voxtype"@))),
    ]);
}

/// The default configuration is written only in answer to the news that there is no
/// configuration.
pub proof fn law_default_is_written_only_if_missing(
    stage: SetupStage,
    dir: Result<Seq<char>, Seq<char>>,
    event: SetupEvent,
)
    ensures
        setup_turn(stage, dir, event).action is WriteDefaultConfig ==> stage
            == SetupStage::ConfigFile && event == SetupEvent::Found(false),
{
}

/// The configuration file.
pub open spec fn config_path(dir: Seq<char>) -> Seq<char> {
    text::path_join(dir, "config.toml"@)
}

/// What the configuration file holds, if it exists, after some events of a run that
/// started with `file`. `default_text` is the text of the default configuration.
pub open spec fn config_content(
    dir: Seq<char>,
    events: Seq<SetupEvent>,
    file: Option<Seq<char>>,
    default_text: Seq<char>,
) -> Option<Seq<char>>
    decreases events.len(),
{
    if events.len() == 0 {
        file
    } else {
        let before = config_content(dir, events.drop_last(), file, default_text);
        match setup_run(Ok(dir), events).1.last() {
            SetupActionView::WriteDefaultConfig(path) => if path == config_path(dir) {
                Some(default_text)
            } else {
                before
            },
            SetupActionView::WriteFile { path, content } => if path == config_path(dir) {
                Some(content)
            } else {
                before
            },
            _ => before,
        }
    }
}

/// Whenever the wizard asks whether the configuration exists, it is told the truth.
pub open spec fn told_the_truth(
    dir: Seq<char>,
    events: Seq<SetupEvent>,
    file: Option<Seq<char>>,
    default_text: Seq<char>,
) -> bool
    decreases events.len(),
{
    events.len() > 0 ==> {
        let before = events.drop_last();
        &&& told_the_truth(dir, before, file, default_text)
        &&& setup_run(Ok(dir), before).0 == SetupStage::ConfigFile && events.last() is Found
            ==> events.last()->Found_0 == (config_content(dir, before, file, default_text) is Some)
    }
}

proof fn lemma_snippets_are_no_config(dir: Seq<char>)
    ensures
        text::path_join(dir, "hyprland-snippet.conf"@) != config_path(dir),
        text::path_join(dir, "waybar-snippet.json"@) != config_path(dir),
{
    reveal_strlit("config.toml");
    reveal_strlit("hyprland-snippet.conf");
    reveal_strlit("waybar-snippet.json");
    assert(config_path(dir).len() < text::path_join(dir, "hyprland-snippet.conf"@).len());
    assert(config_path(dir).len() < text::path_join(dir, "waybar-snippet.json"@).len());
}

proof fn lemma_config_content(
    dir: Seq<char>,
    events: Seq<SetupEvent>,
    file: Option<Seq<char>>,
    default_text: Seq<char>,
)
    requires
        told_the_truth(dir, events, file, default_text),
    ensures
        ({
            let (stage, done) = setup_run(Ok(dir), events);
            let content = config_content(dir, events, file, default_text);
            match file {
                Some(_) => content == file,
                None => {
                    &&& content is None || content == Some(default_text)
                    &&& stage != SetupStage::Ended ==> {
                        &&& content is Some <==> progress(stage) >= progress(
                            SetupStage::ConfigWrite,
                        )
                        &&& !done.contains(SetupActionView::Finish(Ok(())))
                    }
                    &&& done.contains(SetupActionView::Finish(Ok(()))) ==> content is Some
                },
            }
        }),
    decreases events.len(),
{
    if events.len() > 0 {
        lemma_config_content(dir, events.drop_last(), file, default_text);
        lemma_snippets_are_no_config(dir);
        let (stage, done) = setup_run(Ok(dir), events.drop_last());
        let turn = setup_turn(stage, Ok(dir), events.last());
        let ok = SetupActionView::Finish(Ok(()));
        assert(done.push(turn.action).last() == turn.action);
        assert(done.push(turn.action).contains(ok) <==> done.contains(ok) || turn.action == ok) by {
            if done.contains(ok) {
                let k = choose|k: int| 0 <= k < done.len() && done[k] == ok;
                assert(done.push(turn.action)[k] == ok);
            }
            if turn.action == ok {
                assert(done.push(turn.action)[done.len() as int] == ok);
            }
        }
    }
}

/// A configuration that was there is left as it is, whatever happens. After a success
/// there is one: that one, or the default one if there was none.
pub proof fn law_setup_keeps_the_configuration(
    dir: Seq<char>,
    events: Seq<SetupEvent>,
    file: Option<Seq<char>>,
    default_text: Seq<char>,
)
    requires
        told_the_truth(dir, events, file, default_text),
    ensures
        ({
            let content = config_content(dir, events, file, default_text);
            &&& file is Some ==> content == file
            &&& setup_run(Ok(dir), events).1.contains(SetupActionView::Finish(Ok(()))) ==> content
                == Some(
                match file {
                    Some(text) => text,
                    None => default_text,
                },
            )
        }),
{
    lemma_config_content(dir, events, file, default_text);
}

/// What reading the configuration file gives, if it exists.
pub open spec fn read_config(
    read: spec_fn(Seq<char>) -> Result<AppConfig, ConfigError>,
    file: Option<Seq<char>>,
) -> Option<Result<AppConfig, ConfigError>> {
    match file {
        Some(text) => Some(read(text)),
        None => None,
    }
}

/// A setup that succeeds does not change what the program runs with: loading gives the
/// same configuration, or the same error, as before. `read` is what reading a text
/// gives; the default configuration has to be read back from its text.
pub proof fn law_setup_keeps_what_is_loaded(
    dir: Seq<char>,
    events: Seq<SetupEvent>,
    file: Option<Seq<char>>,
    default_text: Seq<char>,
    read: spec_fn(Seq<char>) -> Result<AppConfig, ConfigError>,
    before: Result<AppConfig, ConfigError>,
    after: Result<AppConfig, ConfigError>,
)
    requires
        told_the_truth(dir, events, file, default_text),
        setup_run(Ok(dir), events).1.contains(SetupActionView::Finish(Ok(()))),
        read(default_text) matches Ok(config) && config.is_default(),
        AppConfig::is_loaded(read_config(read, file), before),
        AppConfig::is_loaded(
            read_config(read, config_content(dir, events, file, default_text)),
            after,
        ),
    ensures
        match (before, after) {
            (Ok(b), Ok(a)) => b.same(a),
            (Err(b), Err(a)) => b == a,
            _ => false,
        },
{
    law_setup_keeps_the_configuration(dir, events, file, default_text);
}

/// A failure ends the wizard on the spot, and the error holds what failed: for what is
/// asked of the system it is one of the adapter, and for directories and files one of
/// input and output. A stage that asks for nothing that can fail takes no notice.
pub proof fn law_failure_ends_setup(
    stage: SetupStage,
    dir: Result<Seq<char>, Seq<char>>,
    e: String,
)
    ensures
        ({
            let turn = setup_turn(stage, dir, SetupEvent::Failed(e));
            let system = stage == SetupStage::Hook || stage == SetupStage::FirstModel || stage
                == SetupStage::SecondModel || stage == SetupStage::Autostart;
            let files = stage == SetupStage::ConfigDir || stage == SetupStage::ConfigWrite || stage
                == SetupStage::HyprlandDir || stage == SetupStage::HyprlandFile || stage
                == SetupStage::WaybarDir || stage == SetupStage::WaybarFile;
            &&& turn.output.len() == 0
            &&& system ==> turn.action == SetupActionView::Finish(
                Err(SetupErrorView::Adapter(e@)),
            )
            &&& files ==> turn.action == SetupActionView::Finish(Err(SetupErrorView::Io(e@)))
            &&& system || files ==> turn.stage == SetupStage::Ended
            &&& !system && !files ==> turn.action is Ignore && turn.stage == stage
        }),
        ({
            let turn = setup_turn(stage, dir, SetupEvent::TomlFailed(e));
            stage == SetupStage::ConfigWrite ==> turn.action == SetupActionView::Finish(
                Err(SetupErrorView::Toml(e@)),
            )
        }),
{
}

/// A program that is missing ends the wizard, with an error that names the program and a
/// line that says so.
pub proof fn law_missing_program_ends_setup(dir: Result<Seq<char>, Seq<char>>)
    ensures
        setup_turn(SetupStage::Voxtype, dir, SetupEvent::Found(false)).action
            == SetupActionView::Finish(Err(SetupErrorView::MissingDependency("voxtype"@))),
        setup_turn(SetupStage::Ollama, dir, SetupEvent::Found(false)).action
            == SetupActionView::Finish(Err(SetupErrorView::MissingDependency("ollama"@))),
        setup_turn(SetupStage::Voxtype, dir, SetupEvent::Found(false)).output == seq![
            failure_line("voxtype is not installed"@),
        ],
        setup_turn(SetupStage::Ollama, dir, SetupEvent::Found(false)).output == seq![
            failure_line("ollama is not installed"@),
        ],
{
}

/// All files of the wizard are in the configuration directory, each under its own name
/// and with its own content. Without a directory there are none, and the wizard ends with
/// the reason for that.
pub proof fn law_files_are_in_the_directory(
    stage: SetupStage,
    d: Seq<char>,
    reason: Seq<char>,
    event: SetupEvent,
)
    ensures
        match setup_turn(stage, Ok(d), event).action {
            SetupActionView::CreateDir(path) => path == d,
            SetupActionView::CheckFile(path) => path == text::path_join(d, "config.toml"@),
            SetupActionView::WriteDefaultConfig(path) => path == text::path_join(
                d,
                "config.toml"@,
            ),
            SetupActionView::WriteFile { path, content } => {
                ||| path == text::path_join(d, "hyprland-snippet.conf"@) && content
                    == HYPRLAND_SNIPPET@
                ||| path == text::path_join(d, "waybar-snippet.json"@) && content
                    == WAYBAR_SNIPPET@
            },
            SetupActionView::Finish(Err(e)) => e !is Config,
            _ => true,
        },
        match setup_turn(stage, Err(reason), event).action {
            SetupActionView::CreateDir(_) => false,
            SetupActionView::CheckFile(_) => false,
            SetupActionView::WriteDefaultConfig(_) => false,
            SetupActionView::WriteFile { .. } => false,
            SetupActionView::Finish(Err(SetupErrorView::Config(e))) => e == reason,
            _ => true,
        },
{
}

/// Before a file is written its directory is created, and before the default
/// configuration is written the wizard looks whether there is one.
pub proof fn law_directory_comes_first(
    stage: SetupStage,
    dir: Result<Seq<char>, Seq<char>>,
    event: SetupEvent,
)
    ensures
        ({
            let action = setup_turn(stage, dir, event).action;
            &&& action is CheckFile ==> stage == SetupStage::ConfigDir && event is Done
            &&& action is WriteFile ==> event is Done && (stage == SetupStage::HyprlandDir || stage
                == SetupStage::WaybarDir)
            &&& action is CreateDir ==> {
                let next = setup_turn(stage, dir, event).stage;
                next == SetupStage::ConfigDir || next == SetupStage::HyprlandDir || next
                    == SetupStage::WaybarDir
            }
            &&& action is EnableAutostart ==> stage == SetupStage::WaybarFile && event is Done
        }),
{
}

/// What the wizard prints is marked as a success, a failure or what is done next. A
/// failure is printed only when the wizard ends with an error, and that everything is done
/// only when it ends well.
pub proof fn law_output_fits_the_outcome(
    stage: SetupStage,
    dir: Result<Seq<char>, Seq<char>>,
    event: SetupEvent,
    i: int,
)
    requires
        0 <= i < setup_turn(stage, dir, event).output.len(),
    ensures
        ({
            let turn = setup_turn(stage, dir, event);
            let line = turn.output[i];
            &&& text::starts_with(line, SUCCESS_MARK@) || text::starts_with(line, INFO_MARK@)
                || text::starts_with(line, FAILURE_MARK@)
            &&& turn.action == SetupActionView::Finish(Ok(())) ==> turn.output.last()
                == success_line("Setup completed"@)
            &&& !text::starts_with(line, SUCCESS_MARK@) && !text::starts_with(line, INFO_MARK@)
                ==> turn.action is Finish && turn.action->Finish_0 is Err
        }),
{
    let turn = setup_turn(stage, dir, event);
    assert forall|message: Seq<char>| text::starts_with(
        #[trigger] success_line(message),
        SUCCESS_MARK@,
    ) by {
        text::law_parts_are_found(Seq::empty(), SUCCESS_MARK@, message);
    }
    assert forall|message: Seq<char>| text::starts_with(
        #[trigger] info_line(message),
        INFO_MARK@,
    ) by {
        text::law_parts_are_found(Seq::empty(), INFO_MARK@, message);
    }
    assert forall|message: Seq<char>| text::starts_with(
        #[trigger] failure_line(message),
        FAILURE_MARK@,
    ) by {
        text::law_parts_are_found(Seq::empty(), FAILURE_MARK@, message);
    }
}

/// An error names its kind and its cause.
pub proof fn law_errors_name_their_cause(e: Seq<char>)
    ensures
        SetupErrorView::MissingDependency(e).message() == "missing dependency: "@ + e,
        SetupErrorView::Io(e).message() == "io error: "@ + e,
        SetupErrorView::Toml(e).message() == "toml error: "@ + e,
        SetupErrorView::Config(e).message() == "config error: "@ + e,
        SetupErrorView::Adapter(e).message() == "adapter error: "@ + e,
{
}

/// The wizard uses the configuration directory of the program, and if there is none, the
/// reason is that there is no home directory.
pub proof fn law_wizard_uses_the_usual_directory(
    xdg_config_home: Option<Seq<char>>,
    home: Option<Seq<char>>,
)
    ensures
        setup_dir(xdg_config_home, home) matches Ok(d) ==> config::config_dir_of(
            xdg_config_home,
            home,
        ) == Some(d),
        setup_dir(xdg_config_home, home) matches Err(e) ==> e == "$HOME is not set"@
            && config::config_dir_of(xdg_config_home, home) is None,
{
}

} // verus!
