//! The tray icon: what it shows, what its menu offers and what its commands do.
use crate::config;
use crate::daemon;
use crate::daemon::{AppStateView, DaemonError, Request, RequestView, Response};
use crate::llm_backend;
use crate::llm_backend::{HttpFailure, HttpRequest, HttpRequestView, Method};
use crate::modes;
use crate::modes::{Profile, ProfileView, MENU_MODES};
use crate::strings;
use crate::system_adapter;
use crate::system_adapter::command_succeeded;
use crate::text;
use crate::transport::DaemonTransportError;
use crate::voxtype;
use crate::voxtype::STT_PRESETS;
use vstd::prelude::*;
use vstd::string::*;

verus! {

/// How long the model server has to name its models.
pub const MODELS_TIMEOUT_SECS: u64 = 3;

/// How often the health is looked at.
pub const HEALTH_TICK_SECS: u64 = 15;

/// How wide and high the icon is.
pub const ICON_SIZE: usize = 24;

// ─── State ───────────────────────────────────────────────────────────────────

/// A command from the tray's menu.
#[derive(Debug)]
pub enum TrayCmd {
    SetMode(String),
    SetSttLanguage { model: String, language: String },
    SetOllamaModel(String),
    OpenConfig,
    Shutdown,
}

/// What a [`TrayCmd`] holds.
pub enum TrayCmdView {
    SetMode(Seq<char>),
    SetSttLanguage { model: Seq<char>, language: Seq<char> },
    SetOllamaModel(Seq<char>),
    OpenConfig,
    Shutdown,
}

impl View for TrayCmd {
    type V = TrayCmdView;

    open spec fn view(&self) -> TrayCmdView {
        match self {
            TrayCmd::SetMode(mode) => TrayCmdView::SetMode(mode@),
            TrayCmd::SetSttLanguage { model, language } => TrayCmdView::SetSttLanguage {
                model: model@,
                language: language@,
            },
            TrayCmd::SetOllamaModel(model) => TrayCmdView::SetOllamaModel(model@),
            TrayCmd::OpenConfig => TrayCmdView::OpenConfig,
            TrayCmd::Shutdown => TrayCmdView::Shutdown,
        }
    }
}

/// Whether the services that the daemon needs are there.
#[derive(Debug, Clone, Copy, PartialEq, Eq, Structural)]
pub struct HealthInfo {
    pub ollama_reachable: bool,
    pub voxtype_running: bool,
}

/// What the tray shows.
#[derive(Debug)]
pub struct TrayState {
    pub stt_label: String,
    pub stt_model: String,
    pub stt_language: String,
    pub ollama_model: String,
    pub ollama_models: Vec<String>,
    pub health: HealthInfo,
    pub profile: Profile,
}

/// What a [`TrayState`] holds.
pub struct TrayStateView {
    pub stt_label: Seq<char>,
    pub stt_model: Seq<char>,
    pub stt_language: Seq<char>,
    pub ollama_model: Seq<char>,
    pub ollama_models: Seq<Seq<char>>,
    pub health: HealthInfo,
    pub profile: ProfileView,
}

impl View for TrayState {
    type V = TrayStateView;

    open spec fn view(&self) -> TrayStateView {
        TrayStateView {
            stt_label: self.stt_label@,
            stt_model: self.stt_model@,
            stt_language: self.stt_language@,
            ollama_model: self.ollama_model@,
            ollama_models: text::texts(self.ollama_models@),
            health: self.health,
            profile: self.profile@,
        }
    }
}

// ─── Icon ────────────────────────────────────────────────────────────────────

/// An icon: four bytes for each point, row by row.
#[derive(Debug)]
pub struct Icon {
    pub width: i32,
    pub height: i32,
    pub data: Vec<u8>,
}

/// `icon` is a square in one colour.
pub open spec fn is_plain_icon(icon: Icon, rgba: Seq<u8>) -> bool {
    &&& icon.width == 24
    &&& icon.height == 24
    &&& icon.data@.len() == 24 * 24 * 4
    &&& forall|i: int| 0 <= i < icon.data@.len() ==> #[trigger] icon.data@[i] == rgba[i % 4]
}

/// A square in one colour.
pub fn build_icon(rgba: [u8; 4]) -> (res: Icon)
    ensures
        is_plain_icon(res, rgba@),
{
    let mut data: Vec<u8> = Vec::new();
    let mut point: usize = 0;
    while point < ICON_SIZE * ICON_SIZE
        invariant
            point <= 24 * 24,
            data@.len() == 4 * point,
            forall|i: int| 0 <= i < data@.len() ==> #[trigger] data@[i] == rgba@[i % 4],
        decreases 24 * 24 - point,
    {
        data.push(rgba[0]);
        data.push(rgba[1]);
        data.push(rgba[2]);
        data.push(rgba[3]);
        point = point + 1;
    }
    Icon { width: 24, height: 24, data }
}

/// The colour for a state of health: green if all is well, orange if the model
/// server is not there, and red if only the speech-to-text service is not.
pub open spec fn health_colour(health: HealthInfo) -> Seq<u8> {
    if health.ollama_reachable && health.voxtype_running {
        seq![0x4cu8, 0xafu8, 0x50u8, 0xffu8]
    } else if !health.ollama_reachable {
        seq![0xffu8, 0x98u8, 0x00u8, 0xffu8]
    } else {
        seq![0xf4u8, 0x43u8, 0x36u8, 0xffu8]
    }
}

// ─── Menu ────────────────────────────────────────────────────────────────────

/// What a choice in the menu is about.
#[derive(Debug, Clone, Copy, PartialEq, Eq, Structural)]
pub enum Choice {
    Mode,
    SttLanguage,
    OllamaModel,
}

/// A command of the menu.
#[derive(Debug, Clone, Copy, PartialEq, Eq, Structural)]
pub enum MenuCommand {
    OpenConfig,
    Quit,
}

/// An entry of the menu.
#[derive(Debug)]
pub enum MenuEntry {
    /// A submenu in which one of the options is selected.
    Select { label: String, choice: Choice, options: Vec<String>, selected: usize },
    /// A submenu with nothing to select.
    Nothing { label: String, note: String },
    Separator,
    Command { label: String, command: MenuCommand },
}

/// What a [`MenuEntry`] holds.
pub enum MenuEntryView {
    Select { label: Seq<char>, choice: Choice, options: Seq<Seq<char>>, selected: nat },
    Nothing { label: Seq<char>, note: Seq<char> },
    Separator,
    Command { label: Seq<char>, command: MenuCommand },
}

impl View for MenuEntry {
    type V = MenuEntryView;

    open spec fn view(&self) -> MenuEntryView {
        match self {
            MenuEntry::Select { label, choice, options, selected } => MenuEntryView::Select {
                label: label@,
                choice: *choice,
                options: text::texts(options@),
                selected: *selected as nat,
            },
            MenuEntry::Nothing { label, note } => MenuEntryView::Nothing {
                label: label@,
                note: note@,
            },
            MenuEntry::Separator => MenuEntryView::Separator,
            MenuEntry::Command { label, command } => MenuEntryView::Command {
                label: label@,
                command: *command,
            },
        }
    }
}

/// The views of menu entries.
pub open spec fn menu_view(entries: Seq<MenuEntry>) -> Seq<MenuEntryView> {
    entries.map_values(|e: MenuEntry| e@)
}

/// The first place, from `i` on, at which a name stands, or the number of names if
/// there is none.
pub open spec fn place_from(names: Seq<Seq<char>>, name: Seq<char>, i: nat) -> nat
    decreases names.len() - i,
{
    if i >= names.len() {
        names.len()
    } else if names[i as int] == name {
        i
    } else {
        place_from(names, name, i + 1)
    }
}

/// The place of a name, or the first place if the name is not there.
pub open spec fn place_or_first(names: Seq<Seq<char>>, name: Seq<char>) -> nat {
    let i = place_from(names, name, 0);
    if i < names.len() {
        i
    } else {
        0
    }
}

/// The names of the modes in the menu.
pub open spec fn mode_options() -> Seq<Seq<char>> {
    Seq::new(4, |i: int| MENU_MODES@[i]@)
}

/// The labels of the speech-to-text presets.
pub open spec fn stt_options() -> Seq<Seq<char>> {
    Seq::new(6, |i: int| STT_PRESETS@[i].0@)
}

impl TrayStateView {
    /// The preset in use, or the first one if none is.
    pub open spec fn stt_selected(self) -> nat {
        let i = voxtype::preset_from(self.stt_model, self.stt_language, 0);
        if i < 6 {
            i
        } else {
            0
        }
    }

    /// The menu.
    pub open spec fn menu(self) -> Seq<MenuEntryView> {
        seq![
            MenuEntryView::Select {
                label: "Mode"@,
                choice: Choice::Mode,
                options: mode_options(),
                selected: place_or_first(mode_options(), self.profile.mode_name()),
            },
            MenuEntryView::Select {
                label: "STT Language"@,
                choice: Choice::SttLanguage,
                options: stt_options(),
                selected: self.stt_selected(),
            },
            if self.ollama_models.len() == 0 {
                MenuEntryView::Nothing { label: "Ollama Model"@, note: "(no models found)"@ }
            } else {
                MenuEntryView::Select {
                    label: "Ollama Model"@,
                    choice: Choice::OllamaModel,
                    options: self.ollama_models,
                    selected: place_or_first(self.ollama_models, self.ollama_model),
                }
            },
            MenuEntryView::Separator,
            MenuEntryView::Command { label: "Open Config"@, command: MenuCommand::OpenConfig },
            MenuEntryView::Command { label: "Quit"@, command: MenuCommand::Quit },
        ]
    }

    /// The command of a selection, if there is an option of that number.
    pub open spec fn selection(self, choice: Choice, i: nat) -> Option<TrayCmdView> {
        match choice {
            Choice::Mode => if i < 4 {
                Some(TrayCmdView::SetMode(MENU_MODES@[i as int]@))
            } else {
                None
            },
            Choice::SttLanguage => if i < 6 {
                Some(
                    TrayCmdView::SetSttLanguage {
                        model: STT_PRESETS@[i as int].1@,
                        language: STT_PRESETS@[i as int].2@,
                    },
                )
            } else {
                None
            },
            Choice::OllamaModel => if i < self.ollama_models.len() {
                Some(TrayCmdView::SetOllamaModel(self.ollama_models[i as int]))
            } else {
                None
            },
        }
    }

    /// The title.
    pub open spec fn title_text(self) -> Seq<char> {
        "e-voice: "@ + self.stt_label
    }

    /// The command of a click on the icon.
    pub open spec fn click(self) -> TrayCmdView {
        TrayCmdView::SetMode(self.profile.next().mode_name())
    }

    /// What the tray shows under the pointer.
    pub open spec fn description(self) -> Seq<char> {
        "STT: "@ + self.stt_label + " ("@ + self.stt_model + ")\nLLM: "@ + self.ollama_model
            + "\nOllama: "@ + (if self.health.ollama_reachable {
            "connected"@
        } else {
            "unreachable"@
        }) + "\nVoxtype: "@ + (if self.health.voxtype_running {
            "running"@
        } else {
            "stopped"@
        })
    }
}

/// What is shown under the pointer.
#[derive(Debug)]
pub struct ToolTip {
    pub title: String,
    pub description: String,
}

/// The place of a name, or the first place if the name is not there.
fn find_place(names: &Vec<String>, name: &str) -> (res: usize)
    ensures
        res == place_or_first(text::texts(names@), name@),
{
    let ghost all = text::texts(names@);
    let mut i: usize = 0;
    while i < names.len()
        invariant
            i <= names@.len(),
            all == text::texts(names@),
            place_from(all, name@, 0) == place_from(all, name@, i as nat),
        decreases names@.len() - i,
    {
        assert(all[i as int] == names@[i as int]@);
        if strings::same(names[i].as_str(), name) {
            return i;
        }
        i = i + 1;
    }
    0
}

fn copy_names(names: &Vec<String>) -> (res: Vec<String>)
    ensures
        text::texts(res@) == text::texts(names@),
{
    let mut res: Vec<String> = Vec::new();
    let mut i: usize = 0;
    while i < names.len()
        invariant
            i <= names@.len(),
            res@.len() == i,
            forall|k: int| 0 <= k < i ==> (#[trigger] res@[k])@ == names@[k]@,
        decreases names@.len() - i,
    {
        res.push(names[i].clone());
        i = i + 1;
    }
    assert(text::texts(res@) =~= text::texts(names@));
    res
}

fn list_modes() -> (res: Vec<String>)
    ensures
        text::texts(res@) == mode_options(),
{
    let mut res: Vec<String> = Vec::new();
    let mut i: usize = 0;
    while i < 4
        invariant
            i <= 4,
            res@.len() == i,
            forall|k: int| 0 <= k < i ==> (#[trigger] res@[k])@ == MENU_MODES@[k]@,
        decreases 4 - i,
    {
        res.push(MENU_MODES[i].to_owned());
        i = i + 1;
    }
    assert(text::texts(res@) =~= mode_options());
    res
}

fn list_presets() -> (res: Vec<String>)
    ensures
        text::texts(res@) == stt_options(),
{
    let mut res: Vec<String> = Vec::new();
    let mut i: usize = 0;
    while i < 6
        invariant
            i <= 6,
            res@.len() == i,
            forall|k: int| 0 <= k < i ==> (#[trigger] res@[k])@ == STT_PRESETS@[k].0@,
        decreases 6 - i,
    {
        res.push(STT_PRESETS[i].0.to_owned());
        i = i + 1;
    }
    assert(text::texts(res@) =~= stt_options());
    res
}

impl TrayState {
    /// The name of the tray icon.
    pub fn id(&self) -> (res: String)
        ensures
            res@ == "e-voice"@,
    {
        "e-voice".to_owned()
    }

    /// The icon.
    pub fn icon_pixmap(&self) -> (res: Icon)
        ensures
            is_plain_icon(res, health_colour(self@.health)),
    {
        let rgba: [u8; 4] = if self.health.ollama_reachable && self.health.voxtype_running {
            [0x4c, 0xaf, 0x50, 0xff]
        } else if !self.health.ollama_reachable {
            [0xff, 0x98, 0x00, 0xff]
        } else {
            [0xf4, 0x43, 0x36, 0xff]
        };
        assert(rgba@ =~= health_colour(self@.health));
        build_icon(rgba)
    }

    /// The title.
    pub fn title(&self) -> (res: String)
        ensures
            res@ == "e-voice: "@ + self@.stt_label,
            res@ == self@.title_text(),
    {
        let mut res = "e-voice: ".to_owned();
        res.append(self.stt_label.as_str());
        res
    }

    /// What is shown under the pointer.
    pub fn tool_tip(&self) -> (res: ToolTip)
        ensures
            res.title@ == "e-voice"@,
            res.description@ == self@.description(),
    {
        let mut description = "STT: ".to_owned();
        description.append(self.stt_label.as_str());
        description.append(" (");
        description.append(self.stt_model.as_str());
        description.append(")\nLLM: ");
        description.append(self.ollama_model.as_str());
        description.append("\nOllama: ");
        if self.health.ollama_reachable {
            description.append("connected");
        } else {
            description.append("unreachable");
        }
        description.append("\nVoxtype: ");
        if self.health.voxtype_running {
            description.append("running");
        } else {
            description.append("stopped");
        }
        ToolTip { title: "e-voice".to_owned(), description }
    }

    /// The menu.
    pub fn menu(&self) -> (res: Vec<MenuEntry>)
        ensures
            menu_view(res@) == self@.menu(),
    {
        let mut res: Vec<MenuEntry> = Vec::new();
        let options = list_modes();
        let selected = find_place(&options, self.profile.mode_name().as_str());
        res.push(
            MenuEntry::Select {
                label: "Mode".to_owned(),
                choice: Choice::Mode,
                options,
                selected,
            },
        );
        let selected = match voxtype::find_preset(
            self.stt_model.as_str(),
            self.stt_language.as_str(),
        ) {
            Some(i) => i,
            None => 0,
        };
        res.push(
            MenuEntry::Select {
                label: "STT Language".to_owned(),
                choice: Choice::SttLanguage,
                options: list_presets(),
                selected,
            },
        );
        assert(text::texts(self.ollama_models@).len() == self.ollama_models@.len());
        if self.ollama_models.len() == 0 {
            res.push(
                MenuEntry::Nothing {
                    label: "Ollama Model".to_owned(),
                    note: "(no models found)".to_owned(),
                },
            );
        } else {
            res.push(
                MenuEntry::Select {
                    label: "Ollama Model".to_owned(),
                    choice: Choice::OllamaModel,
                    options: copy_names(&self.ollama_models),
                    selected: find_place(&self.ollama_models, self.ollama_model.as_str()),
                },
            );
        }
        res.push(MenuEntry::Separator);
        res.push(
            MenuEntry::Command {
                label: "Open Config".to_owned(),
                command: MenuCommand::OpenConfig,
            },
        );
        res.push(MenuEntry::Command { label: "Quit".to_owned(), command: MenuCommand::Quit });
        assert(menu_view(res@) =~= self@.menu());
        res
    }

    /// The command of a selection, if there is an option of that number.
    pub fn select(&self, choice: Choice, i: usize) -> (res: Option<TrayCmd>)
        ensures
            match self@.selection(choice, i as nat) {
                Some(cmd) => res matches Some(c) && c@ == cmd,
                None => res is None,
            },
    {
        match choice {
            Choice::Mode => if i < 4 {
                Some(TrayCmd::SetMode(MENU_MODES[i].to_owned()))
            } else {
                None
            },
            Choice::SttLanguage => if i < 6 {
                Some(
                    TrayCmd::SetSttLanguage {
                        model: STT_PRESETS[i].1.to_owned(),
                        language: STT_PRESETS[i].2.to_owned(),
                    },
                )
            } else {
                None
            },
            Choice::OllamaModel => if i < self.ollama_models.len() {
                Some(TrayCmd::SetOllamaModel(self.ollama_models[i].clone()))
            } else {
                None
            },
        }
    }

    /// The command of a click on the icon: the next mode.
    pub fn activate(&self) -> (res: TrayCmd)
        ensures
            res@ == TrayCmdView::SetMode(self@.profile.next().mode_name()),
            res@ == self@.click(),
    {
        TrayCmd::SetMode(self.profile.next().mode_name())
    }
}

/// The command to the tray that a command of the menu is.
pub open spec fn menu_cmd(command: MenuCommand) -> TrayCmdView {
    match command {
        MenuCommand::OpenConfig => TrayCmdView::OpenConfig,
        MenuCommand::Quit => TrayCmdView::Shutdown,
    }
}

impl MenuCommand {
    /// The command to the tray.
    pub fn cmd(self) -> (res: TrayCmd)
        ensures
            res@ == match self {
                MenuCommand::OpenConfig => TrayCmdView::OpenConfig,
                MenuCommand::Quit => TrayCmdView::Shutdown,
            },
            res@ == menu_cmd(self),
    {
        match self {
            MenuCommand::OpenConfig => TrayCmd::OpenConfig,
            MenuCommand::Quit => TrayCmd::Shutdown,
        }
    }
}

// ─── Health ──────────────────────────────────────────────────────────────────

/// The state of health, from the status of the model server's answer and what became of
/// the command that asks for the speech-to-text service.
pub open spec fn health_of(
    ollama: Result<u16, HttpFailure>,
    voxtype: Result<bool, String>,
) -> HealthInfo {
    HealthInfo {
        ollama_reachable: ollama matches Ok(status) && 200 <= status < 300,
        voxtype_running: voxtype matches Ok(success) && success,
    }
}

/// The state of health, from the status of the model server's answer and what
/// became of the command that asks for the speech-to-text service.
pub fn check_health(ollama: &Result<u16, HttpFailure>, voxtype: &Result<bool, String>) -> (res:
    HealthInfo)
    ensures
        res.ollama_reachable == (ollama matches Ok(status) && 200 <= *status < 300),
        res.voxtype_running == (voxtype matches Ok(success) && *success),
        res == health_of(*ollama, *voxtype),
{
    HealthInfo {
        ollama_reachable: llm_backend::is_reachable(ollama),
        voxtype_running: command_succeeded(voxtype),
    }
}

/// The request for the names of the models.
pub fn fetch_ollama_models(ollama_url: &str) -> (res: HttpRequest)
    ensures
        res@ == (HttpRequestView {
            method: Method::Get,
            url: llm_backend::endpoint_of(ollama_url@, "/api/tags"@),
            body: None,
        }),
        res@ == system_adapter::health_request(ollama_url@),
{
    HttpRequest {
        method: Method::Get,
        url: llm_backend::endpoint(ollama_url, "/api/tags"),
        body: None,
    }
}

// ─── Commands ────────────────────────────────────────────────────────────────

/// What happened to a change of the speech-to-text language.
#[derive(Debug)]
pub enum SttEvent {
    /// Nothing yet.
    Start,
    /// The voxtype configuration was written, or could not be.
    Written(Result<(), String>),
    /// The service was restarted, or could not be.
    Restarted(Result<(), String>),
}

/// What is done next for a change of the speech-to-text language.
#[derive(Debug)]
pub enum SttAction {
    /// Write the voxtype configuration.
    WriteConfig { model: String, language: String },
    /// Restart the service.
    RestartService,
    /// The change is made, with this label, model and language, or is not.
    Finish(Option<(String, String, String)>),
}

/// `action` is what is done next.
pub open spec fn is_stt_action(
    model: Seq<char>,
    language: Seq<char>,
    event: SttEvent,
    action: SttAction,
) -> bool {
    match event {
        SttEvent::Start => action matches SttAction::WriteConfig { model: m, language: l } && m@
            == model && l@ == language,
        SttEvent::Written(Ok(_)) => action is RestartService,
        SttEvent::Written(Err(_)) => action matches SttAction::Finish(None),
        SttEvent::Restarted(_) => action matches SttAction::Finish(Some(done)) && done.0@
            == voxtype::stt_label_of(model, language) && done.1@ == model && done.2@ == language,
    }
}

/// Changes the speech-to-text language: the configuration is written, then the
/// service is restarted. If the configuration cannot be written, the service is left
/// alone. If the service cannot be restarted, the change stands all the same.
pub fn apply_stt_language_cmd(model: &str, language: &str, event: SttEvent) -> (res: SttAction)
    ensures
        is_stt_action(model@, language@, event, res),
{
    match event {
        SttEvent::Start => SttAction::WriteConfig {
            model: model.to_owned(),
            language: language.to_owned(),
        },
        SttEvent::Written(Ok(_)) => SttAction::RestartService,
        SttEvent::Written(Err(_)) => SttAction::Finish(None),
        SttEvent::Restarted(_) => SttAction::Finish(
            Some((voxtype::stt_label(model, language), model.to_owned(), language.to_owned())),
        ),
    }
}

/// What happened to the tray.
#[derive(Debug)]
pub enum TrayEvent {
    /// A command came from the menu, or the menu is gone.
    Command(Option<TrayCmd>),
    /// A change of the speech-to-text language ended.
    SttApplied(Option<(String, String, String)>),
    /// The daemon answered to a change of the model, or did not.
    ModelSet { model: String, answer: Result<Response, DaemonTransportError> },
    /// The daemon answered to a change of the mode, or did not.
    ModeSet { answer: Result<Response, DaemonTransportError> },
    /// The health and the models were looked at.
    HealthTick { health: HealthInfo, models: Result<Vec<String>, TrayError> },
    /// The shutdown flag was touched.
    ShutdownChanged,
}

/// What the tray does.
#[derive(Debug)]
pub enum TrayAction {
    /// Change the speech-to-text language with [`apply_stt_language_cmd`].
    ApplyStt { model: String, language: String },
    /// Send the daemon a request, and report the answer.
    Send(Request),
    /// Open a file.
    OpenFile(String),
    /// Show a notification.
    Notify { summary: String, body: String },
    /// Tell the daemon to end.
    SignalShutdown,
    /// Take the icon away.
    CloseTray,
    /// End.
    Stop,
}

/// What a [`TrayAction`] holds.
pub enum TrayActionView {
    ApplyStt { model: Seq<char>, language: Seq<char> },
    Send(RequestView),
    OpenFile(Seq<char>),
    Notify { summary: Seq<char>, body: Seq<char> },
    SignalShutdown,
    CloseTray,
    Stop,
}

impl View for TrayAction {
    type V = TrayActionView;

    open spec fn view(&self) -> TrayActionView {
        match self {
            TrayAction::ApplyStt { model, language } => TrayActionView::ApplyStt {
                model: model@,
                language: language@,
            },
            TrayAction::Send(request) => TrayActionView::Send(request@),
            TrayAction::OpenFile(path) => TrayActionView::OpenFile(path@),
            TrayAction::Notify { summary, body } => TrayActionView::Notify {
                summary: summary@,
                body: body@,
            },
            TrayAction::SignalShutdown => TrayActionView::SignalShutdown,
            TrayAction::CloseTray => TrayActionView::CloseTray,
            TrayAction::Stop => TrayActionView::Stop,
        }
    }
}

/// The views of actions.
pub open spec fn actions_view(actions: Seq<TrayAction>) -> Seq<TrayActionView> {
    actions.map_values(|a: TrayAction| a@)
}

impl TrayStateView {
    /// The state after an event.
    pub open spec fn after(self, event: TrayEvent) -> TrayStateView {
        match event {
            TrayEvent::SttApplied(Some(done)) => TrayStateView {
                stt_label: done.0@,
                stt_model: done.1@,
                stt_language: done.2@,
                ..self
            },
            TrayEvent::ModelSet { model, answer: Ok(Response::ModelChanged { .. }) } => {
                TrayStateView { ollama_model: model@, ..self }
            },
            TrayEvent::ModeSet { answer: Ok(Response::ModeChanged { mode }) } => match (
                modes::profile_of_mode(mode@)
            ) {
                Some(p) => TrayStateView { profile: p, ..self },
                None => self,
            },
            TrayEvent::HealthTick { health, models: Ok(names) } => if names@.len() > 0 {
                TrayStateView { health: health, ollama_models: text::texts(names@), ..self }
            } else {
                TrayStateView { health: health, ..self }
            },
            TrayEvent::HealthTick { health, models: Err(_) } => TrayStateView {
                health: health,
                ..self
            },
            _ => self,
        }
    }
}

/// What is done for an event. `dir` is the configuration directory, if there is one.
pub open spec fn tray_actions(event: TrayEvent, dir: Option<Seq<char>>) -> Seq<TrayActionView> {
    match event {
        TrayEvent::Command(Some(TrayCmd::SetMode(mode))) => seq![
            TrayActionView::Send(RequestView::SetMode { mode: mode@ }),
        ],
        TrayEvent::Command(Some(TrayCmd::SetSttLanguage { model, language })) => seq![
            TrayActionView::ApplyStt { model: model@, language: language@ },
        ],
        TrayEvent::Command(Some(TrayCmd::SetOllamaModel(model))) => seq![
            TrayActionView::Send(RequestView::SetModel { model: model@ }),
        ],
        TrayEvent::Command(Some(TrayCmd::OpenConfig)) => match dir {
            Some(d) => seq![TrayActionView::OpenFile(text::path_join(d, "config.toml"@))],
            None => Seq::empty(),
        },
        TrayEvent::Command(Some(TrayCmd::Shutdown)) => seq![
            TrayActionView::SignalShutdown,
            TrayActionView::CloseTray,
            TrayActionView::Stop,
        ],
        TrayEvent::Command(None) => seq![TrayActionView::Stop],
        TrayEvent::SttApplied(Some(done)) => seq![
            TrayActionView::Notify {
                summary: "STT Language"@,
                body: "Switched to "@ + done.0@ + " ("@ + done.1@ + ")"@,
            },
        ],
        TrayEvent::SttApplied(None) => Seq::empty(),
        TrayEvent::ModelSet { model, answer: Ok(Response::ModelChanged { .. }) } => seq![
            TrayActionView::Notify {
                summary: "Ollama Model"@,
                body: "Switched to "@ + model@,
            },
        ],
        TrayEvent::ModelSet { .. } => Seq::empty(),
        TrayEvent::ModeSet { answer: Ok(Response::ModeChanged { mode }) } => match (
            modes::profile_of_mode(mode@)
        ) {
            Some(_) => seq![
                TrayActionView::Notify { summary: "Mode"@, body: "Switched to "@ + mode@ },
            ],
            None => Seq::empty(),
        },
        TrayEvent::ModeSet { .. } => Seq::empty(),
        TrayEvent::HealthTick { .. } => Seq::empty(),
        TrayEvent::ShutdownChanged => seq![TrayActionView::CloseTray, TrayActionView::Stop],
    }
}

fn no_action() -> (res: Vec<TrayAction>)
    ensures
        actions_view(res@) == Seq::<TrayActionView>::empty(),
{
    let res: Vec<TrayAction> = Vec::new();
    assert(actions_view(res@) =~= Seq::<TrayActionView>::empty());
    res
}

fn one_action(action: TrayAction) -> (res: Vec<TrayAction>)
    ensures
        actions_view(res@) == seq![action@],
{
    let mut res: Vec<TrayAction> = Vec::new();
    res.push(action);
    assert(actions_view(res@) =~= seq![action@]);
    res
}

fn switched(summary: &str, to: &str) -> (res: Vec<TrayAction>)
    ensures
        actions_view(res@) == seq![
            TrayActionView::Notify { summary: summary@, body: "Switched to "@ + to@ },
        ],
{
    let mut body = "Switched to ".to_owned();
    body.append(to);
    one_action(TrayAction::Notify { summary: summary.to_owned(), body })
}

/// What the tray shows at the start.
pub open spec fn start_state(
    default_model: Seq<char>,
    stt: (Seq<char>, Seq<char>, Seq<char>),
    health: HealthInfo,
    models: Result<Vec<String>, TrayError>,
    profile: ProfileView,
) -> TrayStateView {
    TrayStateView {
        stt_label: stt.0,
        stt_model: stt.1,
        stt_language: stt.2,
        ollama_model: default_model,
        ollama_models: match models {
            Ok(names) => text::texts(names@),
            Err(_) => Seq::empty(),
        },
        health: health,
        profile: profile,
    }
}

impl TrayState {
    /// What the tray shows at the start, given what the voxtype configuration holds,
    /// the health, the models, if they could be had, and the profile that was saved.
    pub fn start(
        default_model: &str,
        stt: (String, String, String),
        health: HealthInfo,
        models: Result<Vec<String>, TrayError>,
        profile: Profile,
    ) -> (res: TrayState)
        ensures
            res@ == (TrayStateView {
                stt_label: stt.0@,
                stt_model: stt.1@,
                stt_language: stt.2@,
                ollama_model: default_model@,
                ollama_models: match models {
                    Ok(names) => text::texts(names@),
                    Err(_) => Seq::empty(),
                },
                health: health,
                profile: profile@,
            }),
            res@ == start_state(
                default_model@,
                (stt.0@, stt.1@, stt.2@),
                health,
                models,
                profile@,
            ),
    {
        let ollama_models = match models {
            Ok(names) => names,
            Err(_) => {
                let none: Vec<String> = Vec::new();
                assert(text::texts(none@) =~= Seq::<Seq<char>>::empty());
                none
            },
        };
        TrayState {
            stt_label: stt.0,
            stt_model: stt.1,
            stt_language: stt.2,
            ollama_model: default_model.to_owned(),
            ollama_models,
            health,
            profile,
        }
    }
}

/// Takes an event, from the values of `XDG_CONFIG_HOME` and `HOME`.
pub fn run(
    state: &mut TrayState,
    event: TrayEvent,
    xdg_config_home: Option<&str>,
    home: Option<&str>,
) -> (res: Vec<TrayAction>)
    ensures
        final(state)@ == old(state)@.after(event),
        actions_view(res@) == tray_actions(
            event,
            config::config_dir_of(text::opt_text(xdg_config_home), text::opt_text(home)),
        ),
{
    match event {
        TrayEvent::Command(Some(cmd)) => obey(cmd, xdg_config_home, home),
        TrayEvent::Command(None) => one_action(TrayAction::Stop),
        TrayEvent::SttApplied(Some(done)) => {
            let mut to = done.0.clone();
            to.append(" (");
            to.append(done.1.as_str());
            to.append(")");
            let res = switched("STT Language", to.as_str());
            assert("Switched to "@ + to@ =~= "Switched to "@ + done.0@ + " ("@ + done.1@ + ")"@);
            state.stt_label = done.0;
            state.stt_model = done.1;
            state.stt_language = done.2;
            res
        },
        TrayEvent::SttApplied(None) => no_action(),
        TrayEvent::ModelSet { model, answer } => match answer {
            Ok(Response::ModelChanged { model: _ }) => {
                let res = switched("Ollama Model", model.as_str());
                state.ollama_model = model;
                res
            },
            _ => no_action(),
        },
        TrayEvent::ModeSet { answer } => match answer {
            Ok(Response::ModeChanged { mode }) => match Profile::from_mode(mode.as_str()) {
                Ok(profile) => {
                    state.profile = profile;
                    switched("Mode", mode.as_str())
                },
                Err(_) => no_action(),
            },
            _ => no_action(),
        },
        TrayEvent::HealthTick { health, models } => {
            state.health = health;
            match models {
                Ok(names) => if names.len() > 0 {
                    state.ollama_models = names;
                },
                Err(_) => {},
            }
            no_action()
        },
        TrayEvent::ShutdownChanged => {
            let mut res: Vec<TrayAction> = Vec::new();
            res.push(TrayAction::CloseTray);
            res.push(TrayAction::Stop);
            assert(actions_view(res@) =~= seq![TrayActionView::CloseTray, TrayActionView::Stop]);
            res
        },
    }
}

/// What is done for a command.
fn obey(cmd: TrayCmd, xdg_config_home: Option<&str>, home: Option<&str>) -> (res: Vec<TrayAction>)
    ensures
        actions_view(res@) == tray_actions(
            TrayEvent::Command(Some(cmd)),
            config::config_dir_of(text::opt_text(xdg_config_home), text::opt_text(home)),
        ),
{
    match cmd {
        TrayCmd::SetMode(mode) => one_action(TrayAction::Send(Request::SetMode { mode })),
        TrayCmd::SetSttLanguage { model, language } => one_action(
            TrayAction::ApplyStt { model, language },
        ),
        TrayCmd::SetOllamaModel(model) => one_action(
            TrayAction::Send(Request::SetModel { model }),
        ),
        TrayCmd::OpenConfig => match config::config_file_path(xdg_config_home, home) {
            Ok(path) => one_action(TrayAction::OpenFile(path)),
            Err(_) => no_action(),
        },
        TrayCmd::Shutdown => {
            let mut res: Vec<TrayAction> = Vec::new();
            res.push(TrayAction::SignalShutdown);
            res.push(TrayAction::CloseTray);
            res.push(TrayAction::Stop);
            assert(actions_view(res@) =~= seq![
                TrayActionView::SignalShutdown,
                TrayActionView::CloseTray,
                TrayActionView::Stop,
            ]);
            res
        },
    }
}

// ─── Errors ──────────────────────────────────────────────────────────────────

/// What stopped the tray.
#[derive(Debug)]
pub enum TrayError {
    Config(String),
    Daemon(String),
    TraySpawn(String),
    Adapter(String),
    Io(String),
    Json(String),
    Socket(DaemonError),
    Http(String),
    Transport(DaemonTransportError),
}

impl TrayError {
    /// The error in words.
    pub open spec fn message_of(self) -> Seq<char> {
        match self {
            TrayError::Config(e) => "config error: "@ + e@,
            TrayError::Daemon(e) => "daemon error: "@ + e@,
            TrayError::TraySpawn(e) => "tray spawn error: "@ + e@,
            TrayError::Adapter(e) => "adapter error: "@ + e@,
            TrayError::Io(e) => "io error: "@ + e@,
            TrayError::Json(e) => "json error: "@ + e@,
            TrayError::Socket(e) => "daemon socket error: "@ + e.message_of(),
            TrayError::Http(e) => "http error: "@ + e@,
            TrayError::Transport(e) => "transport error: "@ + e.message_of(),
        }
    }

    /// The error in words.
    pub fn message(&self) -> (res: String)
        ensures
            res@ == self.message_of(),
    {
        let (mut res, e) = match self {
            TrayError::Config(e) => ("config error: ".to_owned(), e.clone()),
            TrayError::Daemon(e) => ("daemon error: ".to_owned(), e.clone()),
            TrayError::TraySpawn(e) => ("tray spawn error: ".to_owned(), e.clone()),
            TrayError::Adapter(e) => ("adapter error: ".to_owned(), e.clone()),
            TrayError::Io(e) => ("io error: ".to_owned(), e.clone()),
            TrayError::Json(e) => ("json error: ".to_owned(), e.clone()),
            TrayError::Socket(e) => ("daemon socket error: ".to_owned(), e.message()),
            TrayError::Http(e) => ("http error: ".to_owned(), e.clone()),
            TrayError::Transport(e) => ("transport error: ".to_owned(), e.message()),
        };
        res.append(e.as_str());
        res
    }
}

// ─── Laws ────────────────────────────────────────────────────────────────────

/// The service is restarted only after the configuration was written, and a change
/// whose configuration could not be written ends there and leaves the tray as it is.
pub proof fn law_write_comes_before_restart(
    s: TrayStateView,
    model: Seq<char>,
    language: Seq<char>,
    event: SttEvent,
    action: SttAction,
)
    requires
        is_stt_action(model, language, event, action),
    ensures
        action is RestartService ==> (event is Written && event->Written_0 is Ok),
        event is Start ==> action is WriteConfig,
        event is Written && event->Written_0 is Err ==> (action is Finish && s.after(
            TrayEvent::SttApplied(action->Finish_0),
        ) == s),
{
}

/// A change of language that ended well is what the tray shows from then on.
pub proof fn law_stt_change_is_shown(
    s: TrayStateView,
    model: Seq<char>,
    language: Seq<char>,
    restarted: Result<(), String>,
    action: SttAction,
)
    requires
        is_stt_action(model, language, SttEvent::Restarted(restarted), action),
    ensures
        action is Finish,
        s.after(TrayEvent::SttApplied(action->Finish_0)) == (TrayStateView {
            stt_label: voxtype::stt_label_of(model, language),
            stt_model: model,
            stt_language: language,
            ..s
        }),
{
}

/// A look at the model server that finds no models keeps the list.
pub proof fn law_models_are_kept(
    s: TrayStateView,
    health: HealthInfo,
    models: Result<Vec<String>, TrayError>,
)
    requires
        models matches Ok(names) ==> names@.len() == 0,
    ensures
        s.after(TrayEvent::HealthTick { health, models }) == (TrayStateView { health: health, ..s }),
{
}

/// A model that the daemon did not take changes nothing and is not announced.
pub proof fn law_refused_model_changes_nothing(
    s: TrayStateView,
    model: String,
    answer: Result<Response, DaemonTransportError>,
    dir: Option<Seq<char>>,
)
    requires
        answer matches Ok(response) ==> response !is ModelChanged,
    ensures
        s.after(TrayEvent::ModelSet { model, answer }) == s,
        tray_actions(TrayEvent::ModelSet { model, answer }, dir).len() == 0,
{
}

/// The options that the menu marks as selected are there.
pub proof fn law_selection_is_in_the_menu(s: TrayStateView, i: int)
    requires
        0 <= i < s.menu().len(),
    ensures
        s.menu()[i] matches MenuEntryView::Select { choice, options, selected, .. } ==> selected
            < options.len() && s.selection(choice, selected) is Some,
{
}

proof fn lemma_place(names: Seq<Seq<char>>, name: Seq<char>, i: nat, k: int)
    requires
        i <= k < names.len(),
        names[k] == name,
    ensures
        place_from(names, name, i) < names.len(),
        names[place_from(names, name, i) as int] == name,
    decreases names.len() - i,
{
    if names[i as int] != name {
        lemma_place(names, name, i + 1, k);
    }
}

proof fn lemma_preset(model: Seq<char>, language: Seq<char>, i: nat, k: int)
    requires
        i <= k < 6,
        STT_PRESETS@[k].1@ == model,
        STT_PRESETS@[k].2@ == language,
    ensures
        ({
            let found = voxtype::preset_from(model, language, i);
            &&& found < 6
            &&& STT_PRESETS@[found as int].1@ == model
            &&& STT_PRESETS@[found as int].2@ == language
        }),
    decreases 6 - i,
{
    if !(STT_PRESETS@[i as int].1@ == model && STT_PRESETS@[i as int].2@ == language) {
        lemma_preset(model, language, i + 1, k);
    }
}

/// If the model in use is in the menu, it is the one that is marked.
pub proof fn law_menu_marks_the_model(s: TrayStateView, k: int)
    requires
        0 <= k < s.ollama_models.len(),
        s.ollama_models[k] == s.ollama_model,
    ensures
        ({
            let marked = place_or_first(s.ollama_models, s.ollama_model);
            s.selection(Choice::OllamaModel, marked) == Some(
                TrayCmdView::SetOllamaModel(s.ollama_model),
            )
        }),
{
    lemma_place(s.ollama_models, s.ollama_model, 0, k);
}

/// If the speech-to-text model and language in use are those of a preset, a preset
/// with that model and language is the one that is marked.
pub proof fn law_menu_marks_the_preset(s: TrayStateView, k: int)
    requires
        0 <= k < 6,
        STT_PRESETS@[k].1@ == s.stt_model,
        STT_PRESETS@[k].2@ == s.stt_language,
    ensures
        s.selection(Choice::SttLanguage, s.stt_selected()) == Some(
            TrayCmdView::SetSttLanguage { model: s.stt_model, language: s.stt_language },
        ),
{
    lemma_preset(s.stt_model, s.stt_language, 0, k);
}

/// A look at the model server that names models makes the list of models those names:
/// all of them, in order, and no others. The menu offers just these, and selecting one
/// asks for it. Besides the list and the health, nothing changes.
pub proof fn law_named_models_are_offered(s: TrayStateView, health: HealthInfo, names: Vec<String>)
    requires
        names@.len() > 0,
    ensures
        ({
            let t = s.after(TrayEvent::HealthTick { health, models: Ok(names) });
            let offered = Seq::new(names@.len(), |i: int| names@[i]@);
            &&& t == (TrayStateView { health: health, ollama_models: offered, ..s })
            &&& t.menu()[2] matches MenuEntryView::Select { label, choice, options, .. } && label
                == "Ollama Model"@ && choice == Choice::OllamaModel && options == offered
            &&& forall|i: nat|
                i < names@.len() ==> #[trigger] t.selection(Choice::OllamaModel, i) == Some(
                    TrayCmdView::SetOllamaModel(names@[i as int]@),
                )
            &&& forall|i: nat|
                i >= names@.len() ==> #[trigger] t.selection(Choice::OllamaModel, i) is None
        }),
{
    let t = s.after(TrayEvent::HealthTick { health, models: Ok(names) });
    let offered = Seq::new(names@.len(), |i: int| names@[i]@);
    assert(t.ollama_models =~= offered);
}

/// Whatever a look at the model server finds, the health is what it was found to be, and
/// besides it only the list of models may change. Nothing is done for it.
pub proof fn law_every_look_shows_the_health(
    s: TrayStateView,
    health: HealthInfo,
    models: Result<Vec<String>, TrayError>,
    dir: Option<Seq<char>>,
)
    ensures
        ({
            let t = s.after(TrayEvent::HealthTick { health, models });
            &&& t.health == health
            &&& t == (TrayStateView { health: t.health, ollama_models: t.ollama_models, ..s })
            &&& tray_actions(TrayEvent::HealthTick { health, models }, dir).len() == 0
        }),
{
}

/// A model that the daemon took is what the tray shows from then on, and is announced.
/// Nothing else changes.
pub proof fn law_accepted_model_is_shown(
    s: TrayStateView,
    model: String,
    named: String,
    dir: Option<Seq<char>>,
)
    ensures
        ({
            let event = TrayEvent::ModelSet {
                model,
                answer: Ok(Response::ModelChanged { model: named }),
            };
            &&& s.after(event) == (TrayStateView { ollama_model: model@, ..s })
            &&& tray_actions(event, dir) == seq![
                TrayActionView::Notify {
                    summary: "Ollama Model"@,
                    body: "Switched to "@ + model@,
                },
            ]
        }),
{
}

/// A mode that the daemon took is the one whose profile the tray shows from then on,
/// and is announced. Nothing else changes.
pub proof fn law_accepted_mode_is_shown(
    s: TrayStateView,
    p: ProfileView,
    mode: String,
    dir: Option<Seq<char>>,
)
    requires
        mode@ == p.mode_name(),
    ensures
        ({
            let event = TrayEvent::ModeSet { answer: Ok(Response::ModeChanged { mode }) };
            &&& s.after(event) == (TrayStateView { profile: p, ..s })
            &&& tray_actions(event, dir) == seq![
                TrayActionView::Notify { summary: "Mode"@, body: "Switched to "@ + mode@ },
            ]
        }),
{
    modes::law_mode_roundtrip(p);
}

/// A mode that the daemon did not take, and an answer that names no mode, change
/// nothing and are not announced.
pub proof fn law_refused_mode_changes_nothing(
    s: TrayStateView,
    answer: Result<Response, DaemonTransportError>,
    dir: Option<Seq<char>>,
)
    requires
        answer matches Ok(Response::ModeChanged { mode }) ==> modes::profile_of_mode(mode@) is None,
    ensures
        s.after(TrayEvent::ModeSet { answer }) == s,
        tray_actions(TrayEvent::ModeSet { answer }, dir).len() == 0,
{
}

/// A change of the speech-to-text language that was made is announced, and one that was
/// not changes nothing and is not announced.
pub proof fn law_language_change_is_announced(
    s: TrayStateView,
    done: (String, String, String),
    dir: Option<Seq<char>>,
)
    ensures
        ({
            let t = s.after(TrayEvent::SttApplied(Some(done)));
            &&& t == (TrayStateView {
                stt_label: done.0@,
                stt_model: done.1@,
                stt_language: done.2@,
                ..s
            })
            &&& tray_actions(TrayEvent::SttApplied(Some(done)), dir) == seq![
                TrayActionView::Notify {
                    summary: "STT Language"@,
                    body: "Switched to "@ + t.stt_label + " ("@ + t.stt_model + ")"@,
                },
            ]
        }),
        s.after(TrayEvent::SttApplied(None)) == s,
        tray_actions(TrayEvent::SttApplied(None), dir).len() == 0,
{
}

/// A command changes nothing of what the tray shows: only what becomes of it does.
pub proof fn law_commands_wait_for_their_outcome(s: TrayStateView, cmd: Option<TrayCmd>)
    ensures
        s.after(TrayEvent::Command(cmd)) == s,
        s.after(TrayEvent::ShutdownChanged) == s,
{
}

/// The tray ends with the last of its actions, and does so only for a shutdown, from
/// here or elsewhere, or when the menu is gone. Only a shutdown from here is told to
/// the daemon, and that before the icon is taken away.
pub proof fn law_tray_ends_on_shutdown_only(event: TrayEvent, dir: Option<Seq<char>>, i: int)
    requires
        0 <= i < tray_actions(event, dir).len(),
    ensures
        ({
            let actions = tray_actions(event, dir);
            let ends = match event {
                TrayEvent::Command(Some(TrayCmd::Shutdown)) => true,
                TrayEvent::Command(None) => true,
                TrayEvent::ShutdownChanged => true,
                _ => false,
            };
            &&& actions[i] is Stop <==> ends && i == actions.len() - 1
            &&& actions[i] is CloseTray ==> ends && i == actions.len() - 2
            &&& actions[i] is SignalShutdown <==> event == TrayEvent::Command(
                Some(TrayCmd::Shutdown),
            ) && i == 0
            &&& ends && event != TrayEvent::Command(None) ==> actions.len() >= 2
                && actions[actions.len() - 2] is CloseTray
        }),
{
}

/// The configuration that the menu opens is the file that is read.
pub proof fn law_menu_opens_the_configuration(dir: Seq<char>)
    ensures
        tray_actions(TrayEvent::Command(Some(TrayCmd::OpenConfig)), Some(dir)) == seq![
            TrayActionView::OpenFile(text::path_join(dir, "config.toml"@)),
        ],
        tray_actions(TrayEvent::Command(Some(TrayCmd::OpenConfig)), None).len() == 0,
{
}

/// Selecting a model from the menu asks the daemon for that very model. When the daemon
/// has taken it, the model is the one that the daemon uses and that the tray shows.
pub proof fn law_selected_model_is_used(
    s: TrayStateView,
    d: AppStateView,
    i: nat,
    model: String,
    dir: Option<Seq<char>>,
)
    requires
        i < s.ollama_models.len(),
        model@ == s.ollama_models[i as int],
    ensures
        s.menu()[2] matches MenuEntryView::Select { options, .. } && options[i as int] == model@,
        s.selection(Choice::OllamaModel, i) == Some(TrayCmd::SetOllamaModel(model)@),
        tray_actions(TrayEvent::Command(Some(TrayCmd::SetOllamaModel(model))), dir) == seq![
            TrayActionView::Send(RequestView::SetModel { model: model@ }),
        ],
        daemon::after_request(d, RequestView::SetModel { model: model@ }).model() == model@,
        s.after(
            TrayEvent::ModelSet { model, answer: Ok(Response::ModelChanged { model }) },
        ).ollama_model == model@,
{
}

/// Selecting a mode from the menu asks the daemon for that very mode. When the daemon has
/// taken it, the mode is the one that the daemon is in and that the tray shows.
pub proof fn law_selected_mode_is_used(
    s: TrayStateView,
    d: AppStateView,
    i: nat,
    mode: String,
    dir: Option<Seq<char>>,
)
    requires
        i < 4,
        mode@ == MENU_MODES@[i as int]@,
    ensures
        s.menu()[0] matches MenuEntryView::Select { options, .. } && options.len() == 4
            && options[i as int] == mode@,
        s.selection(Choice::Mode, i) == Some(TrayCmd::SetMode(mode)@),
        tray_actions(TrayEvent::Command(Some(TrayCmd::SetMode(mode))), dir) == seq![
            TrayActionView::Send(RequestView::SetMode { mode: mode@ }),
        ],
        daemon::after_request(
            d,
            RequestView::SetMode { mode: mode@ },
        ).active_profile.mode_name() == mode@,
        s.after(
            TrayEvent::ModeSet { answer: Ok(Response::ModeChanged { mode }) },
        ).profile.mode_name() == mode@,
{
    modes::law_menu_modes_are_modes(i as int);
}

/// Selecting a language from the menu has its model and language written, and the tray
/// shows the label of that option when that is done.
pub proof fn law_selected_language_is_applied(
    s: TrayStateView,
    i: nat,
    model: String,
    language: String,
    dir: Option<Seq<char>>,
)
    requires
        i < 6,
        model@ == STT_PRESETS@[i as int].1@,
        language@ == STT_PRESETS@[i as int].2@,
    ensures
        s.menu()[1] matches MenuEntryView::Select { options, .. } && options.len() == 6
            && options[i as int] == voxtype::stt_label_of(model@, language@),
        s.selection(Choice::SttLanguage, i) == Some(TrayCmd::SetSttLanguage { model, language }@),
        tray_actions(
            TrayEvent::Command(Some(TrayCmd::SetSttLanguage { model, language })),
            dir,
        ) == seq![TrayActionView::ApplyStt { model: model@, language: language@ }],
        forall|action: SttAction| #[trigger]
            is_stt_action(model@, language@, SttEvent::Start, action) ==> (action matches
                SttAction::WriteConfig { model: m, language: l } && m@ == model@ && l@
                == language@),
{
    voxtype::law_label_is_that_of_the_preset(model@, language@, i as int);
}

proof fn lemma_first_place(names: Seq<Seq<char>>, name: Seq<char>, i: nat)
    requires
        i <= names.len(),
    ensures
        i <= place_from(names, name, i) <= names.len(),
        forall|k: int| i <= k < place_from(names, name, i) ==> #[trigger] names[k] != name,
        place_from(names, name, i) < names.len() ==> names[place_from(names, name, i) as int]
            == name,
    decreases names.len() - i,
{
    if i < names.len() && names[i as int] != name {
        lemma_first_place(names, name, i + 1);
    }
}

/// What is marked in a list of names is the first place of the name, or the first name
/// if the name is not in the list.
pub proof fn law_first_place_is_marked(names: Seq<Seq<char>>, name: Seq<char>)
    ensures
        names.contains(name) ==> place_or_first(names, name) < names.len()
            && names[place_or_first(names, name) as int] == name,
        !names.contains(name) ==> place_or_first(names, name) == 0,
        forall|k: int|
            0 <= k < place_or_first(names, name) && k < names.len() ==> #[trigger] names[k] != name,
{
    lemma_first_place(names, name, 0);
}

/// The menu marks the mode that the tray shows, unless that is a translation: then the
/// first mode is marked.
pub proof fn law_menu_marks_the_mode(s: TrayStateView)
    ensures
        s.menu()[0] matches MenuEntryView::Select { label, choice, options, selected } && label
            == "Mode"@ && choice == Choice::Mode && selected < options.len() && (
        s.profile !is Translate ==> options[selected as int] == s.profile.mode_name()) && (
        s.profile is Translate ==> selected == 0),
{
    let options = mode_options();
    let name = s.profile.mode_name();
    law_first_place_is_marked(options, name);
    assert(options[0] == "clean"@);
    assert(options[1] == "formal"@);
    assert(options[2] == "casual"@);
    assert(options[3] == "bullet"@);
    match s.profile {
        ProfileView::Translate(lang) => {
            reveal_strlit("clean");
            reveal_strlit("formal");
            reveal_strlit("casual");
            reveal_strlit("bullet");
            reveal_strlit("translate:");
            assert(name[0] == 't');
            assert("clean"@[0] == 'c' && "formal"@[0] == 'f' && "casual"@[0] == 'c'
                && "bullet"@[0] == 'b');
            assert(!options.contains(name));
        },
        _ => {
            assert(options.contains(name));
        },
    }
}

/// The menu has a submenu for the modes, one for the languages and one for the models,
/// and below them the commands to open the configuration and to quit.
pub proof fn law_menu_entries(s: TrayStateView)
    ensures
        s.menu().len() == 6,
        s.menu()[1] matches MenuEntryView::Select { label, choice, .. } && label
            == "STT Language"@ && choice == Choice::SttLanguage,
        s.menu()[2] matches MenuEntryView::Nothing { label, note } ==> label == "Ollama Model"@
            && note == "(no models found)"@,
        s.menu()[2] is Nothing <==> s.ollama_models.len() == 0,
        s.menu()[3] is Separator,
        s.menu()[4] == (MenuEntryView::Command {
            label: "Open Config"@,
            command: MenuCommand::OpenConfig,
        }),
        s.menu()[5] == (MenuEntryView::Command { label: "Quit"@, command: MenuCommand::Quit }),
{
}

/// The icon is green only if all is well, orange whenever the model server is not there,
/// and red if the speech-to-text service alone is not.
pub proof fn law_icon_shows_the_health(health: HealthInfo)
    ensures
        health_colour(health) == seq![0x4cu8, 0xafu8, 0x50u8, 0xffu8] <==> health.ollama_reachable
            && health.voxtype_running,
        health_colour(health) == seq![0xffu8, 0x98u8, 0x00u8, 0xffu8] <==>
            !health.ollama_reachable,
        health_colour(health) == seq![0xf4u8, 0x43u8, 0x36u8, 0xffu8] <==> health.ollama_reachable
            && !health.voxtype_running,
{
    let green = seq![0x4cu8, 0xafu8, 0x50u8, 0xffu8];
    let orange = seq![0xffu8, 0x98u8, 0x00u8, 0xffu8];
    let red = seq![0xf4u8, 0x43u8, 0x36u8, 0xffu8];
    assert(green[0] != orange[0]);
    assert(green[0] != red[0]);
    assert(orange[0] != red[0]);
}

/// What is shown under the pointer names the label, the speech-to-text model and the
/// language model, and tells what is there from what is not.
pub proof fn law_description_tells_the_state(s: TrayStateView)
    ensures
        text::starts_with(
            s.description(),
            "STT: "@ + s.stt_label + " ("@ + s.stt_model + ")\nLLM: "@ + s.ollama_model
                + "\nOllama: "@,
        ),
        ({
            let end = (if s.health.ollama_reachable {
                "connected"@
            } else {
                "unreachable"@
            }) + "\nVoxtype: "@ + (if s.health.voxtype_running {
                "running"@
            } else {
                "stopped"@
            });
            s.description() == "STT: "@ + s.stt_label + " ("@ + s.stt_model + ")\nLLM: "@
                + s.ollama_model + "\nOllama: "@ + end
        }),
{
    let head = "STT: "@ + s.stt_label + " ("@ + s.stt_model + ")\nLLM: "@ + s.ollama_model
        + "\nOllama: "@;
    assert(s.description().take(head.len() as int) =~= head);
    let end = (if s.health.ollama_reachable {
        "connected"@
    } else {
        "unreachable"@
    }) + "\nVoxtype: "@ + (if s.health.voxtype_running {
        "running"@
    } else {
        "stopped"@
    });
    assert(s.description() =~= head + end);
}

/// The tray starts with the models that the server names, all of them and in order, and
/// with none if it cannot be asked. Everything else is as it was found, and the model is
/// the configured one.
pub proof fn law_tray_starts_with_what_was_found(
    default_model: Seq<char>,
    stt: (Seq<char>, Seq<char>, Seq<char>),
    health: HealthInfo,
    names: Vec<String>,
    e: TrayError,
    profile: ProfileView,
)
    ensures
        ({
            let s = start_state(default_model, stt, health, Ok(names), profile);
            &&& s.ollama_models == Seq::new(names@.len(), |i: int| names@[i]@)
            &&& s.ollama_model == default_model
            &&& (s.stt_label, s.stt_model, s.stt_language) == stt
            &&& s.health == health
            &&& s.profile == profile
            &&& start_state(default_model, stt, health, Err(e), profile) == (TrayStateView {
                ollama_models: Seq::empty(),
                ..s
            })
        }),
{
    let s = start_state(default_model, stt, health, Ok(names), profile);
    assert(s.ollama_models =~= Seq::new(names@.len(), |i: int| names@[i]@));
}

/// The model server and the speech-to-text service are looked at independently of each
/// other. A server is there if it answers with success, and a service runs if the command
/// that asks for it succeeds.
pub proof fn law_health_is_looked_at_apart(
    status: u16,
    success: bool,
    failure: HttpFailure,
    e: String,
    ollama: Result<u16, HttpFailure>,
    voxtype: Result<bool, String>,
)
    ensures
        health_of(Ok(status), voxtype).ollama_reachable <==> status / 100 == 2,
        !health_of(Err(failure), voxtype).ollama_reachable,
        health_of(ollama, Ok(success)).voxtype_running <==> success,
        !health_of(ollama, Err(e)).voxtype_running,
{
}

/// A click asks for the mode that comes next in the menu, and behind the last one, or from
/// a translation, for the first one.
pub proof fn law_click_steps_through_the_menu(s: TrayStateView, i: int)
    requires
        0 <= i < 4,
    ensures
        s.profile.mode_name() == MENU_MODES@[i]@ ==> s.click() == TrayCmdView::SetMode(
            MENU_MODES@[(i + 1) % 4]@,
        ),
        s.profile is Translate ==> s.click() == TrayCmdView::SetMode(MENU_MODES@[0]@),
{
    if s.profile.mode_name() == MENU_MODES@[i]@ {
        modes::law_profiles_step_through_the_list(i, s.profile);
    }
    assert(MENU_MODES@[0]@ == "clean"@);
}

/// The commands of the menu do what they are named after.
pub proof fn law_menu_commands()
    ensures
        menu_cmd(MenuCommand::OpenConfig) == TrayCmdView::OpenConfig,
        menu_cmd(MenuCommand::Quit) == TrayCmdView::Shutdown,
{
}

/// The title names the language, and changes with it.
pub proof fn law_title_names_the_language(a: TrayStateView, b: TrayStateView)
    ensures
        text::ends_with(a.title_text(), a.stt_label),
        a.title_text() == b.title_text() <==> a.stt_label == b.stt_label,
{
    let head = "e-voice: "@;
    let n = head.len() as int;
    text::law_parts_are_found(head, a.stt_label, Seq::empty());
    assert(a.title_text().skip(n) =~= a.stt_label);
    assert(b.title_text().skip(n) =~= b.stt_label);
}

/// An error of the tray names its kind and its cause.
pub proof fn law_errors_name_their_cause(e: String, d: DaemonError, t: DaemonTransportError)
    ensures
        TrayError::Config(e).message_of() == "config error: "@ + e@,
        TrayError::Daemon(e).message_of() == "daemon error: "@ + e@,
        TrayError::TraySpawn(e).message_of() == "tray spawn error: "@ + e@,
        TrayError::Adapter(e).message_of() == "adapter error: "@ + e@,
        TrayError::Io(e).message_of() == "io error: "@ + e@,
        TrayError::Json(e).message_of() == "json error: "@ + e@,
        TrayError::Socket(d).message_of() == "daemon socket error: "@ + d.message_of(),
        TrayError::Http(e).message_of() == "http error: "@ + e@,
        TrayError::Transport(t).message_of() == "transport error: "@ + t.message_of(),
{
}

/// A change of language goes its whole way: what was asked for is written, then the
/// service is restarted, and whether or not that works, the change stands.
pub proof fn law_language_change_goes_its_way(
    model: Seq<char>,
    language: Seq<char>,
    restarted: Result<(), String>,
    start: SttAction,
    written: SttAction,
    end: SttAction,
)
    requires
        is_stt_action(model, language, SttEvent::Start, start),
        is_stt_action(model, language, SttEvent::Written(Ok(())), written),
        is_stt_action(model, language, SttEvent::Restarted(restarted), end),
    ensures
        start matches SttAction::WriteConfig { model: m, language: l } && m@ == model && l@
            == language,
        written is RestartService,
        end matches SttAction::Finish(Some(done)) && done.1@ == model && done.2@ == language
            && done.0@ == voxtype::stt_label_of(model, language),
{
}

/// The points of an icon are all of its colour: the four bytes of each, in order.
pub proof fn law_every_point_has_the_colour(icon: Icon, rgba: Seq<u8>, x: int, y: int)
    requires
        is_plain_icon(icon, rgba),
        0 <= x < 24,
        0 <= y < 24,
        rgba.len() == 4,
    ensures
        icon.data@.len() == 4 * icon.width * icon.height,
        icon.data@.subrange(4 * (24 * y + x), 4 * (24 * y + x) + 4) == rgba,
{
    let at = 4 * (24 * y + x);
    assert(icon.data@.len() == 4 * 24 * 24);
    assert(icon.width * icon.height == 24 * 24);
    assert forall|k: int| 0 <= k < 4 implies icon.data@[at + k] == #[trigger] rgba[k] by {
        assert((at + k) % 4 == k);
    }
    assert(icon.data@.subrange(at, at + 4) =~= rgba);
}

} // verus!
