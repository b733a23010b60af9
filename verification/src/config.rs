//! Configuration, defaults, and the files they are kept in.
use crate::modes;
use crate::modes::{Profile, ProfileView};
use crate::strings;
use crate::text;
use vstd::prelude::*;
use vstd::string::*;

verus! {

/// Which language model server to use.
#[derive(Debug, Clone, Copy, PartialEq, Eq, Structural)]
pub enum Backend {
    Ollama,
    LmStudio,
}

impl Default for Backend {
    fn default() -> (res: Self)
        ensures
            res == Backend::Ollama,
    {
        Backend::Ollama
    }
}

/// The backend with a given name in the configuration file.
pub open spec fn backend_named(name: Seq<char>) -> Option<Backend> {
    if name == "ollama"@ {
        Some(Backend::Ollama)
    } else if name == "lm_studio"@ {
        Some(Backend::LmStudio)
    } else {
        None
    }
}

impl Backend {
    /// The name of the backend in the configuration file.
    pub open spec fn name_of(self) -> Seq<char> {
        match self {
            Backend::Ollama => "ollama"@,
            Backend::LmStudio => "lm_studio"@,
        }
    }

    /// The name of the backend in the configuration file.
    pub fn name(&self) -> (res: String)
        ensures
            res@ == self.name_of(),
    {
        match self {
            Backend::Ollama => "ollama".to_owned(),
            Backend::LmStudio => "lm_studio".to_owned(),
        }
    }

    /// The backend with a given name in the configuration file.
    pub fn from_name(name: &str) -> (res: Result<Backend, String>)
        ensures
            match backend_named(name@) {
                Some(b) => res == Ok::<Backend, String>(b),
                None => res matches Err(e) && e@ == "unknown variant `"@ + name@
                    + "`, expected `ollama` or `lm_studio`"@,
            },
    {
        if strings::same(name, "ollama") {
            Ok(Backend::Ollama)
        } else if strings::same(name, "lm_studio") {
            Ok(Backend::LmStudio)
        } else {
            let mut message = "unknown variant `".to_owned();
            message.append(name);
            message.append("`, expected `ollama` or `lm_studio`");
            Err(message)
        }
    }
}

/// The language model server and how it is used.
#[derive(Debug)]
pub struct LlmConfig {
    pub backend: Backend,
    pub url: String,
    pub model: String,
    /// Seconds to keep the model loaded after a request. `-1` means keep forever.
    pub keep_alive_secs: i64,
}

/// The configuration of the program.
#[derive(Debug)]
pub struct AppConfig {
    pub llm: LlmConfig,
}

/// How long a model stays loaded if the configuration does not say.
pub fn default_keep_alive_secs() -> (res: i64)
    ensures
        res == 300,
{
    300
}

/// What went wrong with a configuration or state file.
#[derive(Debug)]
pub enum ConfigError {
    Io(String),
    Toml(String),
    TomlSerialize(String),
    MissingHome,
}

impl ConfigError {
    /// The error in words.
    pub open spec fn message_of(self) -> Seq<char> {
        match self {
            ConfigError::Io(e) => "io error: "@ + e@,
            ConfigError::Toml(e) => "toml parse/serialize error: "@ + e@,
            ConfigError::TomlSerialize(e) => "toml serialize error: "@ + e@,
            ConfigError::MissingHome => "$HOME is not set"@,
        }
    }

    /// The error in words.
    pub fn message(&self) -> (res: String)
        ensures
            res@ == self.message_of(),
    {
        match self {
            ConfigError::Io(e) => {
                let mut res = "io error: ".to_owned();
                res.append(e.as_str());
                res
            },
            ConfigError::Toml(e) => {
                let mut res = "toml parse/serialize error: ".to_owned();
                res.append(e.as_str());
                res
            },
            ConfigError::TomlSerialize(e) => {
                let mut res = "toml serialize error: ".to_owned();
                res.append(e.as_str());
                res
            },
            ConfigError::MissingHome => "$HOME is not set".to_owned(),
        }
    }
}

impl Clone for AppConfig {
    fn clone(&self) -> (res: Self)
        ensures
            res == *self,
    {
        AppConfig {
            llm: LlmConfig {
                backend: self.llm.backend,
                url: self.llm.url.clone(),
                model: self.llm.model.clone(),
                keep_alive_secs: self.llm.keep_alive_secs,
            },
        }
    }
}

impl AppConfig {
    /// The configuration of a program that was never configured.
    pub open spec fn is_default(self) -> bool {
        &&& self.llm.backend == Backend::Ollama
        &&& self.llm.url@ == "http://localhost:11434"@
        &&& self.llm.model@ == "llama3.2:1b"@
        &&& self.llm.keep_alive_secs == 300
    }
}

impl Default for AppConfig {
    fn default() -> (res: Self)
        ensures
            res.is_default(),
    {
        AppConfig {
            llm: LlmConfig {
                backend: Backend::Ollama,
                url: "http://localhost:11434".to_owned(),
                model: "llama3.2:1b".to_owned(),
                keep_alive_secs: default_keep_alive_secs(),
            },
        }
    }
}

impl AppConfig {
    /// The configuration with the given settings. The backend and the time for
    /// which models stay loaded may be left out.
    pub fn from_fields(
        backend: Option<Backend>,
        url: &str,
        model: &str,
        keep_alive_secs: Option<i64>,
    ) -> (res: AppConfig)
        ensures
            res.llm.backend == match backend {
                Some(b) => b,
                None => Backend::Ollama,
            },
            res.llm.url@ == url@,
            res.llm.model@ == model@,
            res.llm.keep_alive_secs == match keep_alive_secs {
                Some(n) => n,
                None => 300,
            },
            res.says(backend, url@, model@, keep_alive_secs),
    {
        let backend = match backend {
            Some(b) => b,
            None => Backend::default(),
        };
        let keep_alive_secs: i64 = match keep_alive_secs {
            Some(n) => n,
            None => default_keep_alive_secs(),
        };
        AppConfig {
            llm: LlmConfig {
                backend,
                url: url.to_owned(),
                model: model.to_owned(),
                keep_alive_secs,
            },
        }
    }

    /// The configuration says what these settings say. The backend and the time for
    /// which models stay loaded may be left out.
    pub open spec fn says(
        self,
        backend: Option<Backend>,
        url: Seq<char>,
        model: Seq<char>,
        keep_alive_secs: Option<i64>,
    ) -> bool {
        &&& backend matches Some(b) ==> self.llm.backend == b
        &&& backend is None ==> self.llm.backend == Backend::Ollama
        &&& self.llm.url@ == url
        &&& self.llm.model@ == model
        &&& keep_alive_secs matches Some(n) ==> self.llm.keep_alive_secs == n
        &&& keep_alive_secs is None ==> self.llm.keep_alive_secs == 300
    }

    /// Two configurations say the same.
    pub open spec fn same(self, other: AppConfig) -> bool {
        &&& self.llm.backend == other.llm.backend
        &&& self.llm.url@ == other.llm.url@
        &&& self.llm.model@ == other.llm.model@
        &&& self.llm.keep_alive_secs == other.llm.keep_alive_secs
    }

    /// `res` is the configuration to run with, if the file holds `file`, or there is
    /// none.
    pub open spec fn is_loaded(
        file: Option<Result<AppConfig, ConfigError>>,
        res: Result<AppConfig, ConfigError>,
    ) -> bool {
        match file {
            Some(read) => res == read,
            None => res matches Ok(config) && config.is_default(),
        }
    }

    /// The configuration to run with. `path` is where the file is looked for, and
    /// `file` what it holds, or `None` if there is no such file.
    pub fn load(
        path: Result<String, ConfigError>,
        file: Option<Result<AppConfig, ConfigError>>,
    ) -> (res: Result<AppConfig, ConfigError>)
        ensures
            path matches Err(e) ==> res == Err::<AppConfig, ConfigError>(e),
            path is Ok ==> AppConfig::is_loaded(file, res),
    {
        match path {
            Err(e) => Err(e),
            Ok(_) => match file {
                Some(read) => read,
                None => Ok(AppConfig::default()),
            },
        }
    }
}

/// What survives a restart of the daemon.
#[derive(Debug, PartialEq)]
pub struct PersistentState {
    /// The active profile.
    pub profile: Profile,
}

impl Default for PersistentState {
    fn default() -> (res: Self)
        ensures
            res.profile@ == ProfileView::UniversalInterpreter,
    {
        PersistentState { profile: Profile::default() }
    }
}

impl PersistentState {
    /// The profile's name, as the state file keeps it.
    pub fn field(&self) -> (res: String)
        ensures
            res@ == self.profile@.name(),
    {
        self.profile.name()
    }

    /// The state with the profile that the state file names.
    pub fn from_field(profile: &str) -> (res: Result<PersistentState, ConfigError>)
        ensures
            match modes::profile_named(profile@) {
                Some(p) => res matches Ok(state) && state.profile@ == p,
                None => res matches Err(ConfigError::Toml(m)) && m@ == "unknown profile: "@
                    + profile@,
            },
    {
        match Profile::from_name(profile) {
            Ok(p) => Ok(PersistentState { profile: p }),
            Err(message) => Err(ConfigError::Toml(message)),
        }
    }

    /// The profile to start with.
    pub open spec fn restored(
        path: Result<String, ConfigError>,
        file: Option<Result<PersistentState, ConfigError>>,
    ) -> ProfileView {
        match (path, file) {
            (Ok(_), Some(Ok(state))) => state.profile@,
            _ => ProfileView::UniversalInterpreter,
        }
    }

    /// The state to start with: that of the state file, or the default one if
    /// there is no such file or it cannot be understood. `path` is where the file
    /// is looked for, and `file` what it holds, or `None` if there is none.
    pub fn load(
        path: Result<String, ConfigError>,
        file: Option<Result<PersistentState, ConfigError>>,
    ) -> (res: PersistentState)
        ensures
            path is Ok && file is Some && file->Some_0 is Ok ==> res == file->Some_0->Ok_0,
            !(path is Ok && file is Some && file->Some_0 is Ok) ==> res.profile@
                == ProfileView::UniversalInterpreter,
            res.profile@ == PersistentState::restored(path, file),
    {
        match (path, file) {
            (Ok(_), Some(Ok(state))) => state,
            _ => PersistentState::default(),
        }
    }
}

/// The configuration directory, from the values of `XDG_CONFIG_HOME` and `HOME`.
pub open spec fn config_dir_of(
    xdg_config_home: Option<Seq<char>>,
    home: Option<Seq<char>>,
) -> Option<Seq<char>> {
    match xdg_config_home {
        Some(dir) if dir.len() > 0 => Some(text::path_join(dir, "e-voice"@)),
        _ => match home {
            Some(dir) => Some(text::path_join(text::path_join(dir, ".config"@), "e-voice"@)),
            None => None,
        },
    }
}

/// The configuration directory, from the values of `XDG_CONFIG_HOME` and `HOME`.
pub fn config_dir(xdg_config_home: Option<&str>, home: Option<&str>) -> (res: Result<
    String,
    ConfigError,
>)
    ensures
        match config_dir_of(text::opt_text(xdg_config_home), text::opt_text(home)) {
            Some(dir) => res matches Ok(r) && r@ == dir,
            None => res matches Err(ConfigError::MissingHome),
        },
{
    if let Some(dir) = xdg_config_home {
        if !dir.is_empty() {
            return Ok(strings::path_join(dir, "e-voice"));
        }
    }
    match home {
        Some(dir) => {
            let parent = strings::path_join(dir, ".config");
            Ok(strings::path_join(parent.as_str(), "e-voice"))
        },
        None => Err(ConfigError::MissingHome),
    }
}

/// The configuration file, from the values of `XDG_CONFIG_HOME` and `HOME`.
pub open spec fn config_file_of(
    xdg_config_home: Option<Seq<char>>,
    home: Option<Seq<char>>,
) -> Option<Seq<char>> {
    match config_dir_of(xdg_config_home, home) {
        Some(dir) => Some(text::path_join(dir, "config.toml"@)),
        None => None,
    }
}

/// The state file, from the values of `XDG_CONFIG_HOME` and `HOME`.
pub open spec fn state_file_of(
    xdg_config_home: Option<Seq<char>>,
    home: Option<Seq<char>>,
) -> Option<Seq<char>> {
    match config_dir_of(xdg_config_home, home) {
        Some(dir) => Some(text::path_join(dir, "state.toml"@)),
        None => None,
    }
}

/// The configuration file.
pub fn config_file_path(xdg_config_home: Option<&str>, home: Option<&str>) -> (res: Result<
    String,
    ConfigError,
>)
    ensures
        match config_dir_of(text::opt_text(xdg_config_home), text::opt_text(home)) {
            Some(dir) => res matches Ok(r) && r@ == text::path_join(dir, "config.toml"@),
            None => res matches Err(ConfigError::MissingHome),
        },
        match config_file_of(text::opt_text(xdg_config_home), text::opt_text(home)) {
            Some(path) => res matches Ok(r) && r@ == path,
            None => res matches Err(ConfigError::MissingHome),
        },
{
    let dir = config_dir(xdg_config_home, home)?;
    Ok(strings::path_join(dir.as_str(), "config.toml"))
}

/// The state file.
pub fn state_file_path(xdg_config_home: Option<&str>, home: Option<&str>) -> (res: Result<
    String,
    ConfigError,
>)
    ensures
        match config_dir_of(text::opt_text(xdg_config_home), text::opt_text(home)) {
            Some(dir) => res matches Ok(r) && r@ == text::path_join(dir, "state.toml"@),
            None => res matches Err(ConfigError::MissingHome),
        },
        match state_file_of(text::opt_text(xdg_config_home), text::opt_text(home)) {
            Some(path) => res matches Ok(r) && r@ == path,
            None => res matches Err(ConfigError::MissingHome),
        },
{
    let dir = config_dir(xdg_config_home, home)?;
    Ok(strings::path_join(dir.as_str(), "state.toml"))
}

// ─── Laws ────────────────────────────────────────────────────────────────────

/// A backend is found again under the name it is stored under.
pub proof fn law_backend_roundtrip(backend: Backend)
    ensures
        backend_named(backend.name_of()) == Some(backend),
{
    reveal_strlit("ollama");
    reveal_strlit("lm_studio");
    assert("ollama"@.len() != "lm_studio"@.len());
}

/// A name stands for a backend exactly if it is the backend's own.
pub proof fn law_backend_names(name: Seq<char>, backend: Backend)
    ensures
        backend_named(name) == Some(backend) <==> name == backend.name_of(),
        Backend::Ollama.name_of() == "ollama"@,
        Backend::LmStudio.name_of() == "lm_studio"@,
{
    law_backend_roundtrip(backend);
}

/// The configuration directory is the one of the desktop's environment, whatever the
/// home directory is. Without that one, or if it is empty, it is below the home
/// directory, and without a home directory there is none.
pub proof fn law_config_dir(
    xdg: Seq<char>,
    home: Seq<char>,
    any_xdg: Option<Seq<char>>,
    any_home: Option<Seq<char>>,
)
    ensures
        xdg.len() > 0 ==> config_dir_of(Some(xdg), any_home) == Some(
            text::path_join(xdg, "e-voice"@),
        ),
        config_dir_of(None, any_home) == config_dir_of(Some(Seq::empty()), any_home),
        config_dir_of(None, None) is None,
        config_dir_of(any_xdg, any_home) is None <==> any_home is None && (any_xdg is None
            || any_xdg->0.len() == 0),
        home.len() > 0 && home.last() != '/' ==> config_dir_of(None, Some(home)) == Some(
            home + "/.config/e-voice"@,
        ),
{
    reveal_strlit("/");
    reveal_strlit(".config");
    reveal_strlit("e-voice");
    reveal_strlit("/.config/e-voice");
    if home.len() > 0 && home.last() != '/' {
        let parent = home + "/"@ + ".config"@;
        assert(parent.last() == 'g');
        assert(parent + "/"@ + "e-voice"@ =~= home + "/.config/e-voice"@);
    }
}

/// The configuration and the state are kept in different files.
pub proof fn law_files_are_different(dir: Seq<char>)
    ensures
        text::path_join(dir, "config.toml"@) != text::path_join(dir, "state.toml"@),
{
    reveal_strlit("config.toml");
    reveal_strlit("state.toml");
    assert("config.toml"@.len() == 11 && "state.toml"@.len() == 10);
    text::law_path_join(dir, "config.toml"@, "state.toml"@);
}

/// Without a configuration file the program runs with Ollama on this machine, and all
/// such configurations say the same.
pub proof fn law_default_configuration(a: AppConfig, b: AppConfig)
    requires
        AppConfig::is_loaded(None, Ok(a)),
        AppConfig::is_loaded(None, Ok(b)),
    ensures
        a.same(b),
        a.says(None, "http://localhost:11434"@, "llama3.2:1b"@, None),
        a.says(Some(Backend::Ollama), a.llm.url@, a.llm.model@, Some(300)),
{
}

/// With a configuration file the program runs with what it says, and fails if that cannot
/// be understood.
pub proof fn law_file_counts(
    file: Result<AppConfig, ConfigError>,
    res: Result<AppConfig, ConfigError>,
)
    requires
        AppConfig::is_loaded(Some(file), res),
    ensures
        res == file,
{
}

/// What is left out of a configuration has no influence on the rest of it, and what is
/// given stands.
pub proof fn law_settings_stand(
    config: AppConfig,
    backend: Option<Backend>,
    url: Seq<char>,
    model: Seq<char>,
    keep_alive_secs: Option<i64>,
)
    requires
        config.says(backend, url, model, keep_alive_secs),
    ensures
        config.llm.url@ == url && config.llm.model@ == model,
        config.llm.backend == match backend {
            Some(b) => b,
            None => Backend::Ollama,
        },
        config.llm.keep_alive_secs == match keep_alive_secs {
            Some(n) => n,
            None => 300,
        },
{
}

/// The profile that was saved is the one to start with. Whatever goes wrong with the
/// state file, there is one to start with all the same.
pub proof fn law_saved_profile_is_restored(
    path: String,
    saved: PersistentState,
    e: ConfigError,
    file: Option<Result<PersistentState, ConfigError>>,
)
    ensures
        PersistentState::restored(Ok(path), Some(Ok(saved))) == saved.profile@,
        PersistentState::restored(Ok(path), Some(Err(e))) == ProfileView::UniversalInterpreter,
        PersistentState::restored(Ok(path), None) == ProfileView::UniversalInterpreter,
        PersistentState::restored(Err(e), file) == ProfileView::UniversalInterpreter,
{
}

/// An error names its kind and its cause.
pub proof fn law_errors_name_their_cause(e: String)
    ensures
        ConfigError::Io(e).message_of() == "io error: "@ + e@,
        ConfigError::Toml(e).message_of() == "toml parse/serialize error: "@ + e@,
        ConfigError::TomlSerialize(e).message_of() == "toml serialize error: "@ + e@,
        ConfigError::MissingHome.message_of() == "$HOME is not set"@,
{
}

/// Below a home directory both files have their places, and without a directory neither
/// has one.
pub proof fn law_files_have_their_places(
    home: Seq<char>,
    any_xdg: Option<Seq<char>>,
    any_home: Option<Seq<char>>,
)
    ensures
        home.len() > 0 && home.last() != '/' ==> {
            &&& config_file_of(None, Some(home)) == Some(home + "/.config/e-voice/config.toml"@)
            &&& state_file_of(None, Some(home)) == Some(home + "/.config/e-voice/state.toml"@)
        },
        config_file_of(any_xdg, any_home) is None <==> config_dir_of(any_xdg, any_home) is None,
        state_file_of(any_xdg, any_home) is None <==> config_dir_of(any_xdg, any_home) is None,
        config_file_of(any_xdg, any_home) is Some ==> config_file_of(any_xdg, any_home)
            != state_file_of(any_xdg, any_home),
{
    law_config_dir(home, home, any_xdg, any_home);
    if config_dir_of(any_xdg, any_home) is Some {
        law_files_are_different(config_dir_of(any_xdg, any_home)->0);
    }
    if home.len() > 0 && home.last() != '/' {
        let dir = home + "/.config/e-voice"@;
        reveal_strlit("/");
        reveal_strlit("/.config/e-voice");
        reveal_strlit("config.toml");
        reveal_strlit("state.toml");
        reveal_strlit("/.config/e-voice/config.toml");
        reveal_strlit("/.config/e-voice/state.toml");
        assert(dir.last() == 'e');
        assert(dir + "/"@ + "config.toml"@ =~= home + "/.config/e-voice/config.toml"@);
        assert(dir + "/"@ + "state.toml"@ =~= home + "/.config/e-voice/state.toml"@);
    }
}

} // verus!
