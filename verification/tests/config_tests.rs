use e_voice::config::{
    config_dir, config_file_path, state_file_path, AppConfig, Backend, ConfigError,
    PersistentState,
};
use e_voice::modes::Profile;

/// Reads the settings out of a TOML document.
fn parse(input: &str) -> Result<AppConfig, ConfigError> {
    let document: toml::Table =
        toml::from_str(input).map_err(|e| ConfigError::Toml(e.to_string()))?;
    let llm = document["llm"].as_table().expect("llm should be a table");
    let backend = match llm.get("backend").and_then(|v| v.as_str()) {
        Some(name) => Some(Backend::from_name(name).map_err(ConfigError::Toml)?),
        None => None,
    };
    Ok(AppConfig::from_fields(
        backend,
        llm["url"].as_str().expect("url should be a string"),
        llm["model"].as_str().expect("model should be a string"),
        llm.get("keep_alive_secs").and_then(|v| v.as_integer()),
    ))
}

#[test]
fn default_config_loads() {
    let cfg = AppConfig::default();
    assert!(!cfg.llm.url.is_empty());
    assert!(!cfg.llm.model.is_empty());
    assert_eq!(cfg.llm.backend, Backend::Ollama);
    assert_eq!(cfg.llm.keep_alive_secs, 300);
}

#[test]
fn parses_toml_into_config() {
    let input = r#"
[llm]
backend = "ollama"
url = "http://localhost:11434"
model = "llama3.2:1b"
keep_alive_secs = 60
"#;

    let cfg = parse(input).expect("valid config TOML should parse");
    assert_eq!(cfg.llm.url, "http://localhost:11434");
    assert_eq!(cfg.llm.model, "llama3.2:1b");
    assert_eq!(cfg.llm.keep_alive_secs, 60);
}

#[test]
fn parses_lm_studio_backend() {
    let input = r#"
[llm]
backend = "lm_studio"
url = "http://localhost:1234"
model = "lmstudio-community/meta-llama-3.1-8b-instruct-gguf"
keep_alive_secs = 120
"#;

    let cfg = parse(input).expect("lm_studio config should parse");
    assert_eq!(cfg.llm.backend, Backend::LmStudio);
    assert_eq!(cfg.llm.url, "http://localhost:1234");
}

#[test]
fn settings_may_be_left_out() {
    let cfg = parse("[llm]\nurl = \"u\"\nmodel = \"m\"\n").expect("should parse");
    assert_eq!(cfg.llm.backend, Backend::Ollama);
    assert_eq!(cfg.llm.keep_alive_secs, 300);
}

#[test]
fn unknown_backend_is_refused() {
    let err = parse("[llm]\nbackend = \"other\"\nurl = \"u\"\nmodel = \"m\"\n")
        .expect_err("should be refused");
    assert!(matches!(err, ConfigError::Toml(_)));
    assert_eq!(
        err.message(),
        "toml parse/serialize error: unknown variant `other`, expected `ollama` or `lm_studio`"
    );
}

#[test]
fn default_config_is_read_back_from_its_text() {
    let cfg = AppConfig::default();
    let mut llm = toml::Table::new();
    let mut set = |key: &str, value: toml::Value| llm.insert(key.to_owned(), value);
    set("backend", toml::Value::String(cfg.llm.backend.name()));
    set("url", toml::Value::String(cfg.llm.url.clone()));
    set("model", toml::Value::String(cfg.llm.model.clone()));
    set("keep_alive_secs", toml::Value::Integer(cfg.llm.keep_alive_secs));
    let mut document = toml::Table::new();
    document.insert("llm".to_owned(), toml::Value::Table(llm));
    let read = parse(&toml::to_string_pretty(&document).unwrap()).unwrap();
    assert_eq!(read.llm.backend, cfg.llm.backend);
    assert_eq!(read.llm.url, cfg.llm.url);
    assert_eq!(read.llm.model, cfg.llm.model);
    assert_eq!(read.llm.keep_alive_secs, cfg.llm.keep_alive_secs);
}

#[test]
fn backend_names_are_read_back() {
    for backend in [Backend::Ollama, Backend::LmStudio] {
        assert_eq!(Backend::from_name(&backend.name()), Ok(backend));
    }
    assert!(Backend::from_name("LmStudio").is_err());
}

#[test]
fn config_is_that_of_the_file_if_there_is_one() {
    let path = || Ok("/c/config.toml".to_owned());
    let file = parse("[llm]\nurl = \"u\"\nmodel = \"m\"\n");
    assert_eq!(AppConfig::load(path(), Some(file)).unwrap().llm.url, "u");
    assert_eq!(
        AppConfig::load(path(), None).unwrap().llm.url,
        "http://localhost:11434"
    );
    let broken = Some(Err(ConfigError::Io("gone".to_owned())));
    assert_eq!(
        AppConfig::load(path(), broken).unwrap_err().message(),
        "io error: gone"
    );
    assert_eq!(
        AppConfig::load(Err(ConfigError::MissingHome), None)
            .unwrap_err()
            .message(),
        "$HOME is not set"
    );
}

#[test]
fn test_active_profile_persists_to_state_file() {
    let state = PersistentState {
        profile: Profile::Formal,
    };
    let mut document = toml::Table::new();
    document.insert("profile".to_owned(), toml::Value::String(state.field()));
    let body = toml::to_string_pretty(&document).expect("state should be saved");

    let read: toml::Table = toml::from_str(&body).expect("state should be loaded");
    let loaded = PersistentState::from_field(read["profile"].as_str().unwrap())
        .expect("state should be loaded");
    assert_eq!(
        loaded.profile,
        Profile::Formal,
        "loaded profile should match saved profile"
    );
}

#[test]
fn test_default_profile_is_universal_interpreter() {
    let state = PersistentState::default();
    assert_eq!(
        state.profile,
        Profile::UniversalInterpreter,
        "default profile should be UniversalInterpreter"
    );
}

#[test]
fn test_persistent_state_roundtrip_all_profiles() {
    let profiles = vec![
        Profile::UniversalInterpreter,
        Profile::Formal,
        Profile::Casual,
        Profile::Bullet,
        Profile::Translate("ja".to_owned()),
    ];
    for profile in profiles {
        let state = PersistentState {
            profile: profile.clone(),
        };
        let loaded = PersistentState::from_field(&state.field()).expect("should load");
        assert_eq!(loaded.profile, profile);
    }
}

#[test]
fn state_that_cannot_be_understood_is_the_default() {
    let path = || Ok("/c/state.toml".to_owned());
    let err = PersistentState::from_field("poetic").expect_err("should be refused");
    assert!(err.message().contains("poetic"));
    let state = PersistentState::load(path(), Some(Err(err)));
    assert_eq!(state.profile, Profile::UniversalInterpreter);
    let state = PersistentState::load(path(), None);
    assert_eq!(state.profile, Profile::UniversalInterpreter);
    let state = PersistentState::load(path(), Some(PersistentState::from_field("bullet")));
    assert_eq!(state.profile, Profile::Bullet);
    let state = PersistentState::load(
        Err(ConfigError::MissingHome),
        Some(PersistentState::from_field("bullet")),
    );
    assert_eq!(state.profile, Profile::UniversalInterpreter);
}

#[test]
fn config_paths_follow_the_environment() {
    assert_eq!(
        config_dir(Some("/x"), Some("/home/me")).unwrap(),
        "/x/e-voice"
    );
    assert_eq!(
        config_dir(Some(""), Some("/home/me")).unwrap(),
        "/home/me/.config/e-voice"
    );
    assert_eq!(
        config_file_path(None, Some("/home/me/")).unwrap(),
        "/home/me/.config/e-voice/config.toml"
    );
    assert_eq!(
        state_file_path(None, Some("/home/me")).unwrap(),
        "/home/me/.config/e-voice/state.toml"
    );
    assert!(matches!(
        state_file_path(None, None),
        Err(ConfigError::MissingHome)
    ));
}

#[test]
fn config_errors_in_words() {
    assert_eq!(ConfigError::Io("a".to_owned()).message(), "io error: a");
    assert_eq!(
        ConfigError::Toml("a".to_owned()).message(),
        "toml parse/serialize error: a"
    );
    assert_eq!(
        ConfigError::TomlSerialize("a".to_owned()).message(),
        "toml serialize error: a"
    );
    assert_eq!(ConfigError::MissingHome.message(), "$HOME is not set");
}
