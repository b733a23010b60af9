use e_voice::setup::{
    run_setup, SetupAction, SetupError, SetupEvent, SetupStage, HYPRLAND_SNIPPET, WAYBAR_SNIPPET,
};

/// Runs the wizard with these answers to its questions, and everything that it asks
/// for done. Returns its actions, its output and how it ended.
fn wizard(
    home: Option<&str>,
    voxtype: bool,
    ollama: bool,
    config_exists: bool,
) -> (Vec<String>, Vec<String>, Result<(), SetupError>) {
    let mut actions = Vec::new();
    let mut output = Vec::new();
    let mut stage = SetupStage::Start;
    let mut event = SetupEvent::Begin;
    loop {
        let turn = run_setup(stage, None, home, event);
        output.extend(turn.output);
        stage = turn.stage;
        event = match turn.action {
            SetupAction::Finish(result) => return (actions, output, result),
            SetupAction::CheckBinary(name) => {
                actions.push(format!("check_binary:{name}"));
                SetupEvent::Found(if name == "voxtype" { voxtype } else { ollama })
            }
            SetupAction::CheckFile(path) => {
                actions.push(format!("check_file:{path}"));
                SetupEvent::Found(config_exists)
            }
            SetupAction::PatchHook => {
                actions.push("patch_voxtype_post_process_hook".to_owned());
                SetupEvent::Done
            }
            SetupAction::PullModel(model) => {
                actions.push(format!("pull_ollama_model:{model}"));
                SetupEvent::Done
            }
            SetupAction::CreateDir(path) => {
                actions.push(format!("create_dir:{path}"));
                SetupEvent::Done
            }
            SetupAction::WriteDefaultConfig(path) => {
                actions.push(format!("write_default:{path}"));
                SetupEvent::Done
            }
            SetupAction::WriteFile { path, content } => {
                assert!(content == HYPRLAND_SNIPPET || content == WAYBAR_SNIPPET);
                actions.push(format!("write:{path}"));
                SetupEvent::Done
            }
            SetupAction::EnableAutostart => {
                actions.push("enable_autostart".to_owned());
                SetupEvent::Done
            }
            SetupAction::Ignore => panic!("the wizard ignored an event in {stage:?}"),
        };
    }
}

#[test]
fn enable_autostart_called_exactly_once_during_clean_setup() {
    for config_exists in [false, true] {
        let (calls, _, result) = wizard(Some("/home/me"), true, true, config_exists);
        assert!(result.is_ok());
        let count = calls.iter().filter(|c| *c == "enable_autostart").count();
        assert_eq!(count, 1, "enable_autostart should be called exactly once");
    }
}

#[test]
fn clean_setup_does_everything_in_order() {
    let (calls, output, result) = wizard(Some("/h"), true, true, false);
    assert!(result.is_ok());
    assert_eq!(
        calls,
        [
            "check_binary:voxtype",
            "patch_voxtype_post_process_hook",
            "check_binary:ollama",
            "pull_ollama_model:llama3.2:1b",
            "pull_ollama_model:qwen2.5:1.5b",
            "create_dir:/h/.config/e-voice",
            "check_file:/h/.config/e-voice/config.toml",
            "write_default:/h/.config/e-voice/config.toml",
            "create_dir:/h/.config/e-voice",
            "write:/h/.config/e-voice/hyprland-snippet.conf",
            "create_dir:/h/.config/e-voice",
            "write:/h/.config/e-voice/waybar-snippet.json",
            "enable_autostart",
        ]
    );
    assert_eq!(
        output[0],
        "\x1b[33m→\x1b[0m Step 1: checking voxtype installation"
    );
    assert_eq!(output[1], "\x1b[32m✓\x1b[0m Found voxtype");
    assert_eq!(output[output.len() - 1], "\x1b[32m✓\x1b[0m Setup completed");
    assert_eq!(output.len(), 18);
}

#[test]
fn existing_config_is_left_alone() {
    let (calls, output, result) = wizard(Some("/h"), true, true, true);
    assert!(result.is_ok());
    assert!(!calls.iter().any(|c| c.starts_with("write_default")));
    assert!(output.contains(&"\x1b[33m→\x1b[0m e-voice config already exists".to_owned()));
}

#[test]
fn default_config_is_written_once_if_missing() {
    let (calls, _, result) = wizard(Some("/h"), true, true, false);
    assert!(result.is_ok());
    let written: Vec<&String> = calls
        .iter()
        .filter(|c| c.ends_with("config.toml") && c.starts_with("write"))
        .collect();
    assert_eq!(written, ["write_default:/h/.config/e-voice/config.toml"]);
}

#[test]
fn missing_dependencies_stop_setup() {
    let (calls, output, result) = wizard(Some("/h"), false, true, true);
    assert_eq!(
        result.unwrap_err().message(),
        "missing dependency: voxtype"
    );
    assert_eq!(calls, ["check_binary:voxtype"]);
    assert_eq!(output[1], "\x1b[31m✗\x1b[0m voxtype is not installed");
    let (calls, _, result) = wizard(Some("/h"), true, false, true);
    assert_eq!(result.unwrap_err().message(), "missing dependency: ollama");
    assert!(!calls.iter().any(|c| c.starts_with("pull_ollama_model")));
}

#[test]
fn setup_needs_a_home() {
    let (_, _, result) = wizard(None, true, true, true);
    assert_eq!(
        result.unwrap_err().message(),
        "config error: $HOME is not set"
    );
}

#[test]
fn setup_failures_are_classified() {
    let fail = |stage, event| match run_setup(stage, None, Some("/h"), event).action {
        SetupAction::Finish(Err(e)) => e.message(),
        other => panic!("unexpected action: {other:?}"),
    };
    let failed = || SetupEvent::Failed("no".to_owned());
    for stage in [
        SetupStage::Hook,
        SetupStage::FirstModel,
        SetupStage::SecondModel,
        SetupStage::Autostart,
    ] {
        assert_eq!(fail(stage, failed()), "adapter error: no");
    }
    for stage in [
        SetupStage::ConfigDir,
        SetupStage::ConfigWrite,
        SetupStage::HyprlandDir,
        SetupStage::HyprlandFile,
        SetupStage::WaybarDir,
        SetupStage::WaybarFile,
    ] {
        assert_eq!(fail(stage, failed()), "io error: no");
    }
    assert_eq!(
        fail(
            SetupStage::ConfigWrite,
            SetupEvent::TomlFailed("bad".to_owned())
        ),
        "toml error: bad"
    );
}

#[test]
fn nothing_happens_after_the_end() {
    let turn = run_setup(SetupStage::Ended, None, Some("/h"), SetupEvent::Begin);
    assert!(matches!(turn.action, SetupAction::Ignore));
    assert!(turn.output.is_empty());
    assert_eq!(turn.stage, SetupStage::Ended);
}

#[test]
fn snippets_hold_the_documented_bindings() {
    assert!(HYPRLAND_SNIPPET.contains("bind = , F9, exec, voxtype record start\n"));
    assert!(HYPRLAND_SNIPPET.contains("bindr = , F9, exec, voxtype record stop\n"));
    assert!(HYPRLAND_SNIPPET
        .contains("bind = SUPER SHIFT, D, exec, e-voice menu | walker --dmenu\n"));
    let module: serde_json::Value =
        serde_json::from_str(&format!("{{{WAYBAR_SNIPPET}}}")).expect("should be JSON");
    assert_eq!(
        module["custom/e-voice"]["exec"],
        "e-voice status --follow --format json"
    );
}
