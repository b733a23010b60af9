use e_voice::hook::{patch_voxtype_post_process_hook, POST_PROCESS_BLOCK};
use e_voice::llm_backend::{HttpFailure, Method};
use e_voice::system_adapter::{
    command_ran, command_succeeded, HostStep, LinuxSystemAdapter, SystemCommand,
};
use e_voice::voxtype::{
    extract_toml_value_in_whisper, find_preset, read_voxtype_stt_config, stt_label,
    write_voxtype_stt_config, STT_PRESETS,
};

const LINUX: LinuxSystemAdapter = LinuxSystemAdapter;

fn line(command: &SystemCommand) -> String {
    format!("{} {}", command.program, command.args.join(" "))
}

#[test]
fn fake_patch_hook_writes_when_absent() {
    let patched = LINUX.patch_voxtype_post_process_hook(None);
    assert_eq!(patched.as_deref(), Some(POST_PROCESS_BLOCK));
}

#[test]
fn fake_patch_hook_noop_when_already_present() {
    let existing = "[output.post_process]\ncommand = \"e-voice process\"\ntimeout_ms = 10000\n";
    assert!(
        LINUX
            .patch_voxtype_post_process_hook(Some(existing))
            .is_none(),
        "hook should not be re-written when already present"
    );
}

#[test]
fn linux_patch_hook_noop_when_present() {
    let existing = "[output.post_process]\ncommand = \"e-voice process\"\ntimeout_ms = 10000\n";
    assert!(
        patch_voxtype_post_process_hook(existing).is_none(),
        "hook must be unchanged"
    );
}

#[test]
fn linux_patch_hook_appends_when_absent() {
    let content = patch_voxtype_post_process_hook("[whisper]\nmodel = \"base.en\"\n")
        .expect("hook should be appended");
    assert!(content.contains("[output.post_process]"), "hook should be appended");
    assert!(content.contains("e-voice process"), "hook command should be present");
    assert!(content.starts_with("[whisper]\nmodel = \"base.en\"\n["));
    assert!(patch_voxtype_post_process_hook(&content).is_none());
}

#[test]
fn hook_starts_on_a_line_of_its_own() {
    let content = patch_voxtype_post_process_hook("# no end of line").unwrap();
    assert_eq!(content, format!("# no end of line\n{POST_PROCESS_BLOCK}"));
}

#[test]
fn linux_write_creates_whisper_section() {
    let content = write_voxtype_stt_config("# empty config\n", "base", "es");
    assert!(content.contains("[whisper]"), "whisper section should exist");
    assert!(content.contains("model = \"base\""), "model should be set");
    assert!(content.contains("language = \"es\""), "language should be set");
    assert_eq!(
        content,
        "# empty config\n\n[whisper]\nmodel = \"base\"\nlanguage = \"es\"\n"
    );
}

#[test]
fn linux_write_updates_existing_whisper_section() {
    let content = write_voxtype_stt_config(
        "[whisper]\nmodel = \"base.en\"\nlanguage = \"en\"\n",
        "large",
        "de",
    );
    assert!(content.contains("model = \"large\""), "model should be updated");
    assert!(content.contains("language = \"de\""), "language should be updated");
    assert!(!content.contains("base.en"), "old model value should be gone");
}

#[test]
fn write_leaves_other_sections_alone() {
    let before = "[audio]\nmodel = \"mic\"\n[whisper]\nthreads = 4\n[output]\nlanguage = \"x\"";
    let after = write_voxtype_stt_config(before, "base", "fr");
    assert_eq!(
        after,
        "[audio]\nmodel = \"mic\"\n[whisper]\nthreads = 4\nmodel = \"base\"\nlanguage = \"fr\"\n[output]\nlanguage = \"x\"\n"
    );
    assert_eq!(write_voxtype_stt_config(&after, "base", "fr"), after);
    let (label, model, language) = read_voxtype_stt_config(Some(&after));
    assert_eq!(label, "French");
    assert_eq!(model, "base");
    assert_eq!(language, "fr");
}

#[test]
fn last_write_counts() {
    for before in [
        "",
        "a = 1\n",
        "[whisper]\n[b]\n[whisper]\nmodel = \"x\"\n",
        "[whisper]\nlanguage = \"x\"\n[c]",
    ] {
        let once = write_voxtype_stt_config(before, "base", "es");
        assert_eq!(
            write_voxtype_stt_config(&once, "large", "de"),
            write_voxtype_stt_config(before, "large", "de")
        );
    }
}

#[test]
fn only_the_whisper_section_is_read() {
    let plain = read_voxtype_stt_config(Some("[whisper]\nmodel = \"m\"\n"));
    let other = "model = \"a\"\n[x]\nlanguage = \"y\"\n[whisper]\nmodel = \"m\"\n[z]\n";
    assert_eq!(read_voxtype_stt_config(Some(other)), plain);
}

#[test]
fn write_to_nothing_makes_the_section() {
    assert_eq!(
        LINUX.write_voxtype_stt_config(None, "base", "it"),
        "[whisper]\nmodel = \"base\"\nlanguage = \"it\"\n"
    );
}

#[test]
fn read_has_defaults() {
    let unknown = LINUX.read_voxtype_stt_config(None);
    assert_eq!(unknown.0, "Unknown");
    assert_eq!(unknown.1, "base.en");
    assert_eq!(unknown.2, "en");
    let empty = LINUX.read_voxtype_stt_config(Some(""));
    assert_eq!(empty.0, "English");
    let other = LINUX
        .read_voxtype_stt_config(Some("[whisper]\n model = \"tiny\"\r\nlanguage = \"nl\" # c\n"));
    assert_eq!(other.0, "nl");
    assert_eq!(other.1, "tiny");
    assert_eq!(other.2, "nl");
}

#[test]
fn values_are_read_from_the_whisper_section_only() {
    let content = "model = \"a\"\n[other]\nmodel = \"b\"\n[whisper]\nmodel = \"c\"\nmodel = \"d\"\n";
    assert_eq!(
        extract_toml_value_in_whisper(content, "model").as_deref(),
        Some("c")
    );
    assert!(extract_toml_value_in_whisper(content, "language").is_none());
    assert!(extract_toml_value_in_whisper("[whisper]\nmodel = \"open\n", "model").is_none());
}

#[test]
fn presets_have_labels() {
    for (i, (label, model, language)) in STT_PRESETS.iter().enumerate() {
        assert_eq!(find_preset(model, language), Some(i));
        assert_eq!(stt_label(model, language), *label);
    }
    assert_eq!(find_preset("base", "en"), None);
    assert_eq!(stt_label("base", "en"), "en");
}

#[test]
fn linux_commands() {
    assert_eq!(
        line(&LINUX.restart_stt_service()),
        "systemctl --user restart voxtype.service"
    );
    assert_eq!(
        line(&LINUX.is_stt_service_running()),
        "systemctl --user is-active --quiet voxtype.service"
    );
    assert_eq!(
        line(&LINUX.reload_service_manager()),
        "systemctl --user daemon-reload"
    );
    assert_eq!(line(&LINUX.open_file("/a b")), "xdg-open /a b");
    assert_eq!(LINUX.open_file("/a b").args, ["/a b"]);
    assert_eq!(line(&LINUX.is_binary_available("sh")), "which sh");
    assert_eq!(line(&LINUX.pull_ollama_model("m")), "ollama pull m");
}

#[test]
fn command_outcomes() {
    assert!(command_succeeded(&Ok(true)));
    assert!(!command_succeeded(&Ok(false)));
    assert!(!command_succeeded(&Err("no".to_owned())));
    assert!(command_ran(Ok(false)).is_ok());
    assert_eq!(command_ran(Err("no".to_owned())).unwrap_err(), "no");
    assert!(LINUX.pull_result("m", Ok(true)).is_ok());
    assert_eq!(
        LINUX.pull_result("m", Ok(false)).unwrap_err(),
        "ollama pull m failed"
    );
    assert_eq!(
        LINUX.pull_result("m", Err("no".to_owned())).unwrap_err(),
        "no"
    );
}

#[test]
fn autostart_installs_and_enables_the_service() {
    let steps = LINUX.enable_autostart("[Unit]\n", Ok("/h")).unwrap();
    assert_eq!(steps.len(), 4);
    assert!(matches!(&steps[0], HostStep::CreateDir(p) if p == "/h/.config/systemd/user"));
    assert!(matches!(
        &steps[1],
        HostStep::WriteFile { path, content }
            if path == "/h/.config/systemd/user/e-voice.service" && content == "[Unit]\n"
    ));
    assert!(
        matches!(&steps[2], HostStep::Run(c) if line(c) == "systemctl --user daemon-reload")
    );
    assert!(
        matches!(&steps[3], HostStep::Run(c) if line(c) == "systemctl --user enable --now e-voice")
    );
    let no_home = Err("environment variable not found".to_owned());
    assert_eq!(
        LINUX.enable_autostart("", no_home).unwrap_err(),
        "environment variable not found"
    );
}

#[test]
fn health_is_asked_for_over_http() {
    let request = LINUX.check_ollama_health("http://h:1//");
    assert_eq!(request.method, Method::Get);
    assert_eq!(request.url, "http://h:1/api/tags");
    assert!(LINUX.ollama_healthy(&Ok(204)));
    assert!(!LINUX.ollama_healthy(&Ok(404)));
    assert!(!LINUX.ollama_healthy(&Err(HttpFailure {
        timeout: false,
        status: false,
        message: String::new(),
    })));
}

#[test]
fn notifications_carry_the_icon() {
    let notification = LINUX.send_notification("a", "b");
    assert_eq!(notification.summary, "a");
    assert_eq!(notification.body, "b");
    assert_eq!(notification.icon, "e-voice");
    assert_eq!(notification.timeout_ms, 3000);
}

#[test]
fn voxtype_config_is_below_home() {
    assert_eq!(
        LINUX.voxtype_config_path(Some("/h")),
        "/h/.config/voxtype/config.toml"
    );
    assert_eq!(
        LINUX.voxtype_config_path(None),
        "/tmp/.config/voxtype/config.toml"
    );
}
