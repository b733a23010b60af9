use e_voice::daemon::{DaemonError, Request, Response};
use e_voice::llm_backend::HttpFailure;
use e_voice::modes::Profile;
use e_voice::transport::DaemonTransportError;
use e_voice::tray::{
    apply_stt_language_cmd, build_icon, check_health, fetch_ollama_models, run, Choice,
    HealthInfo, MenuCommand, MenuEntry, SttAction, SttEvent, TrayAction, TrayCmd, TrayError,
    TrayEvent, TrayState,
};

const WELL: HealthInfo = HealthInfo {
    ollama_reachable: true,
    voxtype_running: true,
};

fn state() -> TrayState {
    let stt = ("Spanish".to_owned(), "base".to_owned(), "es".to_owned());
    let models = Ok(vec!["a".to_owned(), "b".to_owned()]);
    TrayState::start("b", stt, WELL, models, Profile::Casual)
}

fn step(state: &mut TrayState, event: TrayEvent) -> Vec<TrayAction> {
    run(state, event, None, Some("/h"))
}

fn notification(actions: &[TrayAction]) -> String {
    match actions {
        [TrayAction::Notify { summary, body }] => format!("{summary}: {body}"),
        other => panic!("unexpected actions: {other:?}"),
    }
}

#[test]
fn health_tick_reflects_ollama_unreachable() {
    let refused = Err(HttpFailure {
        timeout: false,
        status: false,
        message: "refused".to_owned(),
    });
    let health = check_health(&refused, &Ok(true));
    assert!(!health.ollama_reachable, "ollama should be unreachable");
    assert!(health.voxtype_running, "voxtype should be running");
}

#[test]
fn health_tick_reflects_ollama_recovered() {
    let health = check_health(&Ok(200), &Ok(true));
    assert!(health.ollama_reachable, "ollama should be reachable");
    assert!(!check_health(&Ok(200), &Err("no systemctl".to_owned())).voxtype_running);
}

#[test]
fn set_stt_language_calls_write_then_restart() {
    let next = |event| apply_stt_language_cmd("base", "es", event);
    assert!(matches!(
        next(SttEvent::Start),
        SttAction::WriteConfig { model, language } if model == "base" && language == "es"
    ));
    assert!(matches!(
        next(SttEvent::Written(Ok(()))),
        SttAction::RestartService
    ));
    for restarted in [Ok(()), Err("no".to_owned())] {
        match next(SttEvent::Restarted(restarted)) {
            SttAction::Finish(Some((label, model, language))) => {
                assert_eq!(label, "Spanish");
                assert_eq!(model, "base");
                assert_eq!(language, "es");
            }
            other => panic!("unexpected action: {other:?}"),
        }
    }
}

#[test]
fn set_stt_language_no_restart_when_write_fails() {
    let failed = SttEvent::Written(Err("write failed (fake)".to_owned()));
    match apply_stt_language_cmd("base", "es", failed) {
        SttAction::Finish(result) => {
            assert!(result.is_none(), "should return None on write failure");
            let mut tray = state();
            assert!(step(&mut tray, TrayEvent::SttApplied(result)).is_empty());
            assert_eq!(tray.stt_label, "Spanish");
        }
        other => panic!("unexpected action: {other:?}"),
    }
}

#[test]
fn language_change_is_shown_and_announced() {
    let mut tray = state();
    let done = ("German".to_owned(), "base".to_owned(), "de".to_owned());
    let actions = step(&mut tray, TrayEvent::SttApplied(Some(done)));
    assert_eq!(
        notification(&actions),
        "STT Language: Switched to German (base)"
    );
    assert_eq!(tray.title(), "e-voice: German");
    assert_eq!(tray.stt_language, "de");
}

#[test]
fn model_change_is_shown_if_the_daemon_took_it() {
    let mut tray = state();
    let set = |answer| TrayEvent::ModelSet {
        model: "a".to_owned(),
        answer,
    };
    let refused = Err(DaemonTransportError::Io("no".to_owned()));
    assert!(step(&mut tray, set(refused)).is_empty());
    assert!(step(&mut tray, set(Ok(Response::Error("no".to_owned())))).is_empty());
    assert_eq!(tray.ollama_model, "b");
    let changed = Response::ModelChanged {
        model: "a".to_owned(),
    };
    let actions = step(&mut tray, set(Ok(changed)));
    assert_eq!(notification(&actions), "Ollama Model: Switched to a");
    assert_eq!(tray.ollama_model, "a");
}

#[test]
fn mode_change_is_shown_if_the_daemon_took_it() {
    let mut tray = state();
    let answer = Ok(Response::ModeChanged {
        mode: "bullet".to_owned(),
    });
    let actions = step(&mut tray, TrayEvent::ModeSet { answer });
    assert_eq!(notification(&actions), "Mode: Switched to bullet");
    assert_eq!(tray.profile, Profile::Bullet);
    let answer = Err(DaemonTransportError::Io("no".to_owned()));
    assert!(step(&mut tray, TrayEvent::ModeSet { answer }).is_empty());
    assert_eq!(tray.profile, Profile::Bullet);
}

#[test]
fn commands_become_actions() {
    let mut tray = state();
    let actions = step(&mut tray, TrayEvent::Command(Some(tray_cmd_for_test())));
    assert!(matches!(
        &actions[..],
        [TrayAction::ApplyStt { model, language }] if model == "base" && language == "fr"
    ));
    let set_model = TrayCmd::SetOllamaModel("a".to_owned());
    let actions = step(&mut tray, TrayEvent::Command(Some(set_model)));
    assert!(matches!(
        &actions[..],
        [TrayAction::Send(Request::SetModel { model })] if model == "a"
    ));
    let set_mode = TrayCmd::SetMode("formal".to_owned());
    let actions = step(&mut tray, TrayEvent::Command(Some(set_mode)));
    assert!(matches!(
        &actions[..],
        [TrayAction::Send(Request::SetMode { mode })] if mode == "formal"
    ));
    let open = || TrayEvent::Command(Some(TrayCmd::OpenConfig));
    let actions = step(&mut tray, open());
    assert!(matches!(
        &actions[..],
        [TrayAction::OpenFile(p)] if p == "/h/.config/e-voice/config.toml"
    ));
    assert!(run(&mut tray, open(), None, None).is_empty());
    let actions = step(&mut tray, TrayEvent::Command(Some(TrayCmd::Shutdown)));
    assert!(matches!(
        &actions[..],
        [TrayAction::SignalShutdown, TrayAction::CloseTray, TrayAction::Stop]
    ));
    let actions = step(&mut tray, TrayEvent::Command(None));
    assert!(matches!(&actions[..], [TrayAction::Stop]));
    let actions = step(&mut tray, TrayEvent::ShutdownChanged);
    assert!(matches!(
        &actions[..],
        [TrayAction::CloseTray, TrayAction::Stop]
    ));
}

fn tray_cmd_for_test() -> TrayCmd {
    TrayCmd::SetSttLanguage {
        model: "base".to_owned(),
        language: "fr".to_owned(),
    }
}

#[test]
fn health_tick_keeps_models_if_none_come() {
    let mut tray = state();
    let ill = HealthInfo {
        ollama_reachable: false,
        voxtype_running: true,
    };
    let tick = |models| TrayEvent::HealthTick {
        health: ill,
        models,
    };
    assert!(step(&mut tray, tick(Ok(Vec::new()))).is_empty());
    assert!(step(&mut tray, tick(Err(TrayError::Http("no".to_owned())))).is_empty());
    assert_eq!(tray.ollama_models, ["a", "b"]);
    assert_eq!(tray.health, ill);
    step(&mut tray, tick(Ok(vec!["c".to_owned()])));
    assert_eq!(tray.ollama_models, ["c"]);
}

#[test]
fn icon_shows_the_health() {
    let mut tray = state();
    let colour = |tray: &TrayState| {
        let icon = tray.icon_pixmap();
        assert_eq!(icon.width, 24);
        assert_eq!(icon.height, 24);
        assert_eq!(icon.data.len(), 24 * 24 * 4);
        [icon.data[2300], icon.data[2301], icon.data[2302], icon.data[2303]]
    };
    assert_eq!(colour(&tray), [0x4c, 0xaf, 0x50, 0xff]);
    tray.health.ollama_reachable = false;
    assert_eq!(colour(&tray), [0xff, 0x98, 0x00, 0xff]);
    tray.health.voxtype_running = false;
    assert_eq!(colour(&tray), [0xff, 0x98, 0x00, 0xff]);
    tray.health.ollama_reachable = true;
    assert_eq!(colour(&tray), [0xf4, 0x43, 0x36, 0xff]);
    assert_eq!(build_icon([1, 2, 3, 4]).data[..5], [1, 2, 3, 4, 1]);
}

#[test]
fn tool_tip_shows_everything() {
    let tip = state().tool_tip();
    assert_eq!(tip.title, "e-voice");
    assert_eq!(
        tip.description,
        "STT: Spanish (base)\nLLM: b\nOllama: connected\nVoxtype: running"
    );
    let mut tray = state();
    tray.health = check_health(&Ok(500), &Ok(false));
    assert!(tray
        .tool_tip()
        .description
        .ends_with("\nOllama: unreachable\nVoxtype: stopped"));
    assert_eq!(tray.id(), "e-voice");
}

#[test]
fn menu_marks_what_is_in_use() {
    let menu = state().menu();
    let selects: Vec<(String, Vec<String>, usize)> = menu
        .iter()
        .filter_map(|entry| match entry {
            MenuEntry::Select {
                label,
                options,
                selected,
                ..
            } => Some((label.clone(), options.clone(), *selected)),
            _ => None,
        })
        .collect();
    assert_eq!(selects.len(), 3);
    assert_eq!(selects[0].0, "Mode");
    assert_eq!(selects[0].1[selects[0].2], "casual");
    assert_eq!(selects[1].0, "STT Language");
    assert_eq!(selects[1].1[selects[1].2], "Spanish");
    assert_eq!(selects[2].0, "Ollama Model");
    assert_eq!(selects[2].1[selects[2].2], "b");
    assert!(matches!(menu[3], MenuEntry::Separator));
    assert!(matches!(
        &menu[4],
        MenuEntry::Command { label, command: MenuCommand::OpenConfig } if label == "Open Config"
    ));
    assert!(matches!(
        &menu[5],
        MenuEntry::Command { label, command: MenuCommand::Quit } if label == "Quit"
    ));
}

#[test]
fn menu_without_models_says_so() {
    let stt = ("x".to_owned(), "y".to_owned(), "z".to_owned());
    let failed = Err(TrayError::Http("no".to_owned()));
    let tray = TrayState::start("m", stt, WELL, failed, Profile::default());
    let menu = tray.menu();
    assert!(matches!(
        &menu[2],
        MenuEntry::Nothing { label, note }
            if label == "Ollama Model" && note == "(no models found)"
    ));
    assert!(matches!(&menu[1], MenuEntry::Select { selected: 0, .. }));
    assert!(tray.select(Choice::OllamaModel, 0).is_none());
}

#[test]
fn selections_become_commands() {
    let tray = state();
    assert!(matches!(
        tray.select(Choice::SttLanguage, 2),
        Some(TrayCmd::SetSttLanguage { model, language }) if model == "base" && language == "fr"
    ));
    assert!(tray.select(Choice::SttLanguage, 6).is_none());
    assert!(matches!(
        tray.select(Choice::OllamaModel, 0),
        Some(TrayCmd::SetOllamaModel(m)) if m == "a"
    ));
    assert!(tray.select(Choice::OllamaModel, 2).is_none());
    assert!(matches!(
        tray.select(Choice::Mode, 3),
        Some(TrayCmd::SetMode(m)) if m == "bullet"
    ));
    assert!(tray.select(Choice::Mode, 4).is_none());
    assert!(matches!(tray.activate(), TrayCmd::SetMode(m) if m == "bullet"));
    assert!(matches!(MenuCommand::Quit.cmd(), TrayCmd::Shutdown));
    assert!(matches!(MenuCommand::OpenConfig.cmd(), TrayCmd::OpenConfig));
}

#[test]
fn models_are_fetched_from_the_server() {
    assert_eq!(fetch_ollama_models("http://h/").url, "http://h/api/tags");
}

#[test]
fn tray_errors_in_words() {
    let e = || "e".to_owned();
    assert_eq!(TrayError::Config(e()).message(), "config error: e");
    assert_eq!(TrayError::Daemon(e()).message(), "daemon error: e");
    assert_eq!(TrayError::TraySpawn(e()).message(), "tray spawn error: e");
    assert_eq!(TrayError::Adapter(e()).message(), "adapter error: e");
    assert_eq!(TrayError::Io(e()).message(), "io error: e");
    assert_eq!(TrayError::Json(e()).message(), "json error: e");
    assert_eq!(
        TrayError::Socket(DaemonError::Io(e())).message(),
        "daemon socket error: io error: e"
    );
    assert_eq!(TrayError::Http(e()).message(), "http error: e");
    assert_eq!(
        TrayError::Transport(DaemonTransportError::Json(e())).message(),
        "transport error: json error: e"
    );
}
