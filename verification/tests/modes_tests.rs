use e_voice::modes::{Mode, Profile, MENU_MODES};

#[test]
fn prompt_template_is_non_empty() {
    let prompt = Mode::Clean.prompt_template("sample input");
    assert!(!prompt.trim().is_empty(), "prompt should not be empty");
}

#[test]
fn prompt_ends_with_the_input() {
    let prompt = Mode::Clean.prompt_template("sample {text} input");
    assert!(prompt.starts_with("You are a text post-processor for speech-to-text output.\n\n"));
    assert!(prompt.contains(
        "and preserving the original meaning.\nOutput only the processed text. No explanations, no quotes, no commentary.\n\nInput: \"sample {text} input\"\nOutput:"
    ));
    assert!(prompt.ends_with("Input: \"sample {text} input\"\nOutput:"));
}

#[test]
fn parses_clean_mode() {
    let mode = Mode::from_str("clean").expect("clean should parse");
    assert_eq!(mode, Mode::Clean);
    assert_eq!(Mode::from_str("CLEAN").unwrap().name(), "clean");
}

#[test]
fn rejects_non_clean_modes() {
    let err = Mode::from_str("formal").expect_err("formal should fail");
    assert!(err.contains("unsupported mode"));
}

#[test]
fn every_documented_mode_selects_a_profile() {
    for (mode, profile) in [
        ("clean", Profile::UniversalInterpreter),
        ("formal", Profile::Formal),
        ("casual", Profile::Casual),
        ("bullet", Profile::Bullet),
        ("translate:es", Profile::Translate("es".to_owned())),
    ] {
        let selected = Profile::from_mode(mode).expect("mode should be known");
        assert_eq!(selected, profile);
        assert_eq!(selected.mode_name(), mode);
        assert_eq!(Profile::from_name(&profile.name()).unwrap(), profile);
    }
    assert_eq!(
        Profile::from_mode("Translate:ES").unwrap(),
        Profile::Translate("ES".to_owned())
    );
    assert_eq!(
        Profile::from_mode("poetic").unwrap_err(),
        "unsupported mode: poetic"
    );
    assert_eq!(
        Profile::UniversalInterpreter.name(),
        "universal_interpreter"
    );
}

#[test]
fn profiles_are_instructions_to_the_universal_interpreter() {
    let plain = Profile::UniversalInterpreter.prompt_for("hello");
    assert_eq!(plain, Mode::Clean.prompt_template("hello"));
    let formal = Profile::Formal.prompt_for("hello");
    assert_eq!(
        formal,
        Mode::Clean.prompt_template("hello\nmake it formal:")
    );
    let translated = Profile::Translate("ja".to_owned()).prompt_for("hello");
    assert!(translated.contains("Input: \"hello\ntranslate to ja:\""));
}

#[test]
fn profiles_can_be_stepped_through() {
    let mut profile = Profile::default();
    for mode in MENU_MODES {
        assert_eq!(profile.mode_name(), mode);
        profile = profile.next();
    }
    assert_eq!(profile, Profile::default());
    assert_eq!(
        Profile::Translate("es".to_owned()).next(),
        Profile::default()
    );
}
