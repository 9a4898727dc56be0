use notes_cli::{
    confirms_defaults, default_config, is_yes, load_or_init_config, recover_config, Bootstrap,
    Config, ConfigFile, Recovery,
};

#[test]
fn missing_file_makes_a_first_run() {
    let next = load_or_init_config("/home/alice", ConfigFile::Missing);
    assert_eq!(
        next,
        Bootstrap::Initialize {
            dir: "/home/alice/.notes_cli".to_string(),
            file: "/home/alice/.notes_cli/config.toml".to_string(),
            config: Config {
                notes_dir: "/home/alice/.notes_cli/notes".to_string(),
                editor: "nano".to_string(),
            },
        }
    );
}

#[test]
fn parsed_record_is_used_as_it_is() {
    let config = Config { notes_dir: "/srv/notes".to_string(), editor: "vim".to_string() };
    let next = load_or_init_config("/home/alice", ConfigFile::Parsed { config: config.clone() });
    assert_eq!(next, Bootstrap::UseExisting { config });
}

#[test]
fn invalid_record_is_reported_and_asked_about() {
    let found = ConfigFile::Invalid { error: "missing field `editor`".to_string() };
    let next = load_or_init_config("/home/alice", found);
    assert_eq!(
        next,
        Bootstrap::Ask {
            report: "Error loading nn config: missing field `editor`".to_string(),
            prompt: "Continue with default config? [y/n]".to_string(),
        }
    );
}

#[test]
fn agreeing_answers_go_on_with_the_defaults() {
    for answer in ["y", "Y", "y\n", "Y\r\n", "  y  ", "\ty\n", "\u{a0}Y\u{2003}"] {
        assert_eq!(
            recover_config("/home/alice", answer),
            Recovery::UseDefaults { config: default_config("/home/alice") },
            "answer {:?}",
            answer
        );
    }
}

#[test]
fn other_answers_abort_with_status_one() {
    for answer in ["n", "N", "", "\n", "yes", "yy", "y y", "no", "ｙ", "j", "y."] {
        assert_eq!(
            recover_config("/home/alice", answer),
            Recovery::Abort { status: 1 },
            "answer {:?}",
            answer
        );
    }
}

#[test]
fn confirming_trims_and_lowers_the_answer() {
    assert!(confirms_defaults(" Y \n"));
    assert!(confirms_defaults("y"));
    assert!(!confirms_defaults("n"));
    assert!(!confirms_defaults(""));
    assert!(!confirms_defaults("yes"));
}

#[test]
fn only_the_bare_letter_is_a_yes() {
    assert!(is_yes("y"));
    assert!(!is_yes("Y"));
    assert!(!is_yes(" y"));
    assert!(!is_yes("y\n"));
    assert!(!is_yes(""));
    assert!(!is_yes("yes"));
}

#[test]
fn recovery_never_depends_on_the_stored_settings() {
    let defaults = default_config("/root");
    assert_eq!(defaults.notes_dir, "/root/.notes_cli/notes");
    assert_eq!(defaults.editor, "nano");
    assert_eq!(recover_config("/root", "y"), Recovery::UseDefaults { config: defaults });
}
