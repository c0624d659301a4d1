use backup_report::config::{check_config, config_template, Config, ConfigError, Startup};

#[test]
fn writes_the_template_where_there_are_no_settings() {
    assert_eq!(check_config(None), Startup::WriteTemplate);
    assert_eq!(check_config(None).exit_code(), Some(0));
}

#[test]
fn stops_with_success_on_an_empty_token() {
    let startup = check_config(Some("\"token\" = \"\"\n"));
    assert_eq!(startup, Startup::Incomplete);
    assert_eq!(startup.exit_code(), Some(exitcode::OK));
    assert_eq!(check_config(Some("token = ''")), Startup::Incomplete);
}

#[test]
fn stops_on_the_template_as_it_was_written() {
    assert_eq!(config_template(), "\"token\" = \"\"\n");
    assert_eq!(check_config(Some(config_template())), Startup::Incomplete);
}

#[test]
fn runs_with_the_token_that_is_set() {
    let startup = check_config(Some("\"token\" = \"SECRET-REDACTED\"\n"));
    assert_eq!(startup, Startup::Run(Config { token: "SECRET-REDACTED".to_string() }));
    assert_eq!(startup.exit_code(), None);
}

#[test]
fn ignores_other_settings() {
    let settings = "name = \"bot\"\ntoken = \"abc\"\n\n[log]\nlevel = \"info\"\n";
    assert_eq!(check_config(Some(settings)), Startup::Run(Config { token: "abc".to_string() }));
}

#[test]
fn writes_the_template_where_the_settings_hold_no_token() {
    for settings in ["", "\n", "# nothing yet\n", "tokens = \"abc\"\n", "[bot]\ntoken = \"abc\"\n"] {
        let startup = check_config(Some(settings));
        assert_eq!(startup, Startup::WriteTemplate, "{settings:?}");
        assert_eq!(startup.exit_code(), Some(exitcode::OK), "{settings:?}");
    }
}

#[test]
fn ends_with_success_whenever_the_token_is_missing() {
    for settings in [None, Some(""), Some("token = \"\""), Some("other = 1")] {
        let startup = check_config(settings);
        assert_eq!(startup.exit_code(), Some(0), "{settings:?}");
        assert!(!matches!(startup, Startup::Run(_) | Startup::Invalid(_)), "{settings:?}");
    }
}

#[test]
fn runs_with_a_token_of_one_space() {
    assert_eq!(
        check_config(Some("token = \" \"")),
        Startup::Run(Config { token: " ".to_string() })
    );
}

#[test]
fn refuses_a_token_that_is_no_text() {
    assert_eq!(check_config(Some("token = 5")), Startup::Invalid(ConfigError::TokenNotText));
    assert_eq!(check_config(Some("token = [\"a\"]")), Startup::Invalid(ConfigError::TokenNotText));
}

#[test]
fn refuses_settings_that_are_no_toml() {
    let startup = check_config(Some("token = "));
    assert_eq!(startup, Startup::Invalid(ConfigError::Syntax));
    assert_eq!(startup.exit_code(), None);
    assert_eq!(check_config(Some("= = =")), Startup::Invalid(ConfigError::Syntax));
}
