use has_nerd_font::types::{Confidence, DetectionResult, DetectionSource, Terminal};

fn sample_result(source: DetectionSource, detected: Option<bool>) -> DetectionResult {
    DetectionResult {
        detected,
        source,
        terminal: Some(Terminal::TerminalApp),
        font: Some("MesloLGS Nerd Font".to_string()),
        config_path: None,
        profile: Some("Default".to_string()),
        error_reason: None,
        confidence: Confidence::Certain,
    }
}

#[test]
fn detection_result_contract_exit_code_maps_from_source_and_detected() {
    let cases = [
        (sample_result(DetectionSource::EnvVar, Some(true)), 0),
        (
            sample_result(DetectionSource::BundledTerminal, Some(true)),
            0,
        ),
        (
            sample_result(DetectionSource::ExplicitDisable, Some(false)),
            1,
        ),
        (sample_result(DetectionSource::UnknownTerminal, None), 2),
        (sample_result(DetectionSource::RemoteSession, None), 3),
        (sample_result(DetectionSource::NoResolver, None), 4),
        (sample_result(DetectionSource::ConfigError, None), 5),
        (
            sample_result(DetectionSource::TerminalConfig, Some(true)),
            0,
        ),
        (
            sample_result(DetectionSource::TerminalConfig, Some(false)),
            6,
        ),
        (sample_result(DetectionSource::TerminalConfig, None), 5),
    ];

    for (result, expected) in cases {
        assert_eq!(result.exit_code(), expected);
    }
}

#[test]
fn detection_result_contract_explain_mentions_key_semantics() {
    let explicit_disable = sample_result(DetectionSource::ExplicitDisable, Some(false));
    let unknown_terminal = sample_result(DetectionSource::UnknownTerminal, None);

    let explicit_text = explicit_disable.explain();
    let unknown_text = unknown_terminal.explain();

    assert!(explicit_text.contains("explicit"));
    assert!(explicit_text.contains("disabled"));
    assert!(unknown_text.contains("unknown"));
    assert!(unknown_text.contains("terminal"));
}

#[test]
fn explain_config_error_includes_the_reason() {
    let mut result = sample_result(DetectionSource::ConfigError, None);
    result.error_reason = Some("missing plist".to_string());
    assert_eq!(
        result.explain(),
        "failed to read terminal configuration: missing plist"
    );

    result.error_reason = None;
    assert_eq!(
        result.explain(),
        "failed to read terminal configuration: unknown reason"
    );
}

#[test]
fn explain_terminal_config_distinguishes_outcomes() {
    assert_eq!(
        sample_result(DetectionSource::TerminalConfig, Some(true)).explain(),
        "terminal configuration indicates a Nerd Font is active"
    );
    assert_eq!(
        sample_result(DetectionSource::TerminalConfig, Some(false)).explain(),
        "terminal configuration does not indicate a Nerd Font"
    );
    assert_eq!(
        sample_result(DetectionSource::TerminalConfig, None).explain(),
        "terminal configuration status is unknown"
    );
}

#[test]
fn bundled_terminals_are_exactly_ghostty_and_wezterm() {
    assert!(Terminal::Ghostty.is_bundled());
    assert!(Terminal::WezTerm.is_bundled());
    assert!(!Terminal::Kitty.is_bundled());
    assert!(!Terminal::Alacritty.is_bundled());
    assert!(!Terminal::ITerm2.is_bundled());
    assert!(!Terminal::TerminalApp.is_bundled());
    assert!(!Terminal::Vscode.is_bundled());
    assert!(!Terminal::Zed.is_bundled());
    assert!(!Terminal::Hyper.is_bundled());
    assert!(!Terminal::Unknown("ghostty".to_string()).is_bundled());
}
