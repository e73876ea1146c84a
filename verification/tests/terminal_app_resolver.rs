use has_nerd_font::fsdata::{FileData, FsSnapshot};
use has_nerd_font::types::{DetectionSource, Terminal};
use has_nerd_font::detect;
use plist::{Dictionary, Value};

fn vars(entries: &[(&str, &str)]) -> Vec<(String, String)> {
    entries
        .iter()
        .map(|(k, v)| ((*k).to_string(), (*v).to_string()))
        .collect()
}

fn terminal_plist_path(home: &str) -> String {
    format!("{home}/Library/Preferences/com.apple.Terminal.plist")
}

fn terminal_plist_bytes(profile: &str, font: Value) -> Vec<u8> {
    let mut profile_settings = Dictionary::new();
    profile_settings.insert("Font".to_string(), font);

    let mut window_settings = Dictionary::new();
    window_settings.insert(profile.to_string(), Value::Dictionary(profile_settings));

    let mut root = Dictionary::new();
    root.insert(
        "Default Window Settings".to_string(),
        Value::String(profile.to_string()),
    );
    root.insert(
        "Window Settings".to_string(),
        Value::Dictionary(window_settings),
    );

    let mut out = Vec::new();
    Value::Dictionary(root)
        .to_writer_xml(&mut out)
        .expect("failed to serialize terminal plist");
    out
}

fn snapshot_with(path: String, data: Vec<u8>) -> FsSnapshot {
    FsSnapshot {
        files: vec![(path, FileData::Bytes(data))],
    }
}

#[test]
fn terminal_app_resolver_missing_home_returns_config_error() {
    let env = vars(&[("TERM_PROGRAM", "Apple_Terminal")]);

    let result = detect(&env, ".", &FsSnapshot::new());

    assert_eq!(result.source, DetectionSource::ConfigError);
    assert_eq!(result.detected, None);
    assert_eq!(result.exit_code(), 5);
    assert_eq!(result.terminal, Some(Terminal::TerminalApp));
}

#[test]
fn terminal_app_snapshot_with_nerd_font_detects_true() {
    let home = "/home/user";
    let path = terminal_plist_path(home);
    let fs = snapshot_with(
        path.clone(),
        terminal_plist_bytes("Basic", Value::String("JetBrainsMono Nerd Font".to_string())),
    );
    let env = vars(&[("TERM_PROGRAM", "Apple_Terminal"), ("HOME", home)]);

    let result = detect(&env, ".", &fs);

    assert_eq!(result.source, DetectionSource::TerminalConfig);
    assert_eq!(result.detected, Some(true));
    assert_eq!(result.exit_code(), 0);
    assert_eq!(result.terminal, Some(Terminal::TerminalApp));
    assert_eq!(result.profile.as_deref(), Some("Basic"));
    assert_eq!(result.font.as_deref(), Some("JetBrainsMono Nerd Font"));
    assert_eq!(result.config_path.as_deref(), Some(path.as_str()));
}

#[test]
fn terminal_app_snapshot_with_non_nerd_font_detects_false() {
    let home = "/home/user";
    let path = terminal_plist_path(home);
    let fs = snapshot_with(
        path.clone(),
        terminal_plist_bytes("Basic", Value::String("Menlo".to_string())),
    );
    let env = vars(&[("TERM_PROGRAM", "Apple_Terminal"), ("HOME", home)]);

    let result = detect(&env, ".", &fs);

    assert_eq!(result.source, DetectionSource::TerminalConfig);
    assert_eq!(result.detected, Some(false));
    assert_eq!(result.exit_code(), 6);
    assert_eq!(result.profile.as_deref(), Some("Basic"));
    assert_eq!(result.font.as_deref(), Some("Menlo"));
}

#[test]
fn terminal_app_snapshot_font_name_in_descriptor_dictionary() {
    let home = "/home/user";
    let path = terminal_plist_path(home);
    let mut descriptor = Dictionary::new();
    descriptor.insert(
        "FontName".to_string(),
        Value::String("HackNF-BoldItalic".to_string()),
    );
    let fs = snapshot_with(
        path.clone(),
        terminal_plist_bytes("Basic", Value::Dictionary(descriptor)),
    );
    let env = vars(&[("TERM_PROGRAM", "Apple_Terminal"), ("HOME", home)]);

    let result = detect(&env, ".", &fs);

    assert_eq!(result.source, DetectionSource::TerminalConfig);
    assert_eq!(result.detected, Some(true));
    assert_eq!(result.font.as_deref(), Some("HackNF-BoldItalic"));
}

#[test]
fn terminal_app_snapshot_font_in_keyed_archive_blob() {
    let home = "/home/user";
    let path = terminal_plist_path(home);

    // Inner keyed archive: $top.root -> object 1, whose NSName -> object 2.
    let mut root_obj = Dictionary::new();
    root_obj.insert("NSName".to_string(), Value::Uid(plist::Uid::new(2)));
    let objects = vec![
        Value::String("$null".to_string()),
        Value::Dictionary(root_obj),
        Value::String("MonaspiceNe NF".to_string()),
    ];
    let mut top = Dictionary::new();
    top.insert("root".to_string(), Value::Uid(plist::Uid::new(1)));
    let mut archive = Dictionary::new();
    archive.insert("$objects".to_string(), Value::Array(objects));
    archive.insert("$top".to_string(), Value::Dictionary(top));
    let mut archive_bytes = Vec::new();
    Value::Dictionary(archive)
        .to_writer_binary(&mut archive_bytes)
        .expect("failed to serialize keyed archive");

    let fs = snapshot_with(
        path.clone(),
        terminal_plist_bytes("Basic", Value::Data(archive_bytes)),
    );
    let env = vars(&[("TERM_PROGRAM", "Apple_Terminal"), ("HOME", home)]);

    let result = detect(&env, ".", &fs);

    assert_eq!(result.source, DetectionSource::TerminalConfig);
    assert_eq!(result.detected, Some(true));
    assert_eq!(result.font.as_deref(), Some("MonaspiceNe NF"));
}

#[test]
fn terminal_app_snapshot_missing_plist_returns_config_error() {
    let home = "/home/user";
    let env = vars(&[("TERM_PROGRAM", "Apple_Terminal"), ("HOME", home)]);

    let result = detect(&env, ".", &FsSnapshot::new());

    assert_eq!(result.source, DetectionSource::ConfigError);
    assert_eq!(result.detected, None);
    assert_eq!(result.exit_code(), 5);
    assert_eq!(
        result.config_path.as_deref(),
        Some(terminal_plist_path(home).as_str())
    );
}

#[test]
fn terminal_app_snapshot_malformed_plist_returns_config_error() {
    let home = "/home/user";
    let path = terminal_plist_path(home);
    let fs = snapshot_with(path.clone(), b"not a plist".to_vec());
    let env = vars(&[("TERM_PROGRAM", "Apple_Terminal"), ("HOME", home)]);

    let result = detect(&env, ".", &fs);

    assert_eq!(result.source, DetectionSource::ConfigError);
    assert_eq!(result.detected, None);
    assert_eq!(result.exit_code(), 5);
    assert_eq!(result.config_path.as_deref(), Some(path.as_str()));
}

#[test]
fn terminal_app_snapshot_missing_profile_settings_names_the_profile() {
    let home = "/home/user";
    let path = terminal_plist_path(home);

    let mut root = Dictionary::new();
    root.insert(
        "Default Window Settings".to_string(),
        Value::String("Ghost".to_string()),
    );
    root.insert(
        "Window Settings".to_string(),
        Value::Dictionary(Dictionary::new()),
    );
    let mut bytes = Vec::new();
    Value::Dictionary(root)
        .to_writer_xml(&mut bytes)
        .expect("failed to serialize terminal plist");

    let fs = snapshot_with(path, bytes);
    let env = vars(&[("TERM_PROGRAM", "Apple_Terminal"), ("HOME", home)]);

    let result = detect(&env, ".", &fs);

    assert_eq!(result.source, DetectionSource::ConfigError);
    assert_eq!(
        result.error_reason.as_deref(),
        Some("missing profile settings for Ghost")
    );
    assert_eq!(result.profile.as_deref(), Some("Ghost"));
}

#[test]
fn terminal_app_snapshot_root_must_be_a_dictionary() {
    let home = "/home/user";
    let path = terminal_plist_path(home);
    let mut bytes = Vec::new();
    Value::Array(vec![Value::String("not a dict".to_string())])
        .to_writer_xml(&mut bytes)
        .expect("failed to serialize plist");
    let fs = snapshot_with(path, bytes);
    let env = vars(&[("TERM_PROGRAM", "Apple_Terminal"), ("HOME", home)]);

    let result = detect(&env, ".", &fs);

    assert_eq!(result.source, DetectionSource::ConfigError);
    assert_eq!(
        result.error_reason.as_deref(),
        Some("terminal plist root is not a dictionary")
    );
}

#[test]
fn terminal_app_snapshot_missing_default_window_settings() {
    let home = "/home/user";
    let path = terminal_plist_path(home);
    let mut root = Dictionary::new();
    root.insert(
        "Window Settings".to_string(),
        Value::Dictionary(Dictionary::new()),
    );
    let mut bytes = Vec::new();
    Value::Dictionary(root)
        .to_writer_xml(&mut bytes)
        .expect("failed to serialize plist");
    let fs = snapshot_with(path, bytes);
    let env = vars(&[("TERM_PROGRAM", "Apple_Terminal"), ("HOME", home)]);

    let result = detect(&env, ".", &fs);

    assert_eq!(result.source, DetectionSource::ConfigError);
    assert_eq!(
        result.error_reason.as_deref(),
        Some("missing Default Window Settings")
    );
}

#[test]
fn terminal_app_snapshot_missing_font_descriptor_names_the_profile() {
    let home = "/home/user";
    let path = terminal_plist_path(home);
    let mut profile_settings = Dictionary::new();
    profile_settings.insert("Columns".to_string(), Value::String("80".to_string()));
    let mut window_settings = Dictionary::new();
    window_settings.insert("Basic".to_string(), Value::Dictionary(profile_settings));
    let mut root = Dictionary::new();
    root.insert(
        "Default Window Settings".to_string(),
        Value::String("Basic".to_string()),
    );
    root.insert(
        "Window Settings".to_string(),
        Value::Dictionary(window_settings),
    );
    let mut bytes = Vec::new();
    Value::Dictionary(root)
        .to_writer_xml(&mut bytes)
        .expect("failed to serialize plist");
    let fs = snapshot_with(path, bytes);
    let env = vars(&[("TERM_PROGRAM", "Apple_Terminal"), ("HOME", home)]);

    let result = detect(&env, ".", &fs);

    assert_eq!(result.source, DetectionSource::ConfigError);
    assert_eq!(
        result.error_reason.as_deref(),
        Some("missing font descriptor for profile Basic")
    );
    assert_eq!(result.profile.as_deref(), Some("Basic"));
}

#[test]
fn terminal_app_snapshot_empty_font_descriptor_is_rejected() {
    let home = "/home/user";
    let path = terminal_plist_path(home);
    let fs = snapshot_with(
        path,
        terminal_plist_bytes("Basic", Value::String(String::new())),
    );
    let env = vars(&[("TERM_PROGRAM", "Apple_Terminal"), ("HOME", home)]);

    let result = detect(&env, ".", &fs);

    assert_eq!(result.source, DetectionSource::ConfigError);
    assert_eq!(
        result.error_reason.as_deref(),
        Some("empty font descriptor for profile Basic")
    );
}
