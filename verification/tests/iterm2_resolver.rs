use has_nerd_font::fsdata::{FileData, FsSnapshot};
use has_nerd_font::types::{DetectionSource, Terminal};
use has_nerd_font::detect;
use plist::{Dictionary, Value};

fn vars(entries: &[(&str, &str)]) -> Vec<(String, String)> {
    entries
        .iter()
        .map(|(k, v)| ((*k).to_string(), (*v).to_string()))
        .collect()
}

fn iterm2_plist_path(home: &str) -> String {
    format!("{home}/Library/Preferences/com.googlecode.iterm2.plist")
}

fn bookmark(name: &str, guid: &str, font: Option<&str>) -> Value {
    let mut b = Dictionary::new();
    b.insert("Name".to_string(), Value::String(name.to_string()));
    b.insert("Guid".to_string(), Value::String(guid.to_string()));
    if let Some(f) = font {
        b.insert("Normal Font".to_string(), Value::String(f.to_string()));
    }
    Value::Dictionary(b)
}

fn iterm2_plist_bytes(default_guid: Option<&str>, bookmarks: Vec<Value>) -> Vec<u8> {
    let mut root = Dictionary::new();
    if let Some(g) = default_guid {
        root.insert(
            "Default Bookmark Guid".to_string(),
            Value::String(g.to_string()),
        );
    }
    root.insert("New Bookmarks".to_string(), Value::Array(bookmarks));
    let mut out = Vec::new();
    Value::Dictionary(root)
        .to_writer_xml(&mut out)
        .expect("failed to serialize iterm2 plist");
    out
}

fn snapshot_with(path: String, data: Vec<u8>) -> FsSnapshot {
    FsSnapshot {
        files: vec![(path, FileData::Bytes(data))],
    }
}

#[test]
fn iterm2_default_bookmark_guid_selects_the_profile() {
    let home = "/home/user";
    let path = iterm2_plist_path(home);
    let fs = snapshot_with(
        path.clone(),
        iterm2_plist_bytes(
            Some("g-2"),
            vec![
                bookmark("Plain", "g-1", Some("Menlo 12")),
                bookmark("Nerdy", "g-2", Some("JetBrainsMonoNFM-Regular 12")),
            ],
        ),
    );
    let env = vars(&[("TERM_PROGRAM", "iTerm.app"), ("HOME", home)]);

    let result = detect(&env, ".", &fs);

    assert_eq!(result.source, DetectionSource::TerminalConfig);
    assert_eq!(result.detected, Some(true));
    assert_eq!(result.terminal, Some(Terminal::ITerm2));
    assert_eq!(result.profile.as_deref(), Some("Nerdy"));
    assert_eq!(result.font.as_deref(), Some("JetBrainsMonoNFM-Regular 12"));
    assert_eq!(result.config_path.as_deref(), Some(path.as_str()));
}

#[test]
fn iterm2_active_profile_variable_overrides_default_guid() {
    let home = "/home/user";
    let path = iterm2_plist_path(home);
    let fs = snapshot_with(
        path,
        iterm2_plist_bytes(
            Some("g-1"),
            vec![
                bookmark("Plain", "g-1", Some("Menlo 12")),
                bookmark("NerdProfile", "g-2", Some("FiraCode Nerd Font 13")),
            ],
        ),
    );
    let env = vars(&[
        ("TERM_PROGRAM", "iTerm.app"),
        ("HOME", home),
        ("ITERM_PROFILE", "NerdProfile"),
    ]);

    let result = detect(&env, ".", &fs);

    assert_eq!(result.source, DetectionSource::TerminalConfig);
    assert_eq!(result.detected, Some(true));
    assert_eq!(result.profile.as_deref(), Some("NerdProfile"));
}

#[test]
fn iterm2_missing_bookmark_for_profile_is_config_error() {
    let home = "/home/user";
    let path = iterm2_plist_path(home);
    let fs = snapshot_with(
        path,
        iterm2_plist_bytes(Some("g-1"), vec![bookmark("Plain", "g-1", Some("Menlo"))]),
    );
    let env = vars(&[
        ("TERM_PROGRAM", "iTerm.app"),
        ("HOME", home),
        ("ITERM_PROFILE", "Ghost"),
    ]);

    let result = detect(&env, ".", &fs);

    assert_eq!(result.source, DetectionSource::ConfigError);
    assert_eq!(
        result.error_reason.as_deref(),
        Some("missing bookmark for profile Ghost")
    );
    assert_eq!(result.profile.as_deref(), Some("Ghost"));
}

#[test]
fn iterm2_missing_default_guid_is_config_error() {
    let home = "/home/user";
    let path = iterm2_plist_path(home);
    let fs = snapshot_with(
        path,
        iterm2_plist_bytes(None, vec![bookmark("Plain", "g-1", Some("Menlo"))]),
    );
    let env = vars(&[("TERM_PROGRAM", "iTerm.app"), ("HOME", home)]);

    let result = detect(&env, ".", &fs);

    assert_eq!(result.source, DetectionSource::ConfigError);
    assert_eq!(
        result.error_reason.as_deref(),
        Some("missing Default Bookmark Guid")
    );
}

#[test]
fn iterm2_bookmark_without_font_names_the_profile() {
    let home = "/home/user";
    let path = iterm2_plist_path(home);
    let fs = snapshot_with(
        path,
        iterm2_plist_bytes(Some("g-1"), vec![bookmark("Plain", "g-1", None)]),
    );
    let env = vars(&[("TERM_PROGRAM", "iTerm.app"), ("HOME", home)]);

    let result = detect(&env, ".", &fs);

    assert_eq!(result.source, DetectionSource::ConfigError);
    assert_eq!(
        result.error_reason.as_deref(),
        Some("missing Normal Font for Plain")
    );
}

#[test]
fn iterm2_empty_font_names_the_profile() {
    let home = "/home/user";
    let path = iterm2_plist_path(home);
    let fs = snapshot_with(
        path,
        iterm2_plist_bytes(Some("g-1"), vec![bookmark("Plain", "g-1", Some("   "))]),
    );
    let env = vars(&[("TERM_PROGRAM", "iTerm.app"), ("HOME", home)]);

    let result = detect(&env, ".", &fs);

    assert_eq!(result.source, DetectionSource::ConfigError);
    assert_eq!(
        result.error_reason.as_deref(),
        Some("empty Normal Font for Plain")
    );
}

#[test]
fn iterm2_missing_plist_is_config_error() {
    let home = "/home/user";
    let env = vars(&[("TERM_PROGRAM", "iTerm.app"), ("HOME", home)]);

    let result = detect(&env, ".", &FsSnapshot::new());

    assert_eq!(result.source, DetectionSource::ConfigError);
    assert_eq!(result.exit_code(), 5);
    assert_eq!(
        result.config_path.as_deref(),
        Some(iterm2_plist_path(home).as_str())
    );
}

#[test]
fn iterm2_missing_bookmarks_array_is_config_error() {
    let home = "/home/user";
    let path = iterm2_plist_path(home);
    let mut root = Dictionary::new();
    root.insert("SomethingElse".to_string(), Value::String("x".to_string()));
    let mut bytes = Vec::new();
    Value::Dictionary(root)
        .to_writer_xml(&mut bytes)
        .expect("failed to serialize iterm2 plist");
    let fs = snapshot_with(path, bytes);
    let env = vars(&[("TERM_PROGRAM", "iTerm.app"), ("HOME", home)]);

    let result = detect(&env, ".", &fs);

    assert_eq!(result.source, DetectionSource::ConfigError);
    assert_eq!(
        result.error_reason.as_deref(),
        Some("missing New Bookmarks array")
    );
}
