use has_nerd_font::consulted_paths;

fn vars(entries: &[(&str, &str)]) -> Vec<(String, String)> {
    entries
        .iter()
        .map(|(k, v)| ((*k).to_string(), (*v).to_string()))
        .collect()
}

#[test]
fn consulted_paths_for_alacritty_list_the_candidate_chain() {
    let env = vars(&[("ALACRITTY_LOG", "/tmp/fake.log"), ("HOME", "/home/user")]);

    let paths = consulted_paths(&env, "/home/user");

    assert_eq!(
        paths,
        vec![
            "/home/user/.config/alacritty/alacritty.toml".to_string(),
            "/home/user/.config/alacritty.toml".to_string(),
            "/home/user/.alacritty.toml".to_string(),
            "/etc/alacritty/alacritty.toml".to_string(),
        ]
    );
}

#[test]
fn consulted_paths_walk_up_to_home_for_zed() {
    let env = vars(&[("TERM_PROGRAM", "zed"), ("HOME", "/home/user")]);

    let paths = consulted_paths(&env, "/home/user/a/b");

    assert_eq!(
        paths,
        vec![
            "/home/user/a/b/.zed/settings.json".to_string(),
            "/home/user/a/.zed/settings.json".to_string(),
            "/home/user/.zed/settings.json".to_string(),
            "/home/user/.config/zed/settings.json".to_string(),
        ]
    );
}

#[test]
fn consulted_paths_empty_when_an_early_layer_finalizes() {
    let bundled = vars(&[("TERM_PROGRAM", "ghostty")]);
    assert!(consulted_paths(&bundled, ".").is_empty());

    let overridden = vars(&[("NERD_FONT", "1"), ("TERM_PROGRAM", "zed")]);
    assert!(consulted_paths(&overridden, ".").is_empty());

    let remote = vars(&[
        ("TERM_PROGRAM", "zed"),
        ("HOME", "/home/user"),
        ("SSH_CONNECTION", "10.0.0.1 22"),
    ]);
    assert!(consulted_paths(&remote, ".").is_empty());

    let no_home = vars(&[("TERM_PROGRAM", "zed")]);
    assert!(consulted_paths(&no_home, ".").is_empty());
}
