//! The resolver dispatcher: routes a terminal identity to its per-terminal
//! configuration resolver, or reports that none is implemented.

use vstd::prelude::*;

use crate::doc::Node;
use crate::fsdata::{FileData, FsSnapshot, TextRead, TextReadV, read_text, read_text_spec};
use crate::parse;
use crate::types::{Confidence, DetectionResult, DetectionSource, ResultV, Terminal, TerminalV};
use crate::var_lookup;

pub mod alacritty;
pub mod hyper;
pub mod iterm2;
pub mod terminal_app;
pub mod vscode;
pub mod zed;

verus! {

/// The outcome of reading and parsing one settings file.
pub enum SettingsRead {
    /// The file does not exist or is inaccessible: try the next candidate.
    Absent,
    /// The parsed document.
    Doc(Node),
    /// The file exists but could not be read or parsed; the diagnostic says
    /// which.
    Failed(String),
}

/// Ghost mirror of [`SettingsRead`].
pub enum SettingsReadV {
    Absent,
    Doc(Node),
    Failed(Seq<char>),
}

impl View for SettingsRead {
    type V = SettingsReadV;

    open spec fn view(&self) -> SettingsReadV {
        match self {
            SettingsRead::Absent => SettingsReadV::Absent,
            SettingsRead::Doc(d) => SettingsReadV::Doc(*d),
            SettingsRead::Failed(m) => SettingsReadV::Failed(m@),
        }
    }
}

/// The diagnostic for a file that exists but cannot be read as text.
pub open spec fn read_failure_reason(path: Seq<char>) -> Seq<char> {
    "failed to read "@ + path
}

/// The diagnostic for a file that reads but does not parse.
pub open spec fn parse_failure_reason(path: Seq<char>, msg: Seq<char>) -> Seq<char> {
    "failed to parse "@ + path + ": "@ + msg
}

/// Reading and parsing one TOML settings file.
pub open spec fn read_toml_spec(fs: Seq<(String, FileData)>, path: Seq<char>) -> SettingsReadV {
    match read_text_spec(fs, path) {
        TextReadV::Absent => SettingsReadV::Absent,
        TextReadV::Failed => SettingsReadV::Failed(read_failure_reason(path)),
        TextReadV::Text(s) => match parse::toml_doc_of(s) {
            Ok(d) => SettingsReadV::Doc(d),
            Err(m) => SettingsReadV::Failed(parse_failure_reason(path, m)),
        },
    }
}

/// Reading and parsing one JSON5 settings file.
pub open spec fn read_json5_spec(fs: Seq<(String, FileData)>, path: Seq<char>) -> SettingsReadV {
    match read_text_spec(fs, path) {
        TextReadV::Absent => SettingsReadV::Absent,
        TextReadV::Failed => SettingsReadV::Failed(read_failure_reason(path)),
        TextReadV::Text(s) => match parse::json5_doc_of(s) {
            Ok(d) => SettingsReadV::Doc(d),
            Err(m) => SettingsReadV::Failed(parse_failure_reason(path, m)),
        },
    }
}

/// Reading and parsing one JSON settings file.
pub open spec fn read_json_spec(fs: Seq<(String, FileData)>, path: Seq<char>) -> SettingsReadV {
    match read_text_spec(fs, path) {
        TextReadV::Absent => SettingsReadV::Absent,
        TextReadV::Failed => SettingsReadV::Failed(read_failure_reason(path)),
        TextReadV::Text(s) => match parse::json_doc_of(s) {
            Ok(d) => SettingsReadV::Doc(d),
            Err(m) => SettingsReadV::Failed(parse_failure_reason(path, m)),
        },
    }
}

fn read_failure(path: &str) -> (r: String)
    ensures
        r@ == read_failure_reason(path@),
{
    "failed to read ".to_owned().concat(path)
}

fn parse_failure(path: &str, msg: &str) -> (r: String)
    ensures
        r@ == parse_failure_reason(path@, msg@),
{
    crate::strutil::concat3("failed to parse ", path, ": ").concat(msg)
}

/// Reads and parses a TOML settings file from the snapshot.
pub fn read_toml_settings(fs: &FsSnapshot, path: &str) -> (r: SettingsRead)
    ensures
        r@ == read_toml_spec(fs@, path@),
{
    match read_text(fs, path) {
        TextRead::Absent => SettingsRead::Absent,
        TextRead::Failed => SettingsRead::Failed(read_failure(path)),
        TextRead::Text(s) => match parse::parse_toml(s.as_str()) {
            Ok(d) => SettingsRead::Doc(d),
            Err(m) => SettingsRead::Failed(parse_failure(path, m.as_str())),
        },
    }
}

/// Reads and parses a JSON5 settings file from the snapshot.
pub fn read_json5_settings(fs: &FsSnapshot, path: &str) -> (r: SettingsRead)
    ensures
        r@ == read_json5_spec(fs@, path@),
{
    match read_text(fs, path) {
        TextRead::Absent => SettingsRead::Absent,
        TextRead::Failed => SettingsRead::Failed(read_failure(path)),
        TextRead::Text(s) => match parse::parse_json5(s.as_str()) {
            Ok(d) => SettingsRead::Doc(d),
            Err(m) => SettingsRead::Failed(parse_failure(path, m.as_str())),
        },
    }
}

/// Reads and parses a JSON settings file from the snapshot.
pub fn read_json_settings(fs: &FsSnapshot, path: &str) -> (r: SettingsRead)
    ensures
        r@ == read_json_spec(fs@, path@),
{
    match read_text(fs, path) {
        TextRead::Absent => SettingsRead::Absent,
        TextRead::Failed => SettingsRead::Failed(read_failure(path)),
        TextRead::Text(s) => match parse::parse_json(s.as_str()) {
            Ok(d) => SettingsRead::Doc(d),
            Err(m) => SettingsRead::Failed(parse_failure(path, m.as_str())),
        },
    }
}

/// A successful classification: the normalized font, the file it came from,
/// and the profile examined, if any.
pub open spec fn font_result_spec(
    t: TerminalV,
    fam: Seq<char>,
    path: Seq<char>,
    profile: Option<Seq<char>>,
) -> ResultV {
    ResultV {
        detected: Some(crate::font::is_nerd_font_spec(crate::strutil::trim_spec(fam))),
        source: DetectionSource::TerminalConfig,
        terminal: Some(t),
        font: Some(crate::strutil::trim_spec(fam)),
        config_path: Some(path),
        profile,
        error_reason: None,
        confidence: Confidence::Certain,
    }
}

/// Normalizes and classifies an extracted font name.
pub(crate) fn font_result(
    terminal: Terminal,
    family: &str,
    config_path: String,
    profile: Option<String>,
) -> (r: DetectionResult)
    ensures
        r@ == font_result_spec(
            terminal@,
            family@,
            config_path@,
            match profile {
                Some(p) => Some(p@),
                None => None,
            },
        ),
{
    let font_name = crate::font::normalize_font_name(family);
    let detected = crate::font::is_nerd_font(font_name.as_str());
    DetectionResult {
        detected: Some(detected),
        source: DetectionSource::TerminalConfig,
        terminal: Some(terminal),
        font: Some(font_name),
        config_path: Some(config_path),
        profile,
        error_reason: None,
        confidence: Confidence::Certain,
    }
}

/// The settings file a directory would hold for the given marker
/// subdirectory.
pub open spec fn project_candidate(dir: Seq<char>, subdir: Seq<char>) -> Seq<char> {
    crate::paths::join_spec(crate::paths::join_spec(dir, subdir), "settings.json"@)
}

/// The outcome of the upward walk for project settings.
pub enum ProjectFind {
    /// No ancestor up to the stopping point holds a settings file.
    NotFound,
    /// The parsed settings and the path they were found at.
    Found(Node, String),
    /// A settings file exists but could not be read or parsed.
    Failed(String, String),
}

/// Ghost mirror of [`ProjectFind`].
pub enum ProjectFindV {
    NotFound,
    Found(Node, Seq<char>),
    Failed(Seq<char>, Seq<char>),
}

impl View for ProjectFind {
    type V = ProjectFindV;

    open spec fn view(&self) -> ProjectFindV {
        match self {
            ProjectFind::NotFound => ProjectFindV::NotFound,
            ProjectFind::Found(d, p) => ProjectFindV::Found(*d, p@),
            ProjectFind::Failed(m, p) => ProjectFindV::Failed(m@, p@),
        }
    }
}

/// The upward walk: starting at `dir`, look for `subdir/settings.json`;
/// when absent move to the parent, stopping after the home directory
/// (inclusive) or at a root.
pub open spec fn find_project_spec(
    fs: Seq<(String, FileData)>,
    dir: Seq<char>,
    home: Seq<char>,
    subdir: Seq<char>,
) -> ProjectFindV
    decreases dir.len(),
        via find_project_spec_dec
{
    let cand = project_candidate(dir, subdir);
    match read_json5_spec(fs, cand) {
        SettingsReadV::Doc(d) => ProjectFindV::Found(d, cand),
        SettingsReadV::Failed(reason) => ProjectFindV::Failed(reason, cand),
        SettingsReadV::Absent => if dir == home {
            ProjectFindV::NotFound
        } else {
            match crate::paths::parent_spec(dir) {
                Some(p) => find_project_spec(fs, p, home, subdir),
                None => ProjectFindV::NotFound,
            }
        },
    }
}

#[via_fn]
proof fn find_project_spec_dec(
    fs: Seq<(String, FileData)>,
    dir: Seq<char>,
    home: Seq<char>,
    subdir: Seq<char>,
) {
    crate::paths::lemma_parent_shorter(dir);
}

/// Walks from the working directory upward, looking for project settings.
pub fn find_project_settings(fs: &FsSnapshot, cwd: &str, home: &str, subdir: &str) -> (r:
    ProjectFind)
    ensures
        r@ == find_project_spec(fs@, cwd@, home@, subdir@),
{
    let mut dir: String = cwd.to_owned();
    loop
        invariant
            find_project_spec(fs@, cwd@, home@, subdir@) == find_project_spec(
                fs@,
                dir@,
                home@,
                subdir@,
            ),
        decreases dir@.len(),
    {
        let cand = crate::paths::join(
            crate::paths::join(dir.as_str(), subdir).as_str(),
            "settings.json",
        );
        match read_json5_settings(fs, cand.as_str()) {
            SettingsRead::Doc(d) => {
                return ProjectFind::Found(d, cand);
            },
            SettingsRead::Failed(reason) => {
                return ProjectFind::Failed(reason, cand);
            },
            SettingsRead::Absent => {
                if crate::strutil::str_eq(dir.as_str(), home) {
                    return ProjectFind::NotFound;
                }
                match crate::paths::parent(dir.as_str()) {
                    Some(p) => {
                        proof {
                            crate::paths::lemma_parent_shorter(dir@);
                        }
                        dir = p;
                    },
                    None => {
                        return ProjectFind::NotFound;
                    },
                }
            },
        }
    }
}

/// Every settings file the upward walk would look at, nearest first.
pub open spec fn walk_candidates_spec(
    dir: Seq<char>,
    home: Seq<char>,
    subdir: Seq<char>,
) -> Seq<Seq<char>>
    decreases dir.len(),
        via walk_candidates_spec_dec
{
    let cand = project_candidate(dir, subdir);
    if dir == home {
        seq![cand]
    } else {
        match crate::paths::parent_spec(dir) {
            Some(p) => seq![cand] + walk_candidates_spec(p, home, subdir),
            None => seq![cand],
        }
    }
}

#[via_fn]
proof fn walk_candidates_spec_dec(dir: Seq<char>, home: Seq<char>, subdir: Seq<char>) {
    crate::paths::lemma_parent_shorter(dir);
}

/// Lists every settings file the upward walk would look at.
pub fn walk_candidates(cwd: &str, home: &str, subdir: &str) -> (r: Vec<String>)
    ensures
        crate::paths::paths_view(r@) == walk_candidates_spec(cwd@, home@, subdir@),
{
    let mut out: Vec<String> = Vec::new();
    let mut dir: String = cwd.to_owned();
    loop
        invariant
            crate::paths::paths_view(out@) + walk_candidates_spec(dir@, home@, subdir@)
                =~= walk_candidates_spec(cwd@, home@, subdir@),
        decreases dir@.len(),
    {
        let cand = crate::paths::join(
            crate::paths::join(dir.as_str(), subdir).as_str(),
            "settings.json",
        );
        proof {
            crate::paths::lemma_paths_view_push(out@, cand);
        }
        let at_home = crate::strutil::str_eq(dir.as_str(), home);
        let ghost old_dir = dir@;
        out.push(cand);
        if at_home {
            proof {
                assert(crate::paths::paths_view(out@) =~= walk_candidates_spec(
                    cwd@,
                    home@,
                    subdir@,
                ));
            }
            return out;
        }
        match crate::paths::parent(dir.as_str()) {
            Some(p) => {
                proof {
                    crate::paths::lemma_parent_shorter(dir@);
                    assert(crate::paths::paths_view(out@) + walk_candidates_spec(
                        p@,
                        home@,
                        subdir@,
                    ) =~= walk_candidates_spec(cwd@, home@, subdir@));
                }
                dir = p;
            },
            None => {
                proof {
                    assert(crate::paths::paths_view(out@) =~= walk_candidates_spec(
                        cwd@,
                        home@,
                        subdir@,
                    ));
                }
                return out;
            },
        }
    }
}

/// The upward walk reads nothing but its candidates: snapshots that agree
/// on them find the same settings.
pub proof fn lemma_find_project_frame(
    fs1: Seq<(String, FileData)>,
    fs2: Seq<(String, FileData)>,
    dir: Seq<char>,
    home: Seq<char>,
    subdir: Seq<char>,
)
    requires
        crate::fsdata::fs_agree_on(fs1, fs2, walk_candidates_spec(dir, home, subdir)),
    ensures
        find_project_spec(fs1, dir, home, subdir) == find_project_spec(fs2, dir, home, subdir),
    decreases dir.len(),
{
    let cand = project_candidate(dir, subdir);
    let ws = walk_candidates_spec(dir, home, subdir);
    assert(ws[0] == cand);
    assert(crate::fsdata::fs_lookup(fs1, cand) == crate::fsdata::fs_lookup(fs2, cand));
    if read_json5_spec(fs1, cand) is Absent {
        if dir != home {
            match crate::paths::parent_spec(dir) {
                Some(p) => {
                    crate::paths::lemma_parent_shorter(dir);
                    let rest = walk_candidates_spec(p, home, subdir);
                    assert(crate::fsdata::fs_agree_on(fs1, fs2, rest)) by {
                        assert(forall|i: int| 0 <= i < rest.len() ==> rest[i] == ws[i + 1]);
                    }
                    lemma_find_project_frame(fs1, fs2, p, home, subdir);
                },
                None => {},
            }
        }
    }
}

/// The home directory named by the snapshot, required to be non-empty.
pub open spec fn home_of(env: Seq<(String, String)>) -> Option<Seq<char>> {
    match var_lookup(env, "HOME"@) {
        Some(h) => if h.len() > 0 {
            Some(h)
        } else {
            None
        },
        None => None,
    }
}

/// Looks the home directory up in the snapshot.
pub fn home_var<'a>(vars: &'a Vec<(String, String)>) -> (r: Option<&'a str>)
    ensures
        match r {
            Some(h) => home_of(vars@) == Some(h@),
            None => home_of(vars@) is None,
        },
{
    match crate::var(vars, "HOME") {
        Some(h) => if h.is_empty() {
            None
        } else {
            Some(h)
        },
        None => None,
    }
}

/// The benign outcome for a terminal with no implemented resolver.
pub open spec fn no_resolver_spec(t: TerminalV) -> ResultV {
    ResultV {
        detected: None,
        source: DetectionSource::NoResolver,
        terminal: Some(t),
        font: None,
        config_path: None,
        profile: None,
        error_reason: None,
        confidence: Confidence::Certain,
    }
}

/// A configuration error, carrying a diagnostic and a best-effort path.
pub open spec fn config_error_spec(
    t: TerminalV,
    reason: Seq<char>,
    config_path: Option<Seq<char>>,
) -> ResultV {
    ResultV {
        detected: None,
        source: DetectionSource::ConfigError,
        terminal: Some(t),
        font: None,
        config_path,
        profile: None,
        error_reason: Some(reason),
        confidence: Confidence::Certain,
    }
}

/// A configuration error that also names the profile that was being
/// examined.
pub open spec fn config_error_profile_spec(
    t: TerminalV,
    reason: Seq<char>,
    config_path: Option<Seq<char>>,
    profile: Option<Seq<char>>,
) -> ResultV {
    ResultV {
        detected: None,
        source: DetectionSource::ConfigError,
        terminal: Some(t),
        font: None,
        config_path,
        profile,
        error_reason: Some(reason),
        confidence: Confidence::Certain,
    }
}

pub(crate) fn config_error_profile(
    terminal: Terminal,
    reason: String,
    config_path: Option<String>,
    profile: Option<String>,
) -> (r: DetectionResult)
    ensures
        r@ == config_error_profile_spec(
            terminal@,
            reason@,
            match config_path {
                Some(p) => Some(p@),
                None => None,
            },
            match profile {
                Some(p) => Some(p@),
                None => None,
            },
        ),
{
    DetectionResult {
        detected: None,
        source: DetectionSource::ConfigError,
        terminal: Some(terminal),
        font: None,
        config_path,
        profile,
        error_reason: Some(reason),
        confidence: Confidence::Certain,
    }
}

/// What the dispatcher hands each terminal's resolver.
pub open spec fn resolve_spec(
    t: TerminalV,
    env: Seq<(String, String)>,
    cwd: Seq<char>,
    fs: Seq<(String, FileData)>,
) -> ResultV {
    match t {
        TerminalV::Alacritty => alacritty::resolve_alacritty_spec(env, fs),
        TerminalV::Hyper => hyper::resolve_hyper_spec(env, fs),
        TerminalV::Vscode => vscode::resolve_vscode_spec(env, cwd, fs),
        TerminalV::Zed => zed::resolve_zed_spec(env, cwd, fs),
        TerminalV::TerminalApp => terminal_app::resolve_terminal_app_spec(env, fs),
        TerminalV::ITerm2 => iterm2::resolve_iterm2_spec(env, fs),
        _ => no_resolver_spec(t),
    }
}

/// Whatever the terminal and the files, the dispatcher's result is
/// well-formed.
pub proof fn lemma_resolve_wf(
    t: TerminalV,
    env: Seq<(String, String)>,
    cwd: Seq<char>,
    fs: Seq<(String, FileData)>,
)
    ensures
        crate::result_wf(resolve_spec(t, env, cwd, fs)),
{
    match t {
        TerminalV::Alacritty => alacritty::lemma_resolve_wf(env, fs),
        TerminalV::Hyper => hyper::lemma_resolve_wf(env, fs),
        TerminalV::Vscode => vscode::lemma_resolve_wf(env, cwd, fs),
        TerminalV::Zed => zed::lemma_resolve_wf(env, cwd, fs),
        TerminalV::TerminalApp => terminal_app::lemma_resolve_wf(env, fs),
        TerminalV::ITerm2 => iterm2::lemma_resolve_wf(env, fs),
        _ => {},
    }
}

/// Each resolver reads only the files the dispatcher's path list names:
/// snapshots that agree on them resolve alike.
pub proof fn lemma_resolve_spec_frame(
    t: TerminalV,
    env: Seq<(String, String)>,
    cwd: Seq<char>,
    fs1: Seq<(String, FileData)>,
    fs2: Seq<(String, FileData)>,
)
    requires
        crate::fsdata::fs_agree_on(fs1, fs2, crate::resolver_paths_spec(t, env, cwd)),
    ensures
        resolve_spec(t, env, cwd, fs1) == resolve_spec(t, env, cwd, fs2),
{
    let ps = crate::resolver_paths_spec(t, env, cwd);
    match t {
        TerminalV::Alacritty => alacritty::lemma_resolve_frame(env, fs1, fs2),
        TerminalV::Hyper => {
            match home_of(env) {
                Some(home) => {
                    assert(ps[0] == hyper::hyper_path_spec(env, home));
                },
                None => {},
            }
            hyper::lemma_resolve_frame(env, fs1, fs2);
        },
        TerminalV::ITerm2 => {
            match home_of(env) {
                Some(home) => {
                    assert(ps[0] == crate::paths::join_spec(
                        home,
                        "Library/Preferences/com.googlecode.iterm2.plist"@,
                    ));
                },
                None => {},
            }
            iterm2::lemma_resolve_frame(env, fs1, fs2);
        },
        TerminalV::TerminalApp => {
            match home_of(env) {
                Some(home) => {
                    assert(ps[0] == crate::paths::join_spec(
                        home,
                        "Library/Preferences/com.apple.Terminal.plist"@,
                    ));
                },
                None => {},
            }
            terminal_app::lemma_resolve_frame(env, fs1, fs2);
        },
        TerminalV::Vscode => {
            match home_of(env) {
                Some(home) => {
                    let ws = walk_candidates_spec(cwd, home, ".vscode"@);
                    assert(crate::fsdata::fs_agree_on(fs1, fs2, ws)) by {
                        assert(forall|i: int| 0 <= i < ws.len() ==> ws[i] == ps[i]);
                    }
                    assert(ps[ws.len() as int] == vscode::user_settings_path_spec(home, "Code"@));
                    assert(ps[ws.len() as int + 1] == vscode::user_settings_path_spec(
                        home,
                        "VSCodium"@,
                    ));
                },
                None => {},
            }
            vscode::lemma_resolve_frame(env, cwd, fs1, fs2);
        },
        TerminalV::Zed => {
            match home_of(env) {
                Some(home) => {
                    let ws = walk_candidates_spec(cwd, home, ".zed"@);
                    assert(crate::fsdata::fs_agree_on(fs1, fs2, ws)) by {
                        assert(forall|i: int| 0 <= i < ws.len() ==> ws[i] == ps[i]);
                    }
                    assert(ps[ws.len() as int] == crate::paths::join_spec(
                        home,
                        ".config/zed/settings.json"@,
                    ));
                },
                None => {},
            }
            zed::lemma_resolve_frame(env, cwd, fs1, fs2);
        },
        _ => {},
    }
}

/// Routes a terminal identity to its resolver.
pub fn resolve(
    terminal: Terminal,
    vars: &Vec<(String, String)>,
    cwd: &str,
    fs: &FsSnapshot,
) -> (r: DetectionResult)
    ensures
        r@ == resolve_spec(terminal@, vars@, cwd@, fs@),
{
    match terminal {
        Terminal::Alacritty => alacritty::resolve(vars, fs),
        Terminal::Hyper => hyper::resolve(vars, fs),
        Terminal::Vscode => vscode::resolve(vars, cwd, fs),
        Terminal::Zed => zed::resolve(vars, cwd, fs),
        Terminal::TerminalApp => terminal_app::resolve(vars, fs),
        Terminal::ITerm2 => iterm2::resolve(vars, fs),
        _ => no_resolver(terminal),
    }
}

fn no_resolver(terminal: Terminal) -> (r: DetectionResult)
    ensures
        r@ == no_resolver_spec(terminal@),
{
    DetectionResult {
        detected: None,
        source: DetectionSource::NoResolver,
        terminal: Some(terminal),
        font: None,
        config_path: None,
        profile: None,
        error_reason: None,
        confidence: Confidence::Certain,
    }
}

pub(crate) fn config_error(
    terminal: Terminal,
    reason: String,
    config_path: Option<String>,
) -> (r: DetectionResult)
    ensures
        r@ == config_error_spec(
            terminal@,
            reason@,
            match config_path {
                Some(p) => Some(p@),
                None => None,
            },
        ),
{
    DetectionResult {
        detected: None,
        source: DetectionSource::ConfigError,
        terminal: Some(terminal),
        font: None,
        config_path,
        profile: None,
        error_reason: Some(reason),
        confidence: Confidence::Certain,
    }
}

} // verus!
