//! Detects whether the current terminal session has a Nerd Font active.
//!
//! The decision is a pure function of three inputs: an environment snapshot
//! (an ordered list of key/value pairs), a working directory, and a snapshot
//! of the configuration files that may be consulted.  The pipeline runs a
//! fixed sequence of short-circuiting layers: explicit override, terminal
//! identification, remote-session gate, and per-terminal configuration
//! resolution backed by a font-name heuristic.

pub mod archive;
pub mod config;
pub mod doc;
pub mod env;
pub mod font;
pub mod fsdata;
pub mod parse;
pub mod paths;
pub mod strutil;
pub mod terminal;
pub mod types;

use vstd::prelude::*;

use crate::fsdata::{FileData, FsSnapshot};
use crate::types::{Confidence, DetectionResult, DetectionSource, ResultV, Terminal, TerminalV};

verus! {

/// The value of `key` in the snapshot, where the last occurrence of a
/// duplicated key wins.
pub open spec fn var_lookup(env: Seq<(String, String)>, key: Seq<char>) -> Option<Seq<char>>
    decreases env.len(),
{
    if env.len() == 0 {
        None
    } else if env.last().0@ == key {
        Some(env.last().1@)
    } else {
        var_lookup(env.drop_last(), key)
    }
}

/// Looks up the last occurrence of `key` in the environment snapshot.
pub fn var<'a>(vars: &'a Vec<(String, String)>, key: &str) -> (r: Option<&'a str>)
    ensures
        match r {
            Some(v) => var_lookup(vars@, key@) == Some(v@),
            None => var_lookup(vars@, key@) is None,
        },
{
    let mut i: usize = vars.len();
    proof {
        assert(vars@.subrange(0, vars@.len() as int) =~= vars@);
    }
    while i > 0
        invariant
            i <= vars@.len(),
            var_lookup(vars@, key@) == var_lookup(vars@.subrange(0, i as int), key@),
        decreases i,
    {
        proof {
            assert(vars@.subrange(0, i as int).last() == vars@[i - 1]);
            assert(vars@.subrange(0, i as int).drop_last() =~= vars@.subrange(0, i - 1));
        }
        if strutil::str_eq(vars[i - 1].0.as_str(), key) {
            return Some(vars[i - 1].1.as_str());
        }
        i = i - 1;
    }
    proof {
        assert(vars@.subrange(0, 0) =~= Seq::<(String, String)>::empty());
    }
    None
}

/// One environment entry that marks a remote session: an SSH variable with a
/// non-empty value.
pub open spec fn remote_entry(e: (String, String)) -> bool {
    (e.0@ == "SSH_TTY"@ || e.0@ == "SSH_CONNECTION"@) && e.1@.len() > 0
}

/// Whether the snapshot marks a remote session.
pub open spec fn is_remote_spec(env: Seq<(String, String)>) -> bool {
    exists|i: int| 0 <= i < env.len() && remote_entry(env[i])
}

/// A result carrying no font, path, profile or diagnostic.
pub open spec fn base_spec(
    detected: Option<bool>,
    source: DetectionSource,
    terminal: Option<TerminalV>,
) -> ResultV {
    ResultV {
        detected,
        source,
        terminal,
        font: None,
        config_path: None,
        profile: None,
        error_reason: None,
        confidence: Confidence::Certain,
    }
}

/// The whole pipeline as one specification: override, terminal identity,
/// remote gate, then per-terminal resolution, in that order, each layer
/// short-circuiting the rest.
pub open spec fn detect_spec(
    env: Seq<(String, String)>,
    cwd: Seq<char>,
    fs: Seq<(String, FileData)>,
) -> ResultV {
    match env::env_decision(env) {
        env::EnvDecision::OverrideEnabled => base_spec(Some(true), DetectionSource::EnvVar, None),
        env::EnvDecision::OverrideDisabled => base_spec(
            Some(false),
            DetectionSource::ExplicitDisable,
            None,
        ),
        env::EnvDecision::Continue => match terminal::terminal_decision(env) {
            terminal::TerminalDecisionV::Bundled(t) => base_spec(
                Some(true),
                DetectionSource::BundledTerminal,
                Some(t),
            ),
            terminal::TerminalDecisionV::Unknown => base_spec(
                None,
                DetectionSource::UnknownTerminal,
                None,
            ),
            terminal::TerminalDecisionV::Identified(t) => if is_remote_spec(env) {
                base_spec(None, DetectionSource::RemoteSession, Some(t))
            } else {
                config::resolve_spec(t, env, cwd, fs)
            },
        },
    }
}

enum LayerOutcome<T> {
    Final(DetectionResult),
    Continue(T),
}

/// Detect whether the current terminal session can render Nerd Font glyphs.
///
/// The environment snapshot is an ordered list of `(key, value)` pairs, the
/// working directory a plain path string, and the filesystem snapshot holds
/// the configuration files that may be consulted.  The contract makes the
/// call total and deterministic: the returned record equals a function of
/// the three arguments and of nothing else.
pub fn detect(vars: &Vec<(String, String)>, cwd: &str, fs: &FsSnapshot) -> (r: DetectionResult)
    ensures
        r@ == detect_spec(vars@, cwd@, fs@),
{
    if let LayerOutcome::Final(result) = env_layer(vars) {
        return result;
    }
    let terminal = match terminal_layer(vars) {
        LayerOutcome::Final(result) => {
            return result;
        },
        LayerOutcome::Continue(terminal) => terminal,
    };
    match ssh_gate_layer(vars, terminal) {
        LayerOutcome::Final(result) => result,
        LayerOutcome::Continue(terminal) => config::resolve(terminal, vars, cwd, fs),
    }
}

fn env_layer(vars: &Vec<(String, String)>) -> (r: LayerOutcome<()>)
    ensures
        match r {
            LayerOutcome::Final(res) => env::env_decision(vars@) != env::EnvDecision::Continue
                && res@ == (if env::env_decision(vars@) == env::EnvDecision::OverrideEnabled {
                base_spec(Some(true), DetectionSource::EnvVar, None)
            } else {
                base_spec(Some(false), DetectionSource::ExplicitDisable, None)
            }),
            LayerOutcome::Continue(_) => env::env_decision(vars@) == env::EnvDecision::Continue,
        },
{
    match env::detect(vars) {
        env::EnvDecision::OverrideEnabled => LayerOutcome::Final(
            base_result(Some(true), DetectionSource::EnvVar, None),
        ),
        env::EnvDecision::OverrideDisabled => LayerOutcome::Final(
            base_result(Some(false), DetectionSource::ExplicitDisable, None),
        ),
        env::EnvDecision::Continue => LayerOutcome::Continue(()),
    }
}

fn terminal_layer(vars: &Vec<(String, String)>) -> (r: LayerOutcome<Terminal>)
    ensures
        match r {
            LayerOutcome::Final(res) => (terminal::terminal_decision(vars@) matches
                terminal::TerminalDecisionV::Bundled(t) && res@ == base_spec(
                Some(true),
                DetectionSource::BundledTerminal,
                Some(t),
            )) || (terminal::terminal_decision(vars@) is Unknown && res@ == base_spec(
                None,
                DetectionSource::UnknownTerminal,
                None,
            )),
            LayerOutcome::Continue(term) => terminal::terminal_decision(vars@)
                == terminal::TerminalDecisionV::Identified(term@),
        },
{
    match terminal::detect(vars) {
        terminal::TerminalDecision::Bundled(terminal) => LayerOutcome::Final(
            base_result(Some(true), DetectionSource::BundledTerminal, Some(terminal)),
        ),
        terminal::TerminalDecision::Identified(terminal) => LayerOutcome::Continue(terminal),
        terminal::TerminalDecision::Unknown => LayerOutcome::Final(
            base_result(None, DetectionSource::UnknownTerminal, None),
        ),
    }
}

fn ssh_gate_layer(vars: &Vec<(String, String)>, terminal: Terminal) -> (r: LayerOutcome<Terminal>)
    ensures
        match r {
            LayerOutcome::Final(res) => is_remote_spec(vars@) && res@ == base_spec(
                None,
                DetectionSource::RemoteSession,
                Some(terminal@),
            ),
            LayerOutcome::Continue(t) => !is_remote_spec(vars@) && t == terminal,
        },
{
    if is_remote_session(vars) {
        return LayerOutcome::Final(
            base_result(None, DetectionSource::RemoteSession, Some(terminal)),
        );
    }
    LayerOutcome::Continue(terminal)
}

fn base_result(
    detected: Option<bool>,
    source: DetectionSource,
    terminal: Option<Terminal>,
) -> (r: DetectionResult)
    ensures
        r@ == base_spec(
            detected,
            source,
            match terminal {
                Some(t) => Some(t@),
                None => None,
            },
        ),
{
    DetectionResult {
        detected,
        source,
        terminal,
        font: None,
        config_path: None,
        profile: None,
        error_reason: None,
        confidence: Confidence::Certain,
    }
}

/// The files one identified terminal's resolver may consult: a superset
/// computed from the snapshot and working directory alone.
pub open spec fn resolver_paths_spec(
    t: TerminalV,
    env: Seq<(String, String)>,
    cwd: Seq<char>,
) -> Seq<Seq<char>> {
    match config::home_of(env) {
        None => Seq::<Seq<char>>::empty(),
        Some(home) => match t {
            TerminalV::Alacritty => config::alacritty::candidates_spec(env, home),
            TerminalV::Hyper => seq![config::hyper::hyper_path_spec(env, home)],
            TerminalV::ITerm2 => seq![
                paths::join_spec(home, "Library/Preferences/com.googlecode.iterm2.plist"@),
            ],
            TerminalV::TerminalApp => seq![
                paths::join_spec(home, "Library/Preferences/com.apple.Terminal.plist"@),
            ],
            TerminalV::Vscode => config::walk_candidates_spec(cwd, home, ".vscode"@) + seq![
                config::vscode::user_settings_path_spec(home, "Code"@),
                config::vscode::user_settings_path_spec(home, "VSCodium"@),
            ],
            TerminalV::Zed => config::walk_candidates_spec(cwd, home, ".zed"@) + seq![
                paths::join_spec(home, ".config/zed/settings.json"@),
            ],
            _ => Seq::<Seq<char>>::empty(),
        },
    }
}

/// The files `detect` may consult, given the same snapshot and working
/// directory: empty whenever an earlier layer finalizes the pipeline.
pub open spec fn consulted_paths_spec(env: Seq<(String, String)>, cwd: Seq<char>) -> Seq<
    Seq<char>,
> {
    match env::env_decision(env) {
        env::EnvDecision::Continue => match terminal::terminal_decision(env) {
            terminal::TerminalDecisionV::Identified(t) => if is_remote_spec(env) {
                Seq::<Seq<char>>::empty()
            } else {
                resolver_paths_spec(t, env, cwd)
            },
            _ => Seq::<Seq<char>>::empty(),
        },
        _ => Seq::<Seq<char>>::empty(),
    }
}

/// Lists the configuration files `detect` may consult, reading nothing: a
/// caller that assembles the snapshot from a real filesystem needs only
/// these paths.
pub fn consulted_paths(vars: &Vec<(String, String)>, cwd: &str) -> (r: Vec<String>)
    ensures
        paths::paths_view(r@) == consulted_paths_spec(vars@, cwd@),
{
    proof {
        assert(paths::paths_view(Seq::<String>::empty()) =~= Seq::<Seq<char>>::empty());
    }
    match env::detect(vars) {
        env::EnvDecision::Continue => {},
        _ => {
            return Vec::new();
        },
    }
    let terminal = match terminal::detect(vars) {
        terminal::TerminalDecision::Identified(t) => t,
        _ => {
            return Vec::new();
        },
    };
    if is_remote_session(vars) {
        return Vec::new();
    }
    let home = match config::home_var(vars) {
        Some(h) => h,
        None => {
            return Vec::new();
        },
    };
    match terminal {
        Terminal::Alacritty => config::alacritty::candidates(vars, home),
        Terminal::Hyper => {
            let mut out: Vec<String> = Vec::new();
            let p = config::hyper::config_path(vars, home);
            proof {
                paths::lemma_paths_view_push(out@, p);
            }
            out.push(p);
            out
        },
        Terminal::ITerm2 => {
            let mut out: Vec<String> = Vec::new();
            let p = paths::join(home, "Library/Preferences/com.googlecode.iterm2.plist");
            proof {
                paths::lemma_paths_view_push(out@, p);
            }
            out.push(p);
            out
        },
        Terminal::TerminalApp => {
            let mut out: Vec<String> = Vec::new();
            let p = paths::join(home, "Library/Preferences/com.apple.Terminal.plist");
            proof {
                paths::lemma_paths_view_push(out@, p);
            }
            out.push(p);
            out
        },
        Terminal::Vscode => {
            let mut out = config::walk_candidates(cwd, home, ".vscode");
            let u1 = config::vscode::user_settings_path(home, "Code");
            proof {
                paths::lemma_paths_view_push(out@, u1);
            }
            out.push(u1);
            let u2 = config::vscode::user_settings_path(home, "VSCodium");
            proof {
                paths::lemma_paths_view_push(out@, u2);
            }
            out.push(u2);
            proof {
                assert(paths::paths_view(out@) =~= consulted_paths_spec(vars@, cwd@));
            }
            out
        },
        Terminal::Zed => {
            let mut out = config::walk_candidates(cwd, home, ".zed");
            let u = paths::join(home, ".config/zed/settings.json");
            proof {
                paths::lemma_paths_view_push(out@, u);
            }
            out.push(u);
            proof {
                assert(paths::paths_view(out@) =~= consulted_paths_spec(vars@, cwd@));
            }
            out
        },
        _ => Vec::new(),
    }
}

/// The shape every pipeline result has: the finalizing layer constrains the
/// detection value, and a diagnostic is present exactly for a configuration
/// error.
pub open spec fn result_wf(r: ResultV) -> bool {
    &&& (r.source is EnvVar ==> r.detected == Some(true))
    &&& (r.source is ExplicitDisable ==> r.detected == Some(false))
    &&& (r.source is BundledTerminal ==> r.detected == Some(true))
    &&& (r.source is UnknownTerminal ==> r.detected is None)
    &&& (r.source is RemoteSession ==> r.detected is None)
    &&& (r.source is NoResolver ==> r.detected is None)
    &&& (r.source is ConfigError ==> r.detected is None)
    &&& (r.error_reason is Some <==> r.source is ConfigError)
}

/// Every result the pipeline can produce is well-formed.
pub proof fn lemma_detect_result_well_formed(
    env: Seq<(String, String)>,
    cwd: Seq<char>,
    fs: Seq<(String, FileData)>,
)
    ensures
        result_wf(detect_spec(env, cwd, fs)),
{
    if env::env_decision(env) == env::EnvDecision::Continue {
        match terminal::terminal_decision(env) {
            terminal::TerminalDecisionV::Identified(t) => if !is_remote_spec(env) {
                config::lemma_resolve_wf(t, env, cwd, fs);
            },
            _ => {},
        }
    }
}

/// The pipeline consults no file outside `consulted_paths`: two snapshots
/// that agree on those paths yield the identical result.
pub proof fn lemma_detect_reads_only_consulted_paths(
    env: Seq<(String, String)>,
    cwd: Seq<char>,
    fs1: Seq<(String, FileData)>,
    fs2: Seq<(String, FileData)>,
)
    requires
        fsdata::fs_agree_on(fs1, fs2, consulted_paths_spec(env, cwd)),
    ensures
        detect_spec(env, cwd, fs1) == detect_spec(env, cwd, fs2),
{
    if env::env_decision(env) == env::EnvDecision::Continue {
        match terminal::terminal_decision(env) {
            terminal::TerminalDecisionV::Identified(t) => if !is_remote_spec(env) {
                config::lemma_resolve_spec_frame(t, env, cwd, fs1, fs2);
            },
            _ => {},
        }
    }
}

/// The last occurrence of a key decides its value: entries before it, equal
/// key or not, play no part.
pub proof fn lemma_last_occurrence_decides(env: Seq<(String, String)>, k: Seq<char>, i: int)
    requires
        0 <= i < env.len(),
        env[i].0@ == k,
        forall|j: int| i < j < env.len() ==> env[j].0@ != k,
    ensures
        var_lookup(env, k) == Some(env[i].1@),
    decreases env.len(),
{
    if i == env.len() - 1 {
    } else {
        assert(env.drop_last()[i] == env[i]);
        lemma_last_occurrence_decides(env.drop_last(), k, i);
    }
}

/// Duplicate occurrences of the override variable: only the last value in
/// the snapshot determines the override layer's decision.
pub proof fn lemma_override_last_write_wins(env: Seq<(String, String)>, i: int)
    requires
        0 <= i < env.len(),
        env[i].0@ == "NERD_FONT"@,
        forall|j: int| i < j < env.len() ==> env[j].0@ != "NERD_FONT"@,
    ensures
        env::env_decision(env) == env::override_token(env[i].1@),
{
    lemma_last_occurrence_decides(env, "NERD_FONT"@, i);
}

/// A recognized truthy override always finalizes the pipeline at the
/// override layer, whatever else is set: the source is the override, the
/// detection positive, and the exit code zero.
pub proof fn lemma_override_enabled_wins(
    env: Seq<(String, String)>,
    cwd: Seq<char>,
    fs: Seq<(String, FileData)>,
)
    requires
        var_lookup(env, "NERD_FONT"@) matches Some(v) && env::override_token(v)
            == env::EnvDecision::OverrideEnabled,
    ensures
        detect_spec(env, cwd, fs) == base_spec(Some(true), DetectionSource::EnvVar, None),
        types::exit_code_spec(
            detect_spec(env, cwd, fs).source,
            detect_spec(env, cwd, fs).detected,
        ) == 0,
{
}

/// A recognized falsy override always finalizes the pipeline at the
/// override layer with a negative detection and exit code one.
pub proof fn lemma_override_disabled_wins(
    env: Seq<(String, String)>,
    cwd: Seq<char>,
    fs: Seq<(String, FileData)>,
)
    requires
        var_lookup(env, "NERD_FONT"@) matches Some(v) && env::override_token(v)
            == env::EnvDecision::OverrideDisabled,
    ensures
        detect_spec(env, cwd, fs) == base_spec(
            Some(false),
            DetectionSource::ExplicitDisable,
            None,
        ),
        types::exit_code_spec(
            detect_spec(env, cwd, fs).source,
            detect_spec(env, cwd, fs).detected,
        ) == 1,
{
}

/// A bundled terminal finalizes the pipeline with a positive detection and
/// exit code zero.  No remote-session hypothesis is needed: the bundled
/// check precedes the remote gate, so this holds with SSH variables set.
pub proof fn lemma_bundled_short_circuit(
    env: Seq<(String, String)>,
    cwd: Seq<char>,
    fs: Seq<(String, FileData)>,
)
    requires
        env::env_decision(env) == env::EnvDecision::Continue,
        terminal::terminal_decision(env) is Bundled,
    ensures
        terminal::terminal_decision(env) matches terminal::TerminalDecisionV::Bundled(t)
            ==> detect_spec(env, cwd, fs) == base_spec(
            Some(true),
            DetectionSource::BundledTerminal,
            Some(t),
        ),
        types::exit_code_spec(
            detect_spec(env, cwd, fs).source,
            detect_spec(env, cwd, fs).detected,
        ) == 0,
{
}

/// An identified non-bundled terminal in a remote session finalizes at the
/// remote gate with exit code three, and the result does not depend on the
/// working directory or on any file: no file is consulted.
pub proof fn lemma_remote_gate(
    env: Seq<(String, String)>,
    cwd: Seq<char>,
    fs: Seq<(String, FileData)>,
    other_cwd: Seq<char>,
    other_fs: Seq<(String, FileData)>,
)
    requires
        env::env_decision(env) == env::EnvDecision::Continue,
        terminal::terminal_decision(env) is Identified,
        is_remote_spec(env),
    ensures
        terminal::terminal_decision(env) matches terminal::TerminalDecisionV::Identified(t)
            ==> detect_spec(env, cwd, fs) == base_spec(
            None,
            DetectionSource::RemoteSession,
            Some(t),
        ),
        detect_spec(env, cwd, fs) == detect_spec(env, other_cwd, other_fs),
        types::exit_code_spec(
            detect_spec(env, cwd, fs).source,
            detect_spec(env, cwd, fs).detected,
        ) == 3,
{
}

fn is_remote_session(vars: &Vec<(String, String)>) -> (r: bool)
    ensures
        r == is_remote_spec(vars@),
{
    let n = vars.len();
    let mut i: usize = 0;
    while i < n
        invariant
            0 <= i <= n,
            n == vars@.len(),
            forall|j: int| 0 <= j < i ==> !remote_entry(vars@[j]),
        decreases n - i,
    {
        let key = vars[i].0.as_str();
        if (strutil::str_eq(key, "SSH_TTY") || strutil::str_eq(key, "SSH_CONNECTION"))
            && !vars[i].1.as_str().is_empty() {
            return true;
        }
        i = i + 1;
    }
    false
}

} // verus!

