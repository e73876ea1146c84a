//! The Hyper resolver: one JSON file at an XDG-based path, with the font at
//! the nested `config.fontFamily` key.

use vstd::prelude::*;

use crate::config::{
    SettingsRead, SettingsReadV, config_error, config_error_spec, font_result, font_result_spec,
    home_of, home_var, read_json_settings, read_json_spec,
};
use crate::doc::{Node, get_spec, str_spec};
use crate::fsdata::{FileData, FsSnapshot};
use crate::paths;
use crate::types::{DetectionResult, ResultV, Terminal, TerminalV};
use crate::var_lookup;

verus! {

/// The `config.fontFamily` string of a Hyper document.
pub open spec fn hyper_font_spec(d: Node) -> Option<Seq<char>> {
    match get_spec(d, "config"@) {
        None => None,
        Some(c) => match get_spec(c, "fontFamily"@) {
            None => None,
            Some(f) => str_spec(f),
        },
    }
}

/// The single candidate path: the XDG configuration home when set and
/// non-empty, else `$HOME/.config`, then `Hyper/hyper.json`.
pub open spec fn hyper_path_spec(env: Seq<(String, String)>, home: Seq<char>) -> Seq<char> {
    let dir = match var_lookup(env, "XDG_CONFIG_HOME"@) {
        Some(x) => if x.len() > 0 {
            paths::join_spec(x, "Hyper"@)
        } else {
            paths::join_spec(home, ".config/Hyper"@)
        },
        None => paths::join_spec(home, ".config/Hyper"@),
    };
    paths::join_spec(dir, "hyper.json"@)
}

/// The whole Hyper resolution.
pub open spec fn resolve_hyper_spec(
    env: Seq<(String, String)>,
    fs: Seq<(String, FileData)>,
) -> ResultV {
    match home_of(env) {
        None => config_error_spec(TerminalV::Hyper, "HOME is not set"@, None),
        Some(home) => {
            let path = hyper_path_spec(env, home);
            match read_json_spec(fs, path) {
                SettingsReadV::Absent => config_error_spec(
                    TerminalV::Hyper,
                    "no config file found"@,
                    Some(path),
                ),
                SettingsReadV::Failed(reason) => config_error_spec(
                    TerminalV::Hyper,
                    reason,
                    Some(path),
                ),
                SettingsReadV::Doc(d) => match hyper_font_spec(d) {
                    Some(fam) => font_result_spec(TerminalV::Hyper, fam, path, None),
                    None => config_error_spec(
                        TerminalV::Hyper,
                        "no font configured"@,
                        Some(path),
                    ),
                },
            }
        },
    }
}

/// The Hyper resolver reads only its single candidate path.
pub proof fn lemma_resolve_frame(
    env: Seq<(String, String)>,
    fs1: Seq<(String, FileData)>,
    fs2: Seq<(String, FileData)>,
)
    requires
        home_of(env) matches Some(home) ==> crate::fsdata::fs_lookup(
            fs1,
            hyper_path_spec(env, home),
        ) == crate::fsdata::fs_lookup(fs2, hyper_path_spec(env, home)),
    ensures
        resolve_hyper_spec(env, fs1) == resolve_hyper_spec(env, fs2),
{
}

/// The Hyper resolver always yields a well-formed result.
pub proof fn lemma_resolve_wf(env: Seq<(String, String)>, fs: Seq<(String, FileData)>)
    ensures
        crate::result_wf(resolve_hyper_spec(env, fs)),
{
}

/// Builds the single candidate configuration path.
pub fn config_path(vars: &Vec<(String, String)>, home: &str) -> (r: String)
    ensures
        r@ == hyper_path_spec(vars@, home@),
{
    let config_dir = match crate::var(vars, "XDG_CONFIG_HOME") {
        Some(x) => if !x.is_empty() {
            paths::join(x, "Hyper")
        } else {
            paths::join(home, ".config/Hyper")
        },
        None => paths::join(home, ".config/Hyper"),
    };
    paths::join(config_dir.as_str(), "hyper.json")
}

/// Resolves Hyper's configured font from the snapshot.
pub fn resolve(vars: &Vec<(String, String)>, fs: &FsSnapshot) -> (r: DetectionResult)
    ensures
        r@ == resolve_hyper_spec(vars@, fs@),
{
    let home = match home_var(vars) {
        Some(h) => h,
        None => {
            return config_error(Terminal::Hyper, "HOME is not set".to_owned(), None);
        },
    };
    let config_path = config_path(vars, home);
    match read_json_settings(fs, config_path.as_str()) {
        SettingsRead::Absent => config_error(
            Terminal::Hyper,
            "no config file found".to_owned(),
            Some(config_path),
        ),
        SettingsRead::Failed(reason) => config_error(Terminal::Hyper, reason, Some(config_path)),
        SettingsRead::Doc(d) => {
            let fam_opt = match d.get("config") {
                Some(c) => match c.get("fontFamily") {
                    Some(f) => f.as_str(),
                    None => None,
                },
                None => None,
            };
            match fam_opt {
                Some(family) => {
                    let family = family.clone();
                    font_result(Terminal::Hyper, family.as_str(), config_path, None)
                },
                None => config_error(
                    Terminal::Hyper,
                    "no font configured".to_owned(),
                    Some(config_path),
                ),
            }
        },
    }
}

} // verus!
