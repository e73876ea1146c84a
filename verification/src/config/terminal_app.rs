//! The Terminal.app resolver: reads the preferences property list, selects
//! the default window-settings profile, and extracts the font from a direct
//! string, a descriptor dictionary, or a keyed-archive blob.

use vstd::prelude::*;

use crate::archive;
use crate::config::{
    config_error, config_error_profile, config_error_profile_spec, config_error_spec, font_result,
    font_result_spec, home_of, home_var,
};
use crate::doc::{Node, get_spec, map_spec, str_spec};
use crate::fsdata::{FileData, FsSnapshot};
use crate::paths;
use crate::types::{DetectionResult, ResultV, Terminal, TerminalV};

verus! {

/// The font name one profile value carries: a direct string, a descriptor
/// dictionary's `FontName`, or a keyed-archive blob's decoded name.
pub open spec fn font_value_spec(n: Node) -> Option<Seq<char>> {
    match str_spec(n) {
        Some(s) => Some(s),
        None => match map_spec(n) {
            Some(es) => match get_spec(n, "FontName"@) {
                Some(v) => str_spec(v),
                None => None,
            },
            None => archive::node_archive_font_name(n),
        },
    }
}

/// The font of the named profile: `Window Settings` must be a dictionary,
/// the profile's settings must be a dictionary, and `Font` is tried before
/// `Normal Font`; an empty result is rejected.
pub open spec fn resolve_font_spec(root: Node, profile: Seq<char>) -> Result<Seq<char>, Seq<char>> {
    let ws = match get_spec(root, "Window Settings"@) {
        Some(w) => if map_spec(w) is Some {
            Some(w)
        } else {
            None
        },
        None => None,
    };
    match ws {
        None => Err("missing Window Settings dictionary"@),
        Some(w) => {
            let ps = match get_spec(w, profile) {
                Some(p) => if map_spec(p) is Some {
                    Some(p)
                } else {
                    None
                },
                None => None,
            };
            match ps {
                None => Err("missing profile settings for "@ + profile),
                Some(p) => {
                    let direct = match get_spec(p, "Font"@) {
                        Some(v) => font_value_spec(v),
                        None => None,
                    };
                    let fallback = match get_spec(p, "Normal Font"@) {
                        Some(v) => font_value_spec(v),
                        None => None,
                    };
                    let found = match direct {
                        Some(f) => Some(f),
                        None => fallback,
                    };
                    match found {
                        None => Err("missing font descriptor for profile "@ + profile),
                        Some(f) => if f.len() == 0 {
                            Err("empty font descriptor for profile "@ + profile)
                        } else {
                            Ok(f)
                        },
                    }
                },
            }
        },
    }
}

/// The resolution of one preferences file.
pub open spec fn resolve_from_plist_spec(
    fs: Seq<(String, FileData)>,
    path: Seq<char>,
) -> ResultV {
    match archive::load_root_spec(fs, path) {
        Err(m) => config_error_spec(TerminalV::TerminalApp, m, Some(path)),
        Ok(root) => {
            let profile = match get_spec(root, "Default Window Settings"@) {
                Some(v) => match str_spec(v) {
                    Some(s) => if s.len() > 0 {
                        Some(s)
                    } else {
                        None
                    },
                    None => None,
                },
                None => None,
            };
            match profile {
                None => config_error_spec(
                    TerminalV::TerminalApp,
                    "missing Default Window Settings"@,
                    Some(path),
                ),
                Some(p) => match resolve_font_spec(root, p) {
                    Err(reason) => config_error_profile_spec(
                        TerminalV::TerminalApp,
                        reason,
                        Some(path),
                        Some(p),
                    ),
                    Ok(f) => font_result_spec(TerminalV::TerminalApp, f, path, Some(p)),
                },
            }
        },
    }
}

/// The whole Terminal.app resolution.
pub open spec fn resolve_terminal_app_spec(
    env: Seq<(String, String)>,
    fs: Seq<(String, FileData)>,
) -> ResultV {
    match home_of(env) {
        None => config_error_spec(TerminalV::TerminalApp, "HOME is not set"@, None),
        Some(home) => resolve_from_plist_spec(
            fs,
            paths::join_spec(home, "Library/Preferences/com.apple.Terminal.plist"@),
        ),
    }
}

/// The Terminal.app resolver reads only its preferences file.
pub proof fn lemma_resolve_frame(
    env: Seq<(String, String)>,
    fs1: Seq<(String, FileData)>,
    fs2: Seq<(String, FileData)>,
)
    requires
        home_of(env) matches Some(home) ==> crate::fsdata::fs_lookup(
            fs1,
            paths::join_spec(home, "Library/Preferences/com.apple.Terminal.plist"@),
        ) == crate::fsdata::fs_lookup(
            fs2,
            paths::join_spec(home, "Library/Preferences/com.apple.Terminal.plist"@),
        ),
    ensures
        resolve_terminal_app_spec(env, fs1) == resolve_terminal_app_spec(env, fs2),
{
}

/// The Terminal.app resolver always yields a well-formed result.
pub proof fn lemma_resolve_wf(env: Seq<(String, String)>, fs: Seq<(String, FileData)>)
    ensures
        crate::result_wf(resolve_terminal_app_spec(env, fs)),
{
}

/// Resolves Terminal.app's configured font from the snapshot.
pub fn resolve(vars: &Vec<(String, String)>, fs: &FsSnapshot) -> (r: DetectionResult)
    ensures
        r@ == resolve_terminal_app_spec(vars@, fs@),
{
    let home = match home_var(vars) {
        Some(h) => h,
        None => {
            return config_error(Terminal::TerminalApp, "HOME is not set".to_owned(), None);
        },
    };
    let config_path = paths::join(home, "Library/Preferences/com.apple.Terminal.plist");
    resolve_from_plist(config_path, fs)
}

fn resolve_from_plist(config_path: String, fs: &FsSnapshot) -> (r: DetectionResult)
    ensures
        r@ == resolve_from_plist_spec(fs@, config_path@),
{
    let root = match archive::load_root_dictionary(fs, config_path.as_str()) {
        Ok(root) => root,
        Err(reason) => {
            return config_error(Terminal::TerminalApp, reason, Some(config_path));
        },
    };
    let profile: String = {
        let found = match root.get("Default Window Settings") {
            Some(v) => match v.as_str() {
                Some(s) => if s.as_str().is_empty() {
                    None
                } else {
                    Some(s.clone())
                },
                None => None,
            },
            None => None,
        };
        match found {
            Some(p) => p,
            None => {
                return config_error(
                    Terminal::TerminalApp,
                    "missing Default Window Settings".to_owned(),
                    Some(config_path),
                );
            },
        }
    };
    match resolve_font(&root, profile.as_str()) {
        Ok(font) => font_result(
            Terminal::TerminalApp,
            font.as_str(),
            config_path,
            Some(profile),
        ),
        Err(reason) => config_error_profile(
            Terminal::TerminalApp,
            reason,
            Some(config_path),
            Some(profile),
        ),
    }
}

/// Extracts the named profile's font from the root dictionary.
fn resolve_font(root: &Node, profile: &str) -> (r: Result<String, String>)
    ensures
        match r {
            Ok(f) => resolve_font_spec(*root, profile@) matches Ok(m) && f@ == m,
            Err(e) => resolve_font_spec(*root, profile@) matches Err(m) && e@ == m,
        },
{
    let ws = match root.get("Window Settings") {
        Some(w) => if w.is_map() {
            Some(w)
        } else {
            None
        },
        None => None,
    };
    let ws = match ws {
        Some(w) => w,
        None => {
            return Err("missing Window Settings dictionary".to_owned());
        },
    };
    let ps = match ws.get(profile) {
        Some(p) => if p.is_map() {
            Some(p)
        } else {
            None
        },
        None => None,
    };
    let ps = match ps {
        Some(p) => p,
        None => {
            return Err("missing profile settings for ".to_owned().concat(profile));
        },
    };
    let direct = match ps.get("Font") {
        Some(v) => font_value_to_string(v),
        None => None,
    };
    let found = match direct {
        Some(f) => Some(f),
        None => match ps.get("Normal Font") {
            Some(v) => font_value_to_string(v),
            None => None,
        },
    };
    match found {
        None => Err("missing font descriptor for profile ".to_owned().concat(profile)),
        Some(f) => if f.as_str().is_empty() {
            Err("empty font descriptor for profile ".to_owned().concat(profile))
        } else {
            Ok(f)
        },
    }
}

/// Reads a font name out of one profile value.
fn font_value_to_string(value: &Node) -> (r: Option<String>)
    ensures
        match r {
            Some(s) => font_value_spec(*value) == Some(s@),
            None => font_value_spec(*value) is None,
        },
{
    if let Some(s) = value.as_str() {
        return Some(s.clone());
    }
    if value.is_map() {
        return match value.get("FontName") {
            Some(v) => match v.as_str() {
                Some(s) => Some(s.clone()),
                None => None,
            },
            None => None,
        };
    }
    archive::font_name_from_keyed_archive(value)
}

} // verus!
