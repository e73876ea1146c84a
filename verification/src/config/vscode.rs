//! The VS Code resolver: picks the fork from the git-askpass helper path,
//! merges project and user settings, and prefers the terminal-integrated
//! font over the editor font.

use vstd::prelude::*;

use crate::config::{
    ProjectFind, ProjectFindV, SettingsRead, SettingsReadV, config_error, config_error_spec,
    find_project_settings, find_project_spec, font_result, font_result_spec, home_of, home_var,
    read_json5_settings, read_json5_spec,
};
use crate::doc::{Node, get_spec, str_spec};
use crate::fsdata::{FileData, FsSnapshot};
use crate::paths;
use crate::strutil;
use crate::types::{DetectionResult, ResultV, Terminal, TerminalV};
use crate::var_lookup;

verus! {

/// The string under one flat settings key.
pub open spec fn settings_font(d: Node, key: Seq<char>) -> Option<Seq<char>> {
    match get_spec(d, key) {
        None => None,
        Some(v) => str_spec(v),
    }
}

/// The user-settings directory name the askpass helper path names: a path
/// mentioning `code` is stock VS Code, one mentioning `codium` is VSCodium.
pub open spec fn app_dir_of(askpass: Seq<char>) -> Option<Seq<char>> {
    if strutil::seq_contains(strutil::lower(askpass), "code"@) {
        Some("Code"@)
    } else if strutil::seq_contains(strutil::lower(askpass), "codium"@) {
        Some("VSCodium"@)
    } else {
        None
    }
}

/// The effective font: terminal font over editor font, and within each, the
/// project settings over the user settings.  The flag says whether the
/// winner came from the project settings.
pub open spec fn effective_font_spec(project: Option<Node>, user: Option<Node>) -> Option<
    (Seq<char>, bool),
> {
    let pt = match project {
        Some(d) => settings_font(d, "terminal.integrated.fontFamily"@),
        None => None,
    };
    let ut = match user {
        Some(d) => settings_font(d, "terminal.integrated.fontFamily"@),
        None => None,
    };
    let pe = match project {
        Some(d) => settings_font(d, "editor.fontFamily"@),
        None => None,
    };
    let ue = match user {
        Some(d) => settings_font(d, "editor.fontFamily"@),
        None => None,
    };
    match pt {
        Some(f) => Some((f, true)),
        None => match ut {
            Some(f) => Some((f, false)),
            None => match pe {
                Some(f) => Some((f, true)),
                None => match ue {
                    Some(f) => Some((f, false)),
                    None => None,
                },
            },
        },
    }
}

/// The user settings path for a fork's application directory.
pub open spec fn user_settings_path_spec(home: Seq<char>, app_dir: Seq<char>) -> Seq<char> {
    paths::join_spec(home, ".config/"@ + app_dir + "/User/settings.json"@)
}

/// The resolution once home, fork and both settings layers are known.
pub open spec fn merge_spec(
    project: ProjectFindV,
    user: SettingsReadV,
    user_path: Seq<char>,
) -> ResultV {
    match project {
        ProjectFindV::Failed(reason, path) => config_error_spec(
            TerminalV::Vscode,
            reason,
            Some(path),
        ),
        _ => match user {
            SettingsReadV::Failed(reason) => config_error_spec(
                TerminalV::Vscode,
                reason,
                Some(user_path),
            ),
            _ => {
                let project_doc = match project {
                    ProjectFindV::Found(d, p) => Some(d),
                    _ => None,
                };
                let project_path = match project {
                    ProjectFindV::Found(d, p) => Some(p),
                    _ => None,
                };
                let user_doc = match user {
                    SettingsReadV::Doc(d) => Some(d),
                    _ => None,
                };
                if project_doc is None && user_doc is None {
                    config_error_spec(TerminalV::Vscode, "no settings file found"@, None)
                } else {
                    match effective_font_spec(project_doc, user_doc) {
                        Some((fam, true)) => font_result_spec(
                            TerminalV::Vscode,
                            fam,
                            match project_path {
                                Some(p) => p,
                                None => user_path,
                            },
                            None,
                        ),
                        Some((fam, false)) => font_result_spec(
                            TerminalV::Vscode,
                            fam,
                            user_path,
                            None,
                        ),
                        None => config_error_spec(
                            TerminalV::Vscode,
                            "no font configured"@,
                            if project_doc is Some {
                                project_path
                            } else {
                                Some(user_path)
                            },
                        ),
                    }
                }
            },
        },
    }
}

/// The whole VS Code resolution.
pub open spec fn resolve_vscode_spec(
    env: Seq<(String, String)>,
    cwd: Seq<char>,
    fs: Seq<(String, FileData)>,
) -> ResultV {
    match home_of(env) {
        None => config_error_spec(TerminalV::Vscode, "HOME is not set"@, None),
        Some(home) => {
            let askpass = match var_lookup(env, "VSCODE_GIT_ASKPASS_NODE"@) {
                Some(a) => if a.len() > 0 {
                    Some(a)
                } else {
                    None
                },
                None => None,
            };
            match askpass {
                None => config_error_spec(
                    TerminalV::Vscode,
                    "VSCODE_GIT_ASKPASS_NODE is not set"@,
                    None,
                ),
                Some(a) => match app_dir_of(a) {
                    None => config_error_spec(
                        TerminalV::Vscode,
                        "unrecognized VSCODE_GIT_ASKPASS_NODE: "@ + a,
                        None,
                    ),
                    Some(app_dir) => {
                        let user_path = user_settings_path_spec(home, app_dir);
                        merge_spec(
                            find_project_spec(fs, cwd, home, ".vscode"@),
                            read_json5_spec(fs, user_path),
                            user_path,
                        )
                    },
                },
            }
        },
    }
}

/// The VS Code resolver reads only the walk's candidates and the two
/// possible user settings files.
pub proof fn lemma_resolve_frame(
    env: Seq<(String, String)>,
    cwd: Seq<char>,
    fs1: Seq<(String, FileData)>,
    fs2: Seq<(String, FileData)>,
)
    requires
        home_of(env) matches Some(home) ==> {
            &&& crate::fsdata::fs_agree_on(
                fs1,
                fs2,
                crate::config::walk_candidates_spec(cwd, home, ".vscode"@),
            )
            &&& crate::fsdata::fs_lookup(fs1, user_settings_path_spec(home, "Code"@))
                == crate::fsdata::fs_lookup(fs2, user_settings_path_spec(home, "Code"@))
            &&& crate::fsdata::fs_lookup(fs1, user_settings_path_spec(home, "VSCodium"@))
                == crate::fsdata::fs_lookup(fs2, user_settings_path_spec(home, "VSCodium"@))
        },
    ensures
        resolve_vscode_spec(env, cwd, fs1) == resolve_vscode_spec(env, cwd, fs2),
{
    match home_of(env) {
        Some(home) => {
            crate::config::lemma_find_project_frame(fs1, fs2, cwd, home, ".vscode"@);
        },
        None => {},
    }
}

/// The VS Code resolver always yields a well-formed result.
pub proof fn lemma_resolve_wf(
    env: Seq<(String, String)>,
    cwd: Seq<char>,
    fs: Seq<(String, FileData)>,
)
    ensures
        crate::result_wf(resolve_vscode_spec(env, cwd, fs)),
{
}

/// Resolves VS Code's configured font from the snapshot.
pub fn resolve(vars: &Vec<(String, String)>, cwd: &str, fs: &FsSnapshot) -> (r: DetectionResult)
    ensures
        r@ == resolve_vscode_spec(vars@, cwd@, fs@),
{
    let home = match home_var(vars) {
        Some(h) => h,
        None => {
            return config_error(Terminal::Vscode, "HOME is not set".to_owned(), None);
        },
    };
    let askpass = match crate::var(vars, "VSCODE_GIT_ASKPASS_NODE") {
        Some(a) => if a.is_empty() {
            None
        } else {
            Some(a)
        },
        None => None,
    };
    let askpass = match askpass {
        Some(a) => a,
        None => {
            return config_error(
                Terminal::Vscode,
                "VSCODE_GIT_ASKPASS_NODE is not set".to_owned(),
                None,
            );
        },
    };
    let app_dir = resolve_app_dir(askpass);
    let app_dir = match app_dir {
        Some(d) => d,
        None => {
            return config_error(
                Terminal::Vscode,
                "unrecognized VSCODE_GIT_ASKPASS_NODE: ".to_owned().concat(askpass),
                None,
            );
        },
    };
    let user_path = user_settings_path(home, app_dir);
    let project = find_project_settings(fs, cwd, home, ".vscode");
    if let ProjectFind::Failed(reason, path) = project {
        return config_error(Terminal::Vscode, reason, Some(path));
    }
    let user = read_json5_settings(fs, user_path.as_str());
    if let SettingsRead::Failed(reason) = user {
        return config_error(Terminal::Vscode, reason, Some(user_path));
    }
    let (project_doc, project_path): (Option<Node>, Option<String>) = match project {
        ProjectFind::Found(d, p) => (Some(d), Some(p)),
        _ => (None, None),
    };
    let user_doc: Option<Node> = match user {
        SettingsRead::Doc(d) => Some(d),
        _ => None,
    };
    if project_doc.is_none() && user_doc.is_none() {
        return config_error(Terminal::Vscode, "no settings file found".to_owned(), None);
    }
    match effective_font(&project_doc, &user_doc) {
        Some((family, true)) => {
            let family = family.clone();
            let path = match project_path {
                Some(p) => p,
                None => user_path,
            };
            font_result(Terminal::Vscode, family.as_str(), path, None)
        },
        Some((family, false)) => {
            let family = family.clone();
            font_result(Terminal::Vscode, family.as_str(), user_path, None)
        },
        None => config_error(
            Terminal::Vscode,
            "no font configured".to_owned(),
            if project_doc.is_some() {
                project_path
            } else {
                Some(user_path)
            },
        ),
    }
}

/// Picks the fork's application directory from the askpass helper path.
fn resolve_app_dir(askpass: &str) -> (r: Option<&'static str>)
    ensures
        match r {
            Some(d) => app_dir_of(askpass@) == Some(d@),
            None => app_dir_of(askpass@) is None,
        },
{
    proof {
        reveal_strlit("code");
        reveal_strlit("codium");
        strutil::lemma_lower_fixed("code"@);
        strutil::lemma_lower_fixed("codium"@);
    }
    if strutil::contains_nocase(askpass, "code") {
        Some("Code")
    } else if strutil::contains_nocase(askpass, "codium") {
        Some("VSCodium")
    } else {
        None
    }
}

/// The path of the user settings for the given application directory.
pub fn user_settings_path(home: &str, app_dir: &str) -> (r: String)
    ensures
        r@ == user_settings_path_spec(home@, app_dir@),
{
    paths::join(home, strutil::concat3(".config/", app_dir, "/User/settings.json").as_str())
}

/// The effective font from the two settings layers.
fn effective_font<'a>(project: &'a Option<Node>, user: &'a Option<Node>) -> (r: Option<
    (&'a String, bool),
>)
    ensures
        match r {
            Some(p) => effective_font_spec(*project, *user) == Some((p.0@, p.1)),
            None => effective_font_spec(*project, *user) is None,
        },
{
    let pt = doc_font(project, "terminal.integrated.fontFamily");
    if let Some(f) = pt {
        return Some((f, true));
    }
    let ut = doc_font(user, "terminal.integrated.fontFamily");
    if let Some(f) = ut {
        return Some((f, false));
    }
    let pe = doc_font(project, "editor.fontFamily");
    if let Some(f) = pe {
        return Some((f, true));
    }
    let ue = doc_font(user, "editor.fontFamily");
    if let Some(f) = ue {
        return Some((f, false));
    }
    None
}

fn doc_font<'a>(doc: &'a Option<Node>, key: &str) -> (r: Option<&'a String>)
    ensures
        match r {
            Some(s) => (doc matches Some(d) && settings_font(*d, key@) == Some(s@)),
            None => match doc {
                Some(d) => settings_font(*d, key@) is None,
                None => true,
            },
        },
{
    match doc {
        Some(d) => match d.get(key) {
            Some(v) => v.as_str(),
            None => None,
        },
        None => None,
    }
}

} // verus!
