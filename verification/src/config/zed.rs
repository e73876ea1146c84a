//! The Zed resolver: merges project and user settings and prefers the
//! terminal font (`terminal.font_family`) over the buffer font
//! (`buffer_font_family`), project over user within each.

use vstd::prelude::*;

use crate::config::{
    ProjectFind, ProjectFindV, SettingsRead, SettingsReadV, config_error, config_error_spec,
    find_project_settings, find_project_spec, font_result, font_result_spec, home_of, home_var,
    read_json5_settings, read_json5_spec,
};
use crate::doc::{Node, get_spec, str_spec};
use crate::fsdata::{FileData, FsSnapshot};
use crate::paths;
use crate::types::{DetectionResult, ResultV, Terminal, TerminalV};

verus! {

/// The nested `terminal.font_family` string of a Zed document.
pub open spec fn terminal_font_spec(d: Node) -> Option<Seq<char>> {
    match get_spec(d, "terminal"@) {
        None => None,
        Some(t) => match get_spec(t, "font_family"@) {
            None => None,
            Some(f) => str_spec(f),
        },
    }
}

/// The flat `buffer_font_family` string of a Zed document.
pub open spec fn buffer_font_spec(d: Node) -> Option<Seq<char>> {
    match get_spec(d, "buffer_font_family"@) {
        None => None,
        Some(f) => str_spec(f),
    }
}

/// The effective font: terminal font over buffer font, project over user
/// within each.  The flag says whether the winner came from the project
/// settings.
pub open spec fn effective_font_spec(project: Option<Node>, user: Option<Node>) -> Option<
    (Seq<char>, bool),
> {
    let pt = match project {
        Some(d) => terminal_font_spec(d),
        None => None,
    };
    let ut = match user {
        Some(d) => terminal_font_spec(d),
        None => None,
    };
    let pb = match project {
        Some(d) => buffer_font_spec(d),
        None => None,
    };
    let ub = match user {
        Some(d) => buffer_font_spec(d),
        None => None,
    };
    match pt {
        Some(f) => Some((f, true)),
        None => match ut {
            Some(f) => Some((f, false)),
            None => match pb {
                Some(f) => Some((f, true)),
                None => match ub {
                    Some(f) => Some((f, false)),
                    None => None,
                },
            },
        },
    }
}

/// The resolution once home and both settings layers are known.
pub open spec fn merge_spec(
    project: ProjectFindV,
    user: SettingsReadV,
    user_path: Seq<char>,
) -> ResultV {
    match project {
        ProjectFindV::Failed(reason, path) => config_error_spec(
            TerminalV::Zed,
            reason,
            Some(path),
        ),
        _ => match user {
            SettingsReadV::Failed(reason) => config_error_spec(
                TerminalV::Zed,
                reason,
                Some(user_path),
            ),
            _ => {
                let project_doc = match project {
                    ProjectFindV::Found(d, p) => Some(d),
                    _ => None,
                };
                let project_path = match project {
                    ProjectFindV::Found(d, p) => Some(p),
                    _ => None,
                };
                let user_doc = match user {
                    SettingsReadV::Doc(d) => Some(d),
                    _ => None,
                };
                if project_doc is None && user_doc is None {
                    config_error_spec(TerminalV::Zed, "no settings file found"@, None)
                } else {
                    match effective_font_spec(project_doc, user_doc) {
                        Some((fam, true)) => font_result_spec(
                            TerminalV::Zed,
                            fam,
                            match project_path {
                                Some(p) => p,
                                None => user_path,
                            },
                            None,
                        ),
                        Some((fam, false)) => font_result_spec(
                            TerminalV::Zed,
                            fam,
                            user_path,
                            None,
                        ),
                        None => config_error_spec(
                            TerminalV::Zed,
                            "no font configured"@,
                            if project_doc is Some {
                                project_path
                            } else {
                                Some(user_path)
                            },
                        ),
                    }
                }
            },
        },
    }
}

/// The whole Zed resolution.
pub open spec fn resolve_zed_spec(
    env: Seq<(String, String)>,
    cwd: Seq<char>,
    fs: Seq<(String, FileData)>,
) -> ResultV {
    match home_of(env) {
        None => config_error_spec(TerminalV::Zed, "HOME is not set"@, None),
        Some(home) => {
            let user_path = paths::join_spec(home, ".config/zed/settings.json"@);
            merge_spec(
                find_project_spec(fs, cwd, home, ".zed"@),
                read_json5_spec(fs, user_path),
                user_path,
            )
        },
    }
}

/// The Zed resolver reads only the walk's candidates and the user settings
/// file.
pub proof fn lemma_resolve_frame(
    env: Seq<(String, String)>,
    cwd: Seq<char>,
    fs1: Seq<(String, FileData)>,
    fs2: Seq<(String, FileData)>,
)
    requires
        home_of(env) matches Some(home) ==> {
            &&& crate::fsdata::fs_agree_on(
                fs1,
                fs2,
                crate::config::walk_candidates_spec(cwd, home, ".zed"@),
            )
            &&& crate::fsdata::fs_lookup(fs1, paths::join_spec(home, ".config/zed/settings.json"@))
                == crate::fsdata::fs_lookup(
                fs2,
                paths::join_spec(home, ".config/zed/settings.json"@),
            )
        },
    ensures
        resolve_zed_spec(env, cwd, fs1) == resolve_zed_spec(env, cwd, fs2),
{
    match home_of(env) {
        Some(home) => {
            crate::config::lemma_find_project_frame(fs1, fs2, cwd, home, ".zed"@);
        },
        None => {},
    }
}

/// The Zed resolver always yields a well-formed result.
pub proof fn lemma_resolve_wf(
    env: Seq<(String, String)>,
    cwd: Seq<char>,
    fs: Seq<(String, FileData)>,
)
    ensures
        crate::result_wf(resolve_zed_spec(env, cwd, fs)),
{
}

/// Resolves Zed's configured font from the snapshot.
pub fn resolve(vars: &Vec<(String, String)>, cwd: &str, fs: &FsSnapshot) -> (r: DetectionResult)
    ensures
        r@ == resolve_zed_spec(vars@, cwd@, fs@),
{
    let home = match home_var(vars) {
        Some(h) => h,
        None => {
            return config_error(Terminal::Zed, "HOME is not set".to_owned(), None);
        },
    };
    let user_path = paths::join(home, ".config/zed/settings.json");
    let project = find_project_settings(fs, cwd, home, ".zed");
    if let ProjectFind::Failed(reason, path) = project {
        return config_error(Terminal::Zed, reason, Some(path));
    }
    let user = read_json5_settings(fs, user_path.as_str());
    if let SettingsRead::Failed(reason) = user {
        return config_error(Terminal::Zed, reason, Some(user_path));
    }
    let (project_doc, project_path): (Option<Node>, Option<String>) = match project {
        ProjectFind::Found(d, p) => (Some(d), Some(p)),
        _ => (None, None),
    };
    let user_doc: Option<Node> = match user {
        SettingsRead::Doc(d) => Some(d),
        _ => None,
    };
    if project_doc.is_none() && user_doc.is_none() {
        return config_error(Terminal::Zed, "no settings file found".to_owned(), None);
    }
    match effective_font(&project_doc, &user_doc) {
        Some((family, true)) => {
            let family = family.clone();
            let path = match project_path {
                Some(p) => p,
                None => user_path,
            };
            font_result(Terminal::Zed, family.as_str(), path, None)
        },
        Some((family, false)) => {
            let family = family.clone();
            font_result(Terminal::Zed, family.as_str(), user_path, None)
        },
        None => config_error(
            Terminal::Zed,
            "no font configured".to_owned(),
            if project_doc.is_some() {
                project_path
            } else {
                Some(user_path)
            },
        ),
    }
}

/// The effective font from the two settings layers.
fn effective_font<'a>(project: &'a Option<Node>, user: &'a Option<Node>) -> (r: Option<
    (&'a String, bool),
>)
    ensures
        match r {
            Some(p) => effective_font_spec(*project, *user) == Some((p.0@, p.1)),
            None => effective_font_spec(*project, *user) is None,
        },
{
    let pt = doc_terminal_font(project);
    if let Some(f) = pt {
        return Some((f, true));
    }
    let ut = doc_terminal_font(user);
    if let Some(f) = ut {
        return Some((f, false));
    }
    let pb = doc_buffer_font(project);
    if let Some(f) = pb {
        return Some((f, true));
    }
    let ub = doc_buffer_font(user);
    if let Some(f) = ub {
        return Some((f, false));
    }
    None
}

fn doc_terminal_font<'a>(doc: &'a Option<Node>) -> (r: Option<&'a String>)
    ensures
        match r {
            Some(s) => (doc matches Some(d) && terminal_font_spec(*d) == Some(s@)),
            None => match doc {
                Some(d) => terminal_font_spec(*d) is None,
                None => true,
            },
        },
{
    match doc {
        Some(d) => match d.get("terminal") {
            Some(t) => match t.get("font_family") {
                Some(v) => v.as_str(),
                None => None,
            },
            None => None,
        },
        None => None,
    }
}

fn doc_buffer_font<'a>(doc: &'a Option<Node>) -> (r: Option<&'a String>)
    ensures
        match r {
            Some(s) => (doc matches Some(d) && buffer_font_spec(*d) == Some(s@)),
            None => match doc {
                Some(d) => buffer_font_spec(*d) is None,
                None => true,
            },
        },
{
    match doc {
        Some(d) => match d.get("buffer_font_family") {
            Some(v) => v.as_str(),
            None => None,
        },
        None => None,
    }
}

} // verus!
