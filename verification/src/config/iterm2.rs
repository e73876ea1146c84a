//! The iTerm2 resolver: reads the preferences property list, selects the
//! active bookmark by the profile-name variable or the default bookmark
//! GUID, and reads its `Normal Font`.

use vstd::prelude::*;

use crate::archive;
use crate::config::{
    config_error, config_error_profile, config_error_profile_spec, config_error_spec, font_result,
    font_result_spec, home_of, home_var,
};
use crate::doc::{Node, arr_spec, get_spec, map_spec, str_spec};
use crate::fsdata::{FileData, FsSnapshot};
use crate::paths;
use crate::strutil;
use crate::types::{DetectionResult, ResultV, Terminal, TerminalV};
use crate::var_lookup;

verus! {

use vstd::string::StringExecFns;

/// A bookmark entry matches when it is a dictionary whose `key` holds the
/// string `val`.
pub open spec fn bookmark_matches(n: Node, key: Seq<char>, val: Seq<char>) -> bool {
    map_spec(n) is Some && match get_spec(n, key) {
        Some(v) => str_spec(v) == Some(val),
        None => false,
    }
}

/// The first bookmark that matches, if any.
pub open spec fn find_bookmark_spec(items: Seq<Node>, key: Seq<char>, val: Seq<char>) -> Option<
    Node,
>
    decreases items.len(),
{
    if items.len() == 0 {
        None
    } else if bookmark_matches(items[0], key, val) {
        Some(items[0])
    } else {
        find_bookmark_spec(items.drop_first(), key, val)
    }
}

/// The non-empty `Name` of a bookmark, if it has one.
pub open spec fn bookmark_profile_spec(b: Node) -> Option<Seq<char>> {
    match get_spec(b, "Name"@) {
        Some(v) => match str_spec(v) {
            Some(s) => if s.len() > 0 {
                Some(s)
            } else {
                None
            },
            None => None,
        },
        None => None,
    }
}

/// The resolution once a bookmark has been selected.
pub open spec fn from_bookmark_spec(b: Node, path: Seq<char>) -> ResultV {
    let profile = bookmark_profile_spec(b);
    let raw = match get_spec(b, "Normal Font"@) {
        Some(v) => str_spec(v),
        None => None,
    };
    match raw {
        None => config_error_profile_spec(
            TerminalV::ITerm2,
            "missing Normal Font for "@ + profile_or_bookmark(profile),
            Some(path),
            profile,
        ),
        Some(f) => if strutil::trim_spec(f).len() == 0 {
            config_error_profile_spec(
                TerminalV::ITerm2,
                "empty Normal Font for "@ + profile_or_bookmark(profile),
                Some(path),
                profile,
            )
        } else {
            font_result_spec(TerminalV::ITerm2, f, path, profile)
        },
    }
}

/// The profile name for a diagnostic, or the word `bookmark`.
pub open spec fn profile_or_bookmark(profile: Option<Seq<char>>) -> Seq<char> {
    match profile {
        Some(p) => p,
        None => "bookmark"@,
    }
}

/// The resolution of one preferences file.
pub open spec fn resolve_from_plist_spec(
    fs: Seq<(String, FileData)>,
    path: Seq<char>,
    iterm_profile: Option<Seq<char>>,
) -> ResultV {
    match archive::load_root_spec(fs, path) {
        Err(m) => config_error_spec(TerminalV::ITerm2, m, Some(path)),
        Ok(root) => {
            let bookmarks = match get_spec(root, "New Bookmarks"@) {
                Some(v) => arr_spec(v),
                None => None,
            };
            match bookmarks {
                None => config_error_spec(
                    TerminalV::ITerm2,
                    "missing New Bookmarks array"@,
                    Some(path),
                ),
                Some(items) => match iterm_profile {
                    Some(name) => match find_bookmark_spec(items, "Name"@, name) {
                        None => config_error_profile_spec(
                            TerminalV::ITerm2,
                            "missing bookmark for profile "@ + name,
                            Some(path),
                            Some(name),
                        ),
                        Some(b) => from_bookmark_spec(b, path),
                    },
                    None => {
                        let guid = match get_spec(root, "Default Bookmark Guid"@) {
                            Some(v) => match str_spec(v) {
                                Some(g) => if g.len() > 0 {
                                    Some(g)
                                } else {
                                    None
                                },
                                None => None,
                            },
                            None => None,
                        };
                        match guid {
                            None => config_error_spec(
                                TerminalV::ITerm2,
                                "missing Default Bookmark Guid"@,
                                Some(path),
                            ),
                            Some(g) => match find_bookmark_spec(items, "Guid"@, g) {
                                None => config_error_spec(
                                    TerminalV::ITerm2,
                                    "missing bookmark for guid "@ + g,
                                    Some(path),
                                ),
                                Some(b) => from_bookmark_spec(b, path),
                            },
                        }
                    },
                },
            }
        },
    }
}

/// The whole iTerm2 resolution.
pub open spec fn resolve_iterm2_spec(
    env: Seq<(String, String)>,
    fs: Seq<(String, FileData)>,
) -> ResultV {
    match home_of(env) {
        None => config_error_spec(TerminalV::ITerm2, "HOME is not set"@, None),
        Some(home) => resolve_from_plist_spec(
            fs,
            paths::join_spec(home, "Library/Preferences/com.googlecode.iterm2.plist"@),
            var_lookup(env, "ITERM_PROFILE"@),
        ),
    }
}

/// The iTerm2 resolver reads only its preferences file.
pub proof fn lemma_resolve_frame(
    env: Seq<(String, String)>,
    fs1: Seq<(String, FileData)>,
    fs2: Seq<(String, FileData)>,
)
    requires
        home_of(env) matches Some(home) ==> crate::fsdata::fs_lookup(
            fs1,
            paths::join_spec(home, "Library/Preferences/com.googlecode.iterm2.plist"@),
        ) == crate::fsdata::fs_lookup(
            fs2,
            paths::join_spec(home, "Library/Preferences/com.googlecode.iterm2.plist"@),
        ),
    ensures
        resolve_iterm2_spec(env, fs1) == resolve_iterm2_spec(env, fs2),
{
}

/// The iTerm2 resolver always yields a well-formed result.
pub proof fn lemma_resolve_wf(env: Seq<(String, String)>, fs: Seq<(String, FileData)>)
    ensures
        crate::result_wf(resolve_iterm2_spec(env, fs)),
{
}

/// Resolves iTerm2's configured font from the snapshot.
pub fn resolve(vars: &Vec<(String, String)>, fs: &FsSnapshot) -> (r: DetectionResult)
    ensures
        r@ == resolve_iterm2_spec(vars@, fs@),
{
    let home = match home_var(vars) {
        Some(h) => h,
        None => {
            return config_error(Terminal::ITerm2, "HOME is not set".to_owned(), None);
        },
    };
    let iterm_profile: Option<String> = match crate::var(vars, "ITERM_PROFILE") {
        Some(p) => Some(p.to_owned()),
        None => None,
    };
    let config_path = paths::join(home, "Library/Preferences/com.googlecode.iterm2.plist");
    resolve_from_plist(fs, config_path, iterm_profile)
}

fn resolve_from_plist(
    fs: &FsSnapshot,
    config_path: String,
    iterm_profile: Option<String>,
) -> (r: DetectionResult)
    ensures
        r@ == resolve_from_plist_spec(
            fs@,
            config_path@,
            match iterm_profile {
                Some(p) => Some(p@),
                None => None,
            },
        ),
{
    let root = match archive::load_root_dictionary(fs, config_path.as_str()) {
        Ok(root) => root,
        Err(reason) => {
            return config_error(Terminal::ITerm2, reason, Some(config_path));
        },
    };
    let bookmarks = match root.get("New Bookmarks") {
        Some(v) => v.as_arr(),
        None => None,
    };
    let bookmarks = match bookmarks {
        Some(items) => items,
        None => {
            return config_error(
                Terminal::ITerm2,
                "missing New Bookmarks array".to_owned(),
                Some(config_path),
            );
        },
    };
    let bookmark: &Node = match &iterm_profile {
        Some(profile_name) => {
            match find_bookmark(bookmarks, "Name", profile_name.as_str()) {
                Some(b) => b,
                None => {
                    return config_error_profile(
                        Terminal::ITerm2,
                        "missing bookmark for profile ".to_owned().concat(profile_name.as_str()),
                        Some(config_path),
                        Some(profile_name.clone()),
                    );
                },
            }
        },
        None => {
            let guid = match root.get("Default Bookmark Guid") {
                Some(v) => match v.as_str() {
                    Some(g) => if g.as_str().is_empty() {
                        None
                    } else {
                        Some(g)
                    },
                    None => None,
                },
                None => None,
            };
            let guid = match guid {
                Some(g) => g,
                None => {
                    return config_error(
                        Terminal::ITerm2,
                        "missing Default Bookmark Guid".to_owned(),
                        Some(config_path),
                    );
                },
            };
            match find_bookmark(bookmarks, "Guid", guid.as_str()) {
                Some(b) => b,
                None => {
                    return config_error(
                        Terminal::ITerm2,
                        "missing bookmark for guid ".to_owned().concat(guid.as_str()),
                        Some(config_path),
                    );
                },
            }
        },
    };
    from_bookmark(bookmark, config_path)
}

/// Extracts the profile name and font of the selected bookmark.
fn from_bookmark(bookmark: &Node, config_path: String) -> (r: DetectionResult)
    ensures
        r@ == from_bookmark_spec(*bookmark, config_path@),
{
    let profile: Option<String> = match bookmark.get("Name") {
        Some(v) => match v.as_str() {
            Some(s) => if s.as_str().is_empty() {
                None
            } else {
                Some(s.clone())
            },
            None => None,
        },
        None => None,
    };
    let raw = match bookmark.get("Normal Font") {
        Some(v) => v.as_str(),
        None => None,
    };
    match raw {
        None => {
            let reason = "missing Normal Font for ".to_owned().concat(profile_or_bookmark_str(
                &profile,
            ));
            config_error_profile(Terminal::ITerm2, reason, Some(config_path), profile)
        },
        Some(f) => {
            let font_name = crate::font::normalize_font_name(f.as_str());
            if font_name.as_str().is_empty() {
                let reason = "empty Normal Font for ".to_owned().concat(profile_or_bookmark_str(
                    &profile,
                ));
                config_error_profile(Terminal::ITerm2, reason, Some(config_path), profile)
            } else {
                let f = f.clone();
                font_result(Terminal::ITerm2, f.as_str(), config_path, profile)
            }
        },
    }
}

fn profile_or_bookmark_str<'a>(profile: &'a Option<String>) -> (r: &'a str)
    ensures
        r@ == profile_or_bookmark(
            match profile {
                Some(p) => Some(p@),
                None => None,
            },
        ),
{
    match profile {
        Some(p) => p.as_str(),
        None => "bookmark",
    }
}

/// Finds the first bookmark dictionary whose `key` holds `val`.
fn find_bookmark<'a>(items: &'a Vec<Node>, key: &str, val: &str) -> (r: Option<&'a Node>)
    ensures
        match r {
            Some(b) => find_bookmark_spec(items@, key@, val@) == Some(*b),
            None => find_bookmark_spec(items@, key@, val@) is None,
        },
{
    let n = items.len();
    let mut i: usize = 0;
    proof {
        assert(items@.subrange(0, n as int) =~= items@);
    }
    while i < n
        invariant
            0 <= i <= n,
            n == items@.len(),
            find_bookmark_spec(items@, key@, val@) == find_bookmark_spec(
                items@.subrange(i as int, n as int),
                key@,
                val@,
            ),
        decreases n - i,
    {
        proof {
            assert(items@.subrange(i as int, n as int)[0] == items@[i as int]);
            assert(items@.subrange(i as int, n as int).drop_first() =~= items@.subrange(
                i + 1,
                n as int,
            ));
        }
        let item = &items[i];
        if item.is_map() {
            let matched = match item.get(key) {
                Some(v) => match v.as_str() {
                    Some(s) => strutil::str_eq(s.as_str(), val),
                    None => false,
                },
                None => false,
            };
            if matched {
                return Some(item);
            }
        }
        i = i + 1;
    }
    None
}

} // verus!
