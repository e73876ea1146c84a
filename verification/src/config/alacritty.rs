//! The Alacritty resolver: tries a chain of candidate configuration paths,
//! uses the first file that exists, and reads `font.normal.family`.

use vstd::prelude::*;

use crate::config::{
    SettingsRead, SettingsReadV, config_error, config_error_spec, home_of, home_var,
    read_toml_settings, read_toml_spec,
};
use crate::doc::{Node, get_spec, str_spec};
use crate::font;
use crate::fsdata::{FileData, FsSnapshot};
use crate::paths;
use crate::strutil;
use crate::types::{Confidence, DetectionResult, DetectionSource, ResultV, Terminal, TerminalV};
use crate::var_lookup;

verus! {

/// The `font.normal.family` string of an Alacritty document.
pub open spec fn font_family_spec(d: Node) -> Option<Seq<char>> {
    match get_spec(d, "font"@) {
        None => None,
        Some(f) => match get_spec(f, "normal"@) {
            None => None,
            Some(nr) => match get_spec(nr, "family"@) {
                None => None,
                Some(fam) => str_spec(fam),
            },
        },
    }
}

/// The explicit XDG configuration home: accepted only when non-empty and
/// absolute.
pub open spec fn xdg_of(env: Seq<(String, String)>) -> Option<Seq<char>> {
    match var_lookup(env, "XDG_CONFIG_HOME"@) {
        Some(x) => if x.len() > 0 && paths::is_absolute_spec(x) {
            Some(x)
        } else {
            None
        },
        None => None,
    }
}

/// The candidate configuration paths, most specific first.  The
/// `$HOME/.config` pair is added separately only when the XDG override is
/// set, since otherwise it would duplicate the first candidates.
pub open spec fn candidates_spec(env: Seq<(String, String)>, home: Seq<char>) -> Seq<Seq<char>> {
    let cfg = match xdg_of(env) {
        Some(x) => x,
        None => paths::join_spec(home, ".config"@),
    };
    let base = seq![
        paths::join_spec(cfg, "alacritty/alacritty.toml"@),
        paths::join_spec(cfg, "alacritty.toml"@),
    ];
    let with_explicit = if xdg_of(env) is Some {
        base.push(paths::join_spec(home, ".config/alacritty/alacritty.toml"@))
    } else {
        base
    };
    with_explicit.push(paths::join_spec(home, ".alacritty.toml"@)).push(
        "/etc/alacritty/alacritty.toml"@,
    )
}

/// What resolving one parsed document yields.
pub open spec fn from_config_spec(d: Node, path: Seq<char>) -> ResultV {
    match font_family_spec(d) {
        Some(fam) => ResultV {
            detected: Some(font::is_nerd_font_spec(strutil::trim_spec(fam))),
            source: DetectionSource::TerminalConfig,
            terminal: Some(TerminalV::Alacritty),
            font: Some(strutil::trim_spec(fam)),
            config_path: Some(path),
            profile: None,
            error_reason: None,
            confidence: Confidence::Certain,
        },
        None => config_error_spec(TerminalV::Alacritty, "no font configured"@, Some(path)),
    }
}

/// Trying the candidates in order: the first existing file wins; a file that
/// exists but cannot be read or parsed is fatal.
pub open spec fn try_candidates_spec(
    fs: Seq<(String, FileData)>,
    cands: Seq<Seq<char>>,
) -> ResultV
    decreases cands.len(),
{
    if cands.len() == 0 {
        config_error_spec(TerminalV::Alacritty, "no config file found"@, None)
    } else {
        match read_toml_spec(fs, cands[0]) {
            SettingsReadV::Absent => try_candidates_spec(fs, cands.drop_first()),
            SettingsReadV::Failed(reason) => config_error_spec(
                TerminalV::Alacritty,
                reason,
                Some(cands[0]),
            ),
            SettingsReadV::Doc(d) => from_config_spec(d, cands[0]),
        }
    }
}

/// The whole Alacritty resolution.
pub open spec fn resolve_alacritty_spec(
    env: Seq<(String, String)>,
    fs: Seq<(String, FileData)>,
) -> ResultV {
    match home_of(env) {
        None => config_error_spec(TerminalV::Alacritty, "HOME is not set"@, None),
        Some(home) => try_candidates_spec(fs, candidates_spec(env, home)),
    }
}

/// Trying the candidates reads nothing but the candidates: snapshots that
/// agree on them resolve alike.
pub proof fn lemma_try_candidates_frame(
    fs1: Seq<(String, FileData)>,
    fs2: Seq<(String, FileData)>,
    cands: Seq<Seq<char>>,
)
    requires
        crate::fsdata::fs_agree_on(fs1, fs2, cands),
    ensures
        try_candidates_spec(fs1, cands) == try_candidates_spec(fs2, cands),
    decreases cands.len(),
{
    if cands.len() > 0 {
        assert(crate::fsdata::fs_lookup(fs1, cands[0]) == crate::fsdata::fs_lookup(fs2, cands[0]));
        if read_toml_spec(fs1, cands[0]) is Absent {
            assert(crate::fsdata::fs_agree_on(fs1, fs2, cands.drop_first())) by {
                assert(forall|i: int|
                    0 <= i < cands.drop_first().len() ==> cands.drop_first()[i] == cands[i + 1]);
            }
            lemma_try_candidates_frame(fs1, fs2, cands.drop_first());
        }
    }
}

/// The Alacritty resolver reads only its candidate paths.
pub proof fn lemma_resolve_frame(
    env: Seq<(String, String)>,
    fs1: Seq<(String, FileData)>,
    fs2: Seq<(String, FileData)>,
)
    requires
        home_of(env) matches Some(home) ==> crate::fsdata::fs_agree_on(
            fs1,
            fs2,
            candidates_spec(env, home),
        ),
    ensures
        resolve_alacritty_spec(env, fs1) == resolve_alacritty_spec(env, fs2),
{
    match home_of(env) {
        Some(home) => lemma_try_candidates_frame(fs1, fs2, candidates_spec(env, home)),
        None => {},
    }
}

/// Trying the candidates always yields a well-formed result.
pub proof fn lemma_try_candidates_wf(fs: Seq<(String, FileData)>, cands: Seq<Seq<char>>)
    ensures
        crate::result_wf(try_candidates_spec(fs, cands)),
    decreases cands.len(),
{
    if cands.len() > 0 {
        if read_toml_spec(fs, cands[0]) is Absent {
            lemma_try_candidates_wf(fs, cands.drop_first());
        }
    }
}

/// The Alacritty resolver always yields a well-formed result.
pub proof fn lemma_resolve_wf(env: Seq<(String, String)>, fs: Seq<(String, FileData)>)
    ensures
        crate::result_wf(resolve_alacritty_spec(env, fs)),
{
    match home_of(env) {
        Some(home) => lemma_try_candidates_wf(fs, candidates_spec(env, home)),
        None => {},
    }
}

/// Builds the candidate configuration paths for a given home directory.
pub fn candidates(vars: &Vec<(String, String)>, home: &str) -> (r: Vec<String>)
    ensures
        paths::paths_view(r@) == candidates_spec(vars@, home@),
{
    let xdg: Option<&str> = match crate::var(vars, "XDG_CONFIG_HOME") {
        Some(x) => if !x.is_empty() && paths::is_absolute(x) {
            Some(x)
        } else {
            None
        },
        None => None,
    };
    let default_config = paths::join(home, ".config");
    let effective: &str = match xdg {
        Some(x) => x,
        None => default_config.as_str(),
    };
    let mut cands: Vec<String> = Vec::new();
    cands.push(paths::join(effective, "alacritty/alacritty.toml"));
    cands.push(paths::join(effective, "alacritty.toml"));
    if xdg.is_some() {
        cands.push(paths::join(home, ".config/alacritty/alacritty.toml"));
    }
    cands.push(paths::join(home, ".alacritty.toml"));
    cands.push("/etc/alacritty/alacritty.toml".to_owned());
    proof {
        assert(paths::paths_view(cands@) =~= candidates_spec(vars@, home@));
    }
    cands
}

/// Resolves Alacritty's configured font from the snapshot.
pub fn resolve(vars: &Vec<(String, String)>, fs: &FsSnapshot) -> (r: DetectionResult)
    ensures
        r@ == resolve_alacritty_spec(vars@, fs@),
{
    let home = match home_var(vars) {
        Some(h) => h,
        None => {
            return config_error(Terminal::Alacritty, "HOME is not set".to_owned(), None);
        },
    };
    let cands = candidates(vars, home);
    let ghost sc = candidates_spec(vars@, home@);
    let n = cands.len();
    let mut i: usize = 0;
    proof {
        assert(sc.subrange(0, n as int) =~= sc);
    }
    while i < n
        invariant
            0 <= i <= n,
            n == cands@.len(),
            paths::paths_view(cands@) == sc,
            sc == candidates_spec(vars@, home@),
            resolve_alacritty_spec(vars@, fs@) == try_candidates_spec(fs@, sc),
            try_candidates_spec(fs@, sc) == try_candidates_spec(
                fs@,
                sc.subrange(i as int, n as int),
            ),
        decreases n - i,
    {
        proof {
            assert(sc.subrange(i as int, n as int)[0] == sc[i as int]);
            assert(sc.subrange(i as int, n as int).drop_first() =~= sc.subrange(
                i + 1,
                n as int,
            ));
            assert(cands@[i as int]@ == sc[i as int]);
        }
        match read_toml_settings(fs, cands[i].as_str()) {
            SettingsRead::Absent => {
                i = i + 1;
            },
            SettingsRead::Failed(reason) => {
                let path = cands[i].clone();
                return config_error(Terminal::Alacritty, reason, Some(path));
            },
            SettingsRead::Doc(d) => {
                return resolve_from_config(d, cands[i].as_str());
            },
        }
    }
    config_error(Terminal::Alacritty, "no config file found".to_owned(), None)
}

/// Extracts, normalizes and classifies the font of one parsed document.
fn resolve_from_config(config: Node, config_path: &str) -> (r: DetectionResult)
    ensures
        r@ == from_config_spec(config, config_path@),
{
    let fam_opt = match config.get("font") {
        Some(f) => match f.get("normal") {
            Some(nr) => match nr.get("family") {
                Some(v) => v.as_str(),
                None => None,
            },
            None => None,
        },
        None => None,
    };
    match fam_opt {
        Some(family) => {
            let font_name = font::normalize_font_name(family.as_str());
            let detected = font::is_nerd_font(font_name.as_str());
            DetectionResult {
                detected: Some(detected),
                source: DetectionSource::TerminalConfig,
                terminal: Some(Terminal::Alacritty),
                font: Some(font_name),
                config_path: Some(config_path.to_owned()),
                profile: None,
                error_reason: None,
                confidence: Confidence::Certain,
            }
        },
        None => config_error(
            Terminal::Alacritty,
            "no font configured".to_owned(),
            Some(config_path.to_owned()),
        ),
    }
}

} // verus!
