//! The terminal-identification layer: maps environment signals to a terminal
//! identity, in a strict precedence order.

use vstd::prelude::*;

use crate::strutil;
use crate::types::{Terminal, TerminalV, is_bundled_spec};
use crate::var_lookup;

verus! {

/// What the terminal layer decided: a bundled terminal finalizes the
/// pipeline, an identified one continues, and no signal at all means the
/// terminal is unknown.
#[derive(Debug, Clone, PartialEq, Eq)]
pub enum TerminalDecision {
    Bundled(Terminal),
    Identified(Terminal),
    Unknown,
}

/// Ghost mirror of [`TerminalDecision`].
pub enum TerminalDecisionV {
    Bundled(TerminalV),
    Identified(TerminalV),
    Unknown,
}

impl View for TerminalDecision {
    type V = TerminalDecisionV;

    open spec fn view(&self) -> TerminalDecisionV {
        match self {
            TerminalDecision::Bundled(t) => TerminalDecisionV::Bundled(t@),
            TerminalDecision::Identified(t) => TerminalDecisionV::Identified(t@),
            TerminalDecision::Unknown => TerminalDecisionV::Unknown,
        }
    }
}

/// The terminal a `TERM_PROGRAM` value names, after trimming and
/// lower-casing.
pub open spec fn term_program_of(t: Seq<char>) -> Option<TerminalV> {
    if t == "ghostty"@ {
        Some(TerminalV::Ghostty)
    } else if t == "wezterm"@ {
        Some(TerminalV::WezTerm)
    } else if t == "kitty"@ {
        Some(TerminalV::Kitty)
    } else if t == "iterm.app"@ {
        Some(TerminalV::ITerm2)
    } else if t == "apple_terminal"@ {
        Some(TerminalV::TerminalApp)
    } else if t == "vscode"@ {
        Some(TerminalV::Vscode)
    } else if t == "zed"@ {
        Some(TerminalV::Zed)
    } else if t == "hyper"@ {
        Some(TerminalV::Hyper)
    } else {
        None
    }
}

/// The terminal a `TERM` value names, after trimming and lower-casing.
pub open spec fn term_of(t: Seq<char>) -> Option<TerminalV> {
    if t == "xterm-ghostty"@ {
        Some(TerminalV::Ghostty)
    } else if t == "xterm-kitty"@ {
        Some(TerminalV::Kitty)
    } else {
        None
    }
}

/// A recognized terminal finalizes as bundled or continues as identified.
pub open spec fn decide_spec(t: TerminalV) -> TerminalDecisionV {
    if is_bundled_spec(t) {
        TerminalDecisionV::Bundled(t)
    } else {
        TerminalDecisionV::Identified(t)
    }
}

pub open spec fn nonempty(v: Option<Seq<char>>) -> bool {
    v matches Some(s) && s.len() > 0
}

/// The fallback checks once `TERM_PROGRAM` is unset or blank: `TERM`, then
/// terminal-specific marker variables in a fixed priority order.
pub open spec fn fallback_decision(env: Seq<(String, String)>) -> TerminalDecisionV {
    match var_lookup(env, "TERM"@) {
        Some(v) => match term_of(strutil::lower(strutil::trim_spec(v))) {
            Some(t) => decide_spec(t),
            None => marker_decision(env),
        },
        None => marker_decision(env),
    }
}

/// The marker-variable checks: each non-empty marker names one terminal.
pub open spec fn marker_decision(env: Seq<(String, String)>) -> TerminalDecisionV {
    if nonempty(var_lookup(env, "KITTY_PID"@)) {
        decide_spec(TerminalV::Kitty)
    } else if nonempty(var_lookup(env, "ALACRITTY_LOG"@)) {
        decide_spec(TerminalV::Alacritty)
    } else {
        TerminalDecisionV::Unknown
    }
}

/// The whole terminal layer: a non-blank `TERM_PROGRAM` decides outright,
/// recognized or not; otherwise `TERM` and the marker variables are tried.
pub open spec fn terminal_decision(env: Seq<(String, String)>) -> TerminalDecisionV {
    match var_lookup(env, "TERM_PROGRAM"@) {
        Some(v) => {
            let t = strutil::trim_spec(v);
            if t.len() > 0 {
                match term_program_of(strutil::lower(t)) {
                    Some(term) => decide_spec(term),
                    None => TerminalDecisionV::Identified(TerminalV::Unknown(t)),
                }
            } else {
                fallback_decision(env)
            }
        },
        None => fallback_decision(env),
    }
}

/// Examines the environment signals in precedence order.
pub fn detect(vars: &Vec<(String, String)>) -> (r: TerminalDecision)
    ensures
        r@ == terminal_decision(vars@),
{
    if let Some(value) = crate::var(vars, "TERM_PROGRAM") {
        let t = strutil::trim(value);
        if t.unicode_len() > 0 {
            return match from_term_program(t) {
                Some(term) => decide(term),
                None => TerminalDecision::Identified(Terminal::Unknown(t.to_owned())),
            };
        }
    }
    if let Some(value) = crate::var(vars, "TERM") {
        if let Some(term) = from_term(strutil::trim(value)) {
            return decide(term);
        }
    }
    if let Some(value) = crate::var(vars, "KITTY_PID") {
        if !value.is_empty() {
            return decide(Terminal::Kitty);
        }
    }
    if let Some(value) = crate::var(vars, "ALACRITTY_LOG") {
        if !value.is_empty() {
            return decide(Terminal::Alacritty);
        }
    }
    TerminalDecision::Unknown
}

fn decide(terminal: Terminal) -> (r: TerminalDecision)
    ensures
        r@ == decide_spec(terminal@),
{
    if terminal.is_bundled() {
        TerminalDecision::Bundled(terminal)
    } else {
        TerminalDecision::Identified(terminal)
    }
}

/// Maps an already-trimmed `TERM_PROGRAM` value to a terminal.
fn from_term_program(t: &str) -> (r: Option<Terminal>)
    ensures
        match r {
            Some(term) => term_program_of(strutil::lower(t@)) == Some(term@),
            None => term_program_of(strutil::lower(t@)) is None,
        },
{
    proof {
        reveal_strlit("ghostty");
        reveal_strlit("wezterm");
        reveal_strlit("kitty");
        reveal_strlit("iterm.app");
        reveal_strlit("apple_terminal");
        reveal_strlit("vscode");
        reveal_strlit("zed");
        reveal_strlit("hyper");
        strutil::lemma_lower_fixed("ghostty"@);
        strutil::lemma_lower_fixed("wezterm"@);
        strutil::lemma_lower_fixed("kitty"@);
        strutil::lemma_lower_fixed("iterm.app"@);
        strutil::lemma_lower_fixed("apple_terminal"@);
        strutil::lemma_lower_fixed("vscode"@);
        strutil::lemma_lower_fixed("zed"@);
        strutil::lemma_lower_fixed("hyper"@);
    }
    if strutil::eq_nocase(t, "ghostty") {
        Some(Terminal::Ghostty)
    } else if strutil::eq_nocase(t, "wezterm") {
        Some(Terminal::WezTerm)
    } else if strutil::eq_nocase(t, "kitty") {
        Some(Terminal::Kitty)
    } else if strutil::eq_nocase(t, "iterm.app") {
        Some(Terminal::ITerm2)
    } else if strutil::eq_nocase(t, "apple_terminal") {
        Some(Terminal::TerminalApp)
    } else if strutil::eq_nocase(t, "vscode") {
        Some(Terminal::Vscode)
    } else if strutil::eq_nocase(t, "zed") {
        Some(Terminal::Zed)
    } else if strutil::eq_nocase(t, "hyper") {
        Some(Terminal::Hyper)
    } else {
        None
    }
}

/// Maps an already-trimmed `TERM` value to a terminal.
fn from_term(t: &str) -> (r: Option<Terminal>)
    ensures
        match r {
            Some(term) => term_of(strutil::lower(t@)) == Some(term@),
            None => term_of(strutil::lower(t@)) is None,
        },
{
    proof {
        reveal_strlit("xterm-ghostty");
        reveal_strlit("xterm-kitty");
        strutil::lemma_lower_fixed("xterm-ghostty"@);
        strutil::lemma_lower_fixed("xterm-kitty"@);
    }
    if strutil::eq_nocase(t, "xterm-ghostty") {
        Some(Terminal::Ghostty)
    } else if strutil::eq_nocase(t, "xterm-kitty") {
        Some(Terminal::Kitty)
    } else {
        None
    }
}

} // verus!
