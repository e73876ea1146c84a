//! The detection result record and the enumerations it is built from, with
//! ghost views so that contracts can speak about every field.

use vstd::prelude::*;

verus! {

use vstd::string::StringExecFns;

/// How sure the pipeline is of a positive or negative answer.  `Probable` is
/// reserved for future heuristics; every current answer is `Certain`.
#[derive(Debug, Clone, Copy, PartialEq, Eq)]
pub enum Confidence {
    Certain,
    Probable,
}

/// The layer that produced the final answer.
#[derive(Debug, Clone, Copy, PartialEq, Eq)]
pub enum DetectionSource {
    EnvVar,
    ExplicitDisable,
    UnknownTerminal,
    RemoteSession,
    NoResolver,
    ConfigError,
    BundledTerminal,
    TerminalConfig,
}

/// A known terminal emulator, or an unrecognized raw identifier.
#[derive(Debug, Clone, PartialEq, Eq)]
pub enum Terminal {
    Ghostty,
    WezTerm,
    Kitty,
    Alacritty,
    ITerm2,
    TerminalApp,
    Vscode,
    Zed,
    Hyper,
    Unknown(String),
}

/// Ghost mirror of [`Terminal`], with the raw identifier as a character
/// sequence.
pub enum TerminalV {
    Ghostty,
    WezTerm,
    Kitty,
    Alacritty,
    ITerm2,
    TerminalApp,
    Vscode,
    Zed,
    Hyper,
    Unknown(Seq<char>),
}

impl View for Terminal {
    type V = TerminalV;

    open spec fn view(&self) -> TerminalV {
        match self {
            Terminal::Ghostty => TerminalV::Ghostty,
            Terminal::WezTerm => TerminalV::WezTerm,
            Terminal::Kitty => TerminalV::Kitty,
            Terminal::Alacritty => TerminalV::Alacritty,
            Terminal::ITerm2 => TerminalV::ITerm2,
            Terminal::TerminalApp => TerminalV::TerminalApp,
            Terminal::Vscode => TerminalV::Vscode,
            Terminal::Zed => TerminalV::Zed,
            Terminal::Hyper => TerminalV::Hyper,
            Terminal::Unknown(s) => TerminalV::Unknown(s@),
        }
    }
}

/// A terminal that ships Nerd Font glyphs built in, so that no configuration
/// needs to be read.
pub open spec fn is_bundled_spec(t: TerminalV) -> bool {
    t is Ghostty || t is WezTerm
}

impl Terminal {
    /// Whether this terminal ships with built-in Nerd Font support.
    pub fn is_bundled(&self) -> (r: bool)
        ensures
            r == is_bundled_spec(self@),
    {
        matches!(self, Terminal::Ghostty | Terminal::WezTerm)
    }
}

/// The single output of the whole pipeline.
#[derive(Debug, Clone, PartialEq, Eq)]
pub struct DetectionResult {
    /// `Some(true)`: a Nerd Font was confirmed; `Some(false)`: a font was
    /// identified and is not a Nerd Font; `None`: could not determine.
    pub detected: Option<bool>,
    /// The layer that finalized this result.
    pub source: DetectionSource,
    /// The terminal identity found before finalizing, if any.
    pub terminal: Option<Terminal>,
    /// The normalized font name that was inspected, if any.
    pub font: Option<String>,
    /// The configuration file that was consulted or attempted, if any.
    pub config_path: Option<String>,
    /// The terminal profile that was examined, if any.
    pub profile: Option<String>,
    /// A human-readable diagnostic, present exactly when `source` is
    /// `ConfigError`.
    pub error_reason: Option<String>,
    /// How sure the pipeline is of the answer.
    pub confidence: Confidence,
}

/// Ghost mirror of [`DetectionResult`].
pub struct ResultV {
    pub detected: Option<bool>,
    pub source: DetectionSource,
    pub terminal: Option<TerminalV>,
    pub font: Option<Seq<char>>,
    pub config_path: Option<Seq<char>>,
    pub profile: Option<Seq<char>>,
    pub error_reason: Option<Seq<char>>,
    pub confidence: Confidence,
}

impl View for DetectionResult {
    type V = ResultV;

    open spec fn view(&self) -> ResultV {
        ResultV {
            detected: self.detected,
            source: self.source,
            terminal: match self.terminal {
                Some(t) => Some(t@),
                None => None,
            },
            font: match self.font {
                Some(f) => Some(f@),
                None => None,
            },
            config_path: match self.config_path {
                Some(p) => Some(p@),
                None => None,
            },
            profile: match self.profile {
                Some(p) => Some(p@),
                None => None,
            },
            error_reason: match self.error_reason {
                Some(r) => Some(r@),
                None => None,
            },
            confidence: self.confidence,
        }
    }
}

/// The process exit code a result maps to.
pub open spec fn exit_code_spec(source: DetectionSource, detected: Option<bool>) -> i32 {
    match source {
        DetectionSource::EnvVar => 0,
        DetectionSource::BundledTerminal => 0,
        DetectionSource::ExplicitDisable => 1,
        DetectionSource::UnknownTerminal => 2,
        DetectionSource::RemoteSession => 3,
        DetectionSource::NoResolver => 4,
        DetectionSource::ConfigError => 5,
        DetectionSource::TerminalConfig => match detected {
            Some(true) => 0,
            Some(false) => 6,
            None => 5,
        },
    }
}

/// The one-line human-readable explanation of a result.
pub open spec fn explain_spec(
    source: DetectionSource,
    detected: Option<bool>,
    error_reason: Option<Seq<char>>,
) -> Seq<char> {
    match source {
        DetectionSource::EnvVar => "detected Nerd Font from NERD_FONT override"@,
        DetectionSource::ExplicitDisable => "Nerd Font explicitly disabled by NERD_FONT override"@,
        DetectionSource::UnknownTerminal => "cannot determine terminal; terminal is unknown"@,
        DetectionSource::RemoteSession => "running in remote session; local terminal config not inspected"@,
        DetectionSource::NoResolver => "known terminal has no resolver implemented yet"@,
        DetectionSource::ConfigError => "failed to read terminal configuration: "@ + match error_reason {
            Some(r) => r,
            None => "unknown reason"@,
        },
        DetectionSource::BundledTerminal => "terminal ships with Nerd Font support by default"@,
        DetectionSource::TerminalConfig => match detected {
            Some(true) => "terminal configuration indicates a Nerd Font is active"@,
            Some(false) => "terminal configuration does not indicate a Nerd Font"@,
            None => "terminal configuration status is unknown"@,
        },
    }
}

impl DetectionResult {
    /// The process exit code for this result, by the fixed table.
    pub fn exit_code(&self) -> (r: i32)
        ensures
            r == exit_code_spec(self.source, self.detected),
    {
        match self.source {
            DetectionSource::EnvVar => 0,
            DetectionSource::BundledTerminal => 0,
            DetectionSource::ExplicitDisable => 1,
            DetectionSource::UnknownTerminal => 2,
            DetectionSource::RemoteSession => 3,
            DetectionSource::NoResolver => 4,
            DetectionSource::ConfigError => 5,
            DetectionSource::TerminalConfig => match self.detected {
                Some(true) => 0,
                Some(false) => 6,
                None => 5,
            },
        }
    }

    /// A one-line human-readable explanation of this result.
    pub fn explain(&self) -> (r: String)
        ensures
            r@ == explain_spec(self.source, self.detected, self@.error_reason),
    {
        match self.source {
            DetectionSource::EnvVar => "detected Nerd Font from NERD_FONT override".to_owned(),
            DetectionSource::ExplicitDisable => "Nerd Font explicitly disabled by NERD_FONT override".to_owned(),
            DetectionSource::UnknownTerminal => "cannot determine terminal; terminal is unknown".to_owned(),
            DetectionSource::RemoteSession => "running in remote session; local terminal config not inspected".to_owned(),
            DetectionSource::NoResolver => "known terminal has no resolver implemented yet".to_owned(),
            DetectionSource::ConfigError => {
                let head = "failed to read terminal configuration: ";
                match &self.error_reason {
                    Some(r) => head.to_owned().concat(r.as_str()),
                    None => head.to_owned().concat("unknown reason"),
                }
            },
            DetectionSource::BundledTerminal => "terminal ships with Nerd Font support by default".to_owned(),
            DetectionSource::TerminalConfig => match self.detected {
                Some(true) => "terminal configuration indicates a Nerd Font is active".to_owned(),
                Some(false) => "terminal configuration does not indicate a Nerd Font".to_owned(),
                None => "terminal configuration status is unknown".to_owned(),
            },
        }
    }
}

} // verus!
