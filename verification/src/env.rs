//! The explicit-override layer: a single environment variable can finalize
//! the whole pipeline before anything else is looked at.

use vstd::prelude::*;

use crate::strutil;
use crate::var_lookup;

verus! {

/// What the override layer decided.
#[derive(Debug, Clone, Copy, PartialEq, Eq)]
pub enum EnvDecision {
    OverrideEnabled,
    OverrideDisabled,
    Continue,
}

/// How one value of the override variable is read: trimmed and lower-cased,
/// `1`/`true`/`yes` enable, `0`/`false`/`no` disable, anything else decides
/// nothing.
pub open spec fn override_token(v: Seq<char>) -> EnvDecision {
    let t = strutil::lower(strutil::trim_spec(v));
    if t == "1"@ || t == "true"@ || t == "yes"@ {
        EnvDecision::OverrideEnabled
    } else if t == "0"@ || t == "false"@ || t == "no"@ {
        EnvDecision::OverrideDisabled
    } else {
        EnvDecision::Continue
    }
}

/// The override layer's decision: the last occurrence of `NERD_FONT` wins;
/// an absent variable decides nothing.
pub open spec fn env_decision(env: Seq<(String, String)>) -> EnvDecision {
    match var_lookup(env, "NERD_FONT"@) {
        Some(v) => override_token(v),
        None => EnvDecision::Continue,
    }
}

/// Inspects the override variable in the environment snapshot.
pub fn detect(vars: &Vec<(String, String)>) -> (r: EnvDecision)
    ensures
        r == env_decision(vars@),
{
    match crate::var(vars, "NERD_FONT") {
        Some(raw) => parse_nerd_font(raw),
        None => EnvDecision::Continue,
    }
}

fn parse_nerd_font(raw: &str) -> (r: EnvDecision)
    ensures
        r == override_token(raw@),
{
    proof {
        reveal_strlit("1");
        reveal_strlit("true");
        reveal_strlit("yes");
        reveal_strlit("0");
        reveal_strlit("false");
        reveal_strlit("no");
        strutil::lemma_lower_fixed("1"@);
        strutil::lemma_lower_fixed("true"@);
        strutil::lemma_lower_fixed("yes"@);
        strutil::lemma_lower_fixed("0"@);
        strutil::lemma_lower_fixed("false"@);
        strutil::lemma_lower_fixed("no"@);
    }
    let t = strutil::trim(raw);
    if strutil::eq_nocase(t, "1") || strutil::eq_nocase(t, "true") || strutil::eq_nocase(t, "yes") {
        EnvDecision::OverrideEnabled
    } else if strutil::eq_nocase(t, "0") || strutil::eq_nocase(t, "false") || strutil::eq_nocase(
        t,
        "no",
    ) {
        EnvDecision::OverrideDisabled
    } else {
        EnvDecision::Continue
    }
}

} // verus!
