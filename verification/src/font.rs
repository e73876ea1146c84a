//! The font-name heuristic: classifies a font name as a Nerd Font, and
//! normalizes font names.  Matching is case-sensitive on the canonical
//! capitalized tokens: the name must contain the phrase `Nerd Font`
//! (optionally without the inner space), or the abbreviation `NF`, `NFM` or
//! `NFP` bounded by whitespace or a hyphen on at least one side.

use vstd::prelude::*;

use crate::strutil;

verus! {

use vstd::string::StrSliceExecFns;

/// A character that may bound an abbreviation token: whitespace or a hyphen.
pub open spec fn sep(c: char) -> bool {
    strutil::is_ws(c) || c == '-'
}

/// The phrase `NerdFont`, or `Nerd` and `Font` with one whitespace character
/// between, starts at position `i`.
pub open spec fn nerd_phrase_at(s: Seq<char>, i: int) -> bool {
    ||| (i + 8 <= s.len() && s[i] == 'N' && s[i + 1] == 'e' && s[i + 2] == 'r' && s[i + 3] == 'd'
        && s[i + 4] == 'F' && s[i + 5] == 'o' && s[i + 6] == 'n' && s[i + 7] == 't')
    ||| (i + 9 <= s.len() && s[i] == 'N' && s[i + 1] == 'e' && s[i + 2] == 'r' && s[i + 3] == 'd'
        && strutil::is_ws(s[i + 4]) && s[i + 5] == 'F' && s[i + 6] == 'o' && s[i + 7] == 'n' && s[i
        + 8] == 't')
}

/// `NF`, optionally followed by `M` or `P`, then a separator, starts at `i`.
pub open spec fn nf_then_sep_at(s: Seq<char>, i: int) -> bool {
    ||| (i + 3 <= s.len() && s[i] == 'N' && s[i + 1] == 'F' && sep(s[i + 2]))
    ||| (i + 4 <= s.len() && s[i] == 'N' && s[i + 1] == 'F' && (s[i + 2] == 'M' || s[i + 2] == 'P')
        && sep(s[i + 3]))
}

/// A separator followed by `NF` starts at `i`.
pub open spec fn sep_then_nf_at(s: Seq<char>, i: int) -> bool {
    i + 3 <= s.len() && sep(s[i]) && s[i + 1] == 'N' && s[i + 2] == 'F'
}

/// Some Nerd-Font marker starts at position `i`.
pub open spec fn nerd_match_at(s: Seq<char>, i: int) -> bool {
    0 <= i && (nerd_phrase_at(s, i) || nf_then_sep_at(s, i) || sep_then_nf_at(s, i))
}

/// A font name counts as a Nerd Font when, after trimming, some marker
/// occurs in it.
pub open spec fn is_nerd_font_spec(s: Seq<char>) -> bool {
    exists|i: int| nerd_match_at(strutil::trim_spec(s), i)
}

/// Normalization of a font name: surrounding whitespace is dropped, the case
/// is kept.
pub fn normalize_font_name(font: &str) -> (r: String)
    ensures
        r@ == strutil::trim_spec(font@),
{
    strutil::trim(font).to_owned()
}

/// Normalizing an already-normalized font name is a no-op.
pub proof fn lemma_normalize_idempotent(s: Seq<char>)
    ensures
        strutil::trim_spec(strutil::trim_spec(s)) == strutil::trim_spec(s),
{
    strutil::lemma_trim_spec_idempotent(s);
}

/// Surrounding whitespace does not change the classification: a name and its
/// normalization classify alike.
pub proof fn lemma_classification_ignores_outer_whitespace(s: Seq<char>)
    ensures
        is_nerd_font_spec(strutil::trim_spec(s)) == is_nerd_font_spec(s),
{
    strutil::lemma_trim_spec_idempotent(s);
}

fn is_sep_char(c: char) -> (r: bool)
    ensures
        r == sep(c),
{
    c == ' ' || c == '\t' || c == '\n' || c == '\r' || c == '\u{b}' || c == '\u{c}' || c == '-'
}

fn check_at(t: &str, n: usize, i: usize) -> (r: bool)
    requires
        i < n,
        n == t@.len(),
    ensures
        r == nerd_match_at(t@, i as int),
{
    let mut m = false;
    if n - i >= 8 && t.get_char(i) == 'N' && t.get_char(i + 1) == 'e' && t.get_char(i + 2) == 'r'
        && t.get_char(i + 3) == 'd' && t.get_char(i + 4) == 'F' && t.get_char(i + 5) == 'o'
        && t.get_char(i + 6) == 'n' && t.get_char(i + 7) == 't' {
        m = true;
    }
    if !m && n - i >= 9 && t.get_char(i) == 'N' && t.get_char(i + 1) == 'e' && t.get_char(i + 2)
        == 'r' && t.get_char(i + 3) == 'd' && strutil::is_ws_char(t.get_char(i + 4)) && t.get_char(
        i + 5,
    ) == 'F' && t.get_char(i + 6) == 'o' && t.get_char(i + 7) == 'n'
        && t.get_char(i + 8) == 't' {
        m = true;
    }
    if !m && n - i >= 3 && t.get_char(i) == 'N' && t.get_char(i + 1) == 'F' && is_sep_char(
        t.get_char(i + 2),
    ) {
        m = true;
    }
    if !m && n - i >= 4 && t.get_char(i) == 'N' && t.get_char(i + 1) == 'F' && (t.get_char(i + 2)
        == 'M' || t.get_char(i + 2) == 'P') && is_sep_char(t.get_char(i + 3)) {
        m = true;
    }
    if !m && n - i >= 3 && is_sep_char(t.get_char(i)) && t.get_char(i + 1) == 'N' && t.get_char(
        i + 2,
    ) == 'F' {
        m = true;
    }
    m
}

/// Classifies a font name: does it carry a Nerd-Font marker?
pub fn is_nerd_font(font: &str) -> (r: bool)
    ensures
        r == is_nerd_font_spec(font@),
{
    let t = strutil::trim(font);
    let n = t.unicode_len();
    let mut i: usize = 0;
    while i < n
        invariant
            0 <= i <= n,
            n == t@.len(),
            t@ == strutil::trim_spec(font@),
            forall|j: int| 0 <= j < i ==> !nerd_match_at(t@, j),
        decreases n - i,
    {
        if check_at(t, n, i) {
            return true;
        }
        i = i + 1;
    }
    proof {
        assert forall|j: int| !nerd_match_at(t@, j) by {
            if 0 <= j < n {
                assert(!nerd_match_at(t@, j));
            }
        }
    }
    false
}

} // verus!
