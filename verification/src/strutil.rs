//! String utilities the whole library shares: the whitespace set, ASCII
//! lower-casing, trimming, equality and substring search, each with an exact
//! specification over character sequences.

use vstd::prelude::*;

verus! {

use vstd::string::StrSliceExecFns;
use vstd::string::StringExecFns;

/// The whitespace characters this library recognizes (the ASCII ones).
pub open spec fn is_ws(c: char) -> bool {
    c == ' ' || c == '\t' || c == '\n' || c == '\r' || c == '\u{b}' || c == '\u{c}'
}

/// ASCII lower-casing of one character.
pub open spec fn lower_char(c: char) -> char {
    if 'A' <= c && c <= 'Z' {
        (((c as u8) + 0x20) as char)
    } else {
        c
    }
}

/// ASCII lower-casing of a character sequence.
pub open spec fn lower(s: Seq<char>) -> Seq<char> {
    s.map_values(|c: char| lower_char(c))
}

pub open spec fn trim_start_spec(s: Seq<char>) -> Seq<char>
    decreases s.len(),
{
    if s.len() > 0 && is_ws(s[0]) {
        trim_start_spec(s.drop_first())
    } else {
        s
    }
}

pub open spec fn trim_end_spec(s: Seq<char>) -> Seq<char>
    decreases s.len(),
{
    if s.len() > 0 && is_ws(s.last()) {
        trim_end_spec(s.drop_last())
    } else {
        s
    }
}

/// What trimming means: drop whitespace from both ends.
pub open spec fn trim_spec(s: Seq<char>) -> Seq<char> {
    trim_end_spec(trim_start_spec(s))
}

proof fn lemma_trim_start_skip(s: Seq<char>, i: int)
    requires
        0 <= i <= s.len(),
        forall|j: int| 0 <= j < i ==> is_ws(s[j]),
    ensures
        trim_start_spec(s) == trim_start_spec(s.subrange(i, s.len() as int)),
    decreases i,
{
    if i > 0 {
        assert(s.subrange(1, s.len() as int) =~= s.drop_first());
        lemma_trim_start_skip(s.drop_first(), i - 1);
        assert(s.drop_first().subrange(i - 1, s.drop_first().len() as int) =~= s.subrange(
            i,
            s.len() as int,
        ));
    } else {
        assert(s.subrange(0, s.len() as int) =~= s);
    }
}

proof fn lemma_trim_end_skip(s: Seq<char>, i: int)
    requires
        0 <= i <= s.len(),
        forall|j: int| i <= j < s.len() ==> is_ws(s[j]),
    ensures
        trim_end_spec(s) == trim_end_spec(s.subrange(0, i)),
    decreases s.len() - i,
{
    if i < s.len() {
        assert(s.subrange(0, s.len() - 1) =~= s.drop_last());
        lemma_trim_end_skip(s.drop_last(), i);
        assert(s.drop_last().subrange(0, i) =~= s.subrange(0, i));
    } else {
        assert(s.subrange(0, s.len() as int) =~= s);
    }
}

proof fn lemma_trim_start_first(s: Seq<char>)
    ensures
        trim_start_spec(s).len() > 0 ==> !is_ws(trim_start_spec(s)[0]),
    decreases s.len(),
{
    if s.len() > 0 && is_ws(s[0]) {
        lemma_trim_start_first(s.drop_first());
    }
}

proof fn lemma_trim_end_last(s: Seq<char>)
    ensures
        trim_end_spec(s).len() > 0 ==> !is_ws(trim_end_spec(s).last()),
    decreases s.len(),
{
    if s.len() > 0 && is_ws(s.last()) {
        lemma_trim_end_last(s.drop_last());
    }
}

proof fn lemma_trim_end_keeps_first(s: Seq<char>)
    ensures
        trim_end_spec(s).len() > 0 ==> trim_end_spec(s)[0] == s[0],
    decreases s.len(),
{
    if s.len() > 0 && is_ws(s.last()) {
        lemma_trim_end_keeps_first(s.drop_last());
    }
}

/// Trimming an already-trimmed sequence changes nothing.
pub proof fn lemma_trim_spec_idempotent(s: Seq<char>)
    ensures
        trim_spec(trim_spec(s)) == trim_spec(s),
{
    let u = trim_start_spec(s);
    let v = trim_end_spec(u);
    lemma_trim_start_first(s);
    lemma_trim_end_keeps_first(u);
    lemma_trim_end_last(u);
    assert(trim_start_spec(v) == v);
    assert(trim_end_spec(v) == v);
}

pub fn is_ws_char(c: char) -> (r: bool)
    ensures
        r == is_ws(c),
{
    c == ' ' || c == '\t' || c == '\n' || c == '\r' || c == '\u{b}' || c == '\u{c}'
}

/// Drops whitespace from both ends of a string.
pub fn trim(s: &str) -> (r: &str)
    ensures
        r@ == trim_spec(s@),
{
    let n = s.unicode_len();
    let mut start: usize = 0;
    while start < n && is_ws_char(s.get_char(start))
        invariant
            0 <= start <= n,
            n == s@.len(),
            forall|j: int| 0 <= j < start ==> is_ws(s@[j]),
        decreases n - start,
    {
        start = start + 1;
    }
    let mut end: usize = n;
    while end > start && is_ws_char(s.get_char(end - 1))
        invariant
            start <= end <= n,
            n == s@.len(),
            forall|j: int| end <= j < n ==> is_ws(s@[j]),
        decreases end,
    {
        end = end - 1;
    }
    proof {
        lemma_trim_start_skip(s@, start as int);
        let u = s@.subrange(start as int, n as int);
        assert(trim_start_spec(u) == u);
        lemma_trim_end_skip(u, end - start);
        assert(u.subrange(0, end - start) =~= s@.subrange(start as int, end as int));
        assert(trim_end_spec(s@.subrange(start as int, end as int)) == s@.subrange(
            start as int,
            end as int,
        ));
    }
    s.substring_char(start, end)
}

/// Character-for-character string equality.
pub fn str_eq(a: &str, b: &str) -> (r: bool)
    ensures
        r == (a@ == b@),
{
    let na = a.unicode_len();
    let nb = b.unicode_len();
    if na != nb {
        proof {
            assert(a@ != b@);
        }
        return false;
    }
    let mut i: usize = 0;
    while i < na
        invariant
            0 <= i <= na,
            na == a@.len(),
            na == b@.len(),
            forall|j: int| 0 <= j < i ==> a@[j] == b@[j],
        decreases na - i,
    {
        if a.get_char(i) != b.get_char(i) {
            proof {
                assert(a@ != b@);
            }
            return false;
        }
        i = i + 1;
    }
    proof {
        assert(a@ =~= b@);
    }
    true
}

/// String equality up to ASCII case.
pub fn eq_nocase(a: &str, b: &str) -> (r: bool)
    ensures
        r == (lower(a@) == lower(b@)),
{
    let na = a.unicode_len();
    let nb = b.unicode_len();
    if na != nb {
        proof {
            assert(lower(a@).len() != lower(b@).len());
        }
        return false;
    }
    let mut i: usize = 0;
    while i < na
        invariant
            0 <= i <= na,
            na == a@.len(),
            na == b@.len(),
            forall|j: int| 0 <= j < i ==> lower_char(a@[j]) == lower_char(b@[j]),
        decreases na - i,
    {
        let ca = a.get_char(i);
        let cb = b.get_char(i);
        let la: char = if 'A' <= ca && ca <= 'Z' {
            (((ca as u8) + 0x20) as char)
        } else {
            ca
        };
        let lb: char = if 'A' <= cb && cb <= 'Z' {
            (((cb as u8) + 0x20) as char)
        } else {
            cb
        };
        if la != lb {
            proof {
                assert(lower(a@)[i as int] != lower(b@)[i as int]);
            }
            return false;
        }
        i = i + 1;
    }
    proof {
        assert(lower(a@) =~= lower(b@));
    }
    true
}

/// `n` occurs in `h` starting at position `i`.
pub open spec fn contains_at(h: Seq<char>, n: Seq<char>, i: int) -> bool {
    0 <= i && i + n.len() <= h.len() && h.subrange(i, i + n.len()) == n
}

/// `n` occurs somewhere in `h`.
pub open spec fn seq_contains(h: Seq<char>, n: Seq<char>) -> bool {
    exists|i: int| contains_at(h, n, i)
}

/// Substring search up to ASCII case: does `lower(h)` contain `lower(n)`?
pub fn contains_nocase(h: &str, n: &str) -> (r: bool)
    ensures
        r == seq_contains(lower(h@), lower(n@)),
{
    let hl = h.unicode_len();
    let nl = n.unicode_len();
    if nl > hl {
        return false;
    }
    let mut i: usize = 0;
    while i <= hl - nl
        invariant
            0 <= i <= hl - nl + 1,
            nl <= hl,
            hl == h@.len(),
            nl == n@.len(),
            forall|k: int| 0 <= k < i ==> !contains_at(lower(h@), lower(n@), k),
        decreases hl - nl + 1 - i,
    {
        let mut j: usize = 0;
        let mut same = true;
        while j < nl
            invariant
                0 <= j <= nl,
                i + nl <= hl,
                hl == h@.len(),
                nl == n@.len(),
                same ==> forall|t: int| 0 <= t < j ==> lower_char(h@[i + t]) == lower_char(n@[t]),
                !same ==> exists|t: int| 0 <= t < nl && lower_char(h@[i + t]) != lower_char(n@[t]),
            decreases nl - j,
    {
            let ch = h.get_char(i + j);
            let cn = n.get_char(j);
            let lh: char = if 'A' <= ch && ch <= 'Z' {
                (((ch as u8) + 0x20) as char)
            } else {
                ch
            };
            let ln: char = if 'A' <= cn && cn <= 'Z' {
                (((cn as u8) + 0x20) as char)
            } else {
                cn
            };
            if lh != ln {
                same = false;
                j = nl;
            } else {
                j = j + 1;
            }
        }
        if same {
            proof {
                assert forall|t: int| 0 <= t < nl implies lower(h@).subrange(i as int, i + nl)[t]
                    == lower(n@)[t] by {
                    assert(lower(h@)[i + t] == lower_char(h@[i + t]));
                    assert(lower(n@)[t] == lower_char(n@[t]));
                }
                assert(lower(h@).subrange(i as int, i + nl) =~= lower(n@));
                assert(contains_at(lower(h@), lower(n@), i as int));
            }
            return true;
        }
        proof {
            let t = choose|t: int|
                0 <= t < nl && lower_char(h@[i + t]) != lower_char(n@[t]);
            assert(lower(h@)[i + t] != lower(n@)[t]);
            assert(!contains_at(lower(h@), lower(n@), i as int));
        }
        i = i + 1;
    }
    proof {
        assert(lower(h@).len() == hl && lower(n@).len() == nl);
        assert forall|k: int| !contains_at(lower(h@), lower(n@), k) by {
            if 0 <= k && k + nl <= hl {
                assert(k < i);
            }
        }
    }
    false
}

/// Lower-casing leaves a sequence without ASCII capitals unchanged.
pub proof fn lemma_lower_fixed(s: Seq<char>)
    requires
        forall|i: int| 0 <= i < s.len() ==> !('A' <= s[i] && s[i] <= 'Z'),
    ensures
        lower(s) == s,
{
    assert(lower(s) =~= s);
}

/// Concatenation of three strings.
pub fn concat3(a: &str, b: &str, c: &str) -> (r: String)
    ensures
        r@ == a@ + b@ + c@,
{
    a.to_owned().concat(b).concat(c)
}

} // verus!
