//! The annotation grammar: the one recognized payload shape is
//! `each = "<name>"`, with optional blank space around the three tokens.
//! The parser extracts the quoted name, or rejects the payload.

use vstd::prelude::*;
use vstd::string::StrSliceExecFns;

verus! {

/// Blank space accepted between the tokens of an annotation payload.
pub open spec fn is_blank(c: char) -> bool {
    c == ' ' || c == '\t' || c == '\n' || c == '\r'
}

/// The index of the first non-blank character at or after `i`, or the
/// payload's length when only blank space remains.
pub open spec fn skip_blank(s: Seq<char>, i: int) -> int
    decreases s.len() - i,
{
    if 0 <= i < s.len() && is_blank(s[i]) {
        skip_blank(s, i + 1)
    } else {
        i
    }
}

pub proof fn lemma_skip_blank(s: Seq<char>, i: int)
    requires
        0 <= i <= s.len(),
    ensures
        i <= skip_blank(s, i) <= s.len(),
        skip_blank(s, i) < s.len() ==> !is_blank(s[skip_blank(s, i)]),
    decreases s.len() - i,
{
    if i < s.len() && is_blank(s[i]) {
        lemma_skip_blank(s, i + 1);
    }
}

/// The index of the first double quote at or after `i`, or the payload's
/// length when none remains.
pub open spec fn next_quote(s: Seq<char>, i: int) -> int
    decreases s.len() - i,
{
    if 0 <= i < s.len() {
        if s[i] == '"' {
            i
        } else {
            next_quote(s, i + 1)
        }
    } else {
        i
    }
}

pub proof fn lemma_next_quote(s: Seq<char>, i: int)
    requires
        0 <= i <= s.len(),
    ensures
        i <= next_quote(s, i) <= s.len(),
        next_quote(s, i) < s.len() ==> s[next_quote(s, i)] == '"',
        forall|j: int| i <= j < next_quote(s, i) ==> s[j] != '"',
    decreases s.len() - i,
{
    if i < s.len() && s[i] != '"' {
        lemma_next_quote(s, i + 1);
    }
}

/// The annotation grammar, as a deterministic parse of the payload: blank
/// space, the word `each`, blank space, `=`, blank space, then a
/// double-quoted name (the first closing quote ends it), then blank space to
/// the end. The result is the quoted name, or nothing when the payload does
/// not have that shape.
pub open spec fn spec_parse_each(s: Seq<char>) -> Option<Seq<char>> {
    let i0 = skip_blank(s, 0);
    if !(i0 + 4 <= s.len() && s[i0] == 'e' && s[i0 + 1] == 'a' && s[i0 + 2] == 'c' && s[i0 + 3]
        == 'h') {
        None
    } else {
        let i1 = skip_blank(s, i0 + 4);
        if !(i1 < s.len() && s[i1] == '=') {
            None
        } else {
            let i2 = skip_blank(s, i1 + 1);
            if !(i2 < s.len() && s[i2] == '"') {
                None
            } else {
                let q = next_quote(s, i2 + 1);
                if q == s.len() {
                    None
                } else if skip_blank(s, q + 1) != s.len() {
                    None
                } else {
                    Some(s.subrange(i2 + 1, q))
                }
            }
        }
    }
}

/// Walk past blank space, starting at `i`.
fn skip_blank_exec(s: &str, i: usize) -> (j: usize)
    requires
        i <= s@.len(),
    ensures
        j == skip_blank(s@, i as int),
        i <= j <= s@.len(),
        j < s@.len() ==> !is_blank(s@[j as int]),
{
    let n = s.unicode_len();
    let mut j = i;
    loop
        invariant
            i <= j <= n,
            n == s@.len(),
            skip_blank(s@, i as int) == skip_blank(s@, j as int),
        ensures
            i <= j <= n,
            j == skip_blank(s@, i as int),
            j < n ==> !is_blank(s@[j as int]),
        decreases n - j,
    {
        if j < n {
            let c = s.get_char(j);
            if c == ' ' || c == '\t' || c == '\n' || c == '\r' {
                j = j + 1;
            } else {
                proof {
                    assert(skip_blank(s@, j as int) == j);
                }
                break;
            }
        } else {
            proof {
                assert(skip_blank(s@, j as int) == j);
            }
            break;
        }
    }
    j
}

/// Walk to the next double quote, starting at `i`.
fn next_quote_exec(s: &str, i: usize) -> (j: usize)
    requires
        i <= s@.len(),
    ensures
        j == next_quote(s@, i as int),
        i <= j <= s@.len(),
        j < s@.len() ==> s@[j as int] == '"',
{
    let n = s.unicode_len();
    let mut j = i;
    loop
        invariant
            i <= j <= n,
            n == s@.len(),
            next_quote(s@, i as int) == next_quote(s@, j as int),
        ensures
            i <= j <= n,
            j == next_quote(s@, i as int),
            j < n ==> s@[j as int] == '"',
        decreases n - j,
    {
        if j < n {
            let c = s.get_char(j);
            if c == '"' {
                proof {
                    assert(next_quote(s@, j as int) == j);
                }
                break;
            } else {
                proof {
                    assert(next_quote(s@, j as int) == next_quote(s@, j as int + 1));
                }
                j = j + 1;
            }
        } else {
            proof {
                assert(next_quote(s@, j as int) == j);
            }
            break;
        }
    }
    j
}

/// Parse an annotation payload against the `each = "<name>"` grammar,
/// returning the quoted name when the payload has exactly that shape.
pub fn parse_each(s: &str) -> (r: Option<String>)
    ensures
        match r {
            Some(name) => spec_parse_each(s@) == Some(name@),
            None => spec_parse_each(s@) is None,
        },
{
    let n = s.unicode_len();
    let i0 = skip_blank_exec(s, 0);
    if n - i0 < 4 {
        return None;
    }
    if !(s.get_char(i0) == 'e' && s.get_char(i0 + 1) == 'a' && s.get_char(i0 + 2) == 'c'
        && s.get_char(i0 + 3) == 'h') {
        return None;
    }
    let i1 = skip_blank_exec(s, i0 + 4);
    if i1 == n {
        return None;
    }
    if s.get_char(i1) != '=' {
        return None;
    }
    let i2 = skip_blank_exec(s, i1 + 1);
    if i2 == n {
        return None;
    }
    if s.get_char(i2) != '"' {
        return None;
    }
    let q = next_quote_exec(s, i2 + 1);
    if q == n {
        return None;
    }
    let t = skip_blank_exec(s, q + 1);
    if t != n {
        return None;
    }
    let name = s.substring_char(i2 + 1, q).to_owned();
    Some(name)
}

} // verus!
