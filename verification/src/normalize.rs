//! Model-identifier normalization: maps a caller-supplied model token to the
//! identifier the inference server expects. Total and deterministic; applied
//! identically by the buffered and the streaming bridge.

use vstd::prelude::*;
use vstd::string::*;

verus! {

/// The canonical identifier used when the caller names no model, or names
/// the known alias.
pub open spec fn canonical_default() -> Seq<char> {
    "llama3:8b"@
}

/// The one alias token recognized from callers.
pub open spec fn alias_token() -> Seq<char> {
    "llama3.1"@
}

/// Whether the character `c` occurs anywhere in `s`.
pub open spec fn has_char(s: Seq<char>, c: char) -> bool {
    exists|i: int| 0 <= i < s.len() && s[i] == c
}

/// Every `.` rewritten to `:`, all other characters kept in place.
pub open spec fn dots_to_colons(s: Seq<char>) -> Seq<char> {
    s.map_values(|c: char| if c == '.' { ':' } else { c })
}

/// View of an optional owned string as an optional character sequence.
pub open spec fn opt_str_view(m: Option<String>) -> Option<Seq<char>> {
    match m {
        Some(s) => Some(s@),
        None => None,
    }
}

/// What normalization returns for a caller-supplied model token: the
/// canonical default when absent or aliased; a "major.minor"-style token
/// coerced into "name:tag" form; anything else unchanged.
pub open spec fn normalize_spec(m: Option<Seq<char>>) -> Seq<char> {
    match m {
        None => canonical_default(),
        Some(s) => {
            if s == alias_token() {
                canonical_default()
            } else if has_char(s, '.') && !has_char(s, ':') {
                dots_to_colons(s)
            } else {
                s
            }
        },
    }
}

/// Whether `c` occurs in `s`, by a scan over the characters.
fn contains_char(s: &str, c: char) -> (b: bool)
    ensures
        b == has_char(s@, c),
{
    let n = s.unicode_len();
    let mut i: usize = 0;
    while i < n
        invariant
            n == s@.len(),
            i <= n,
            forall|j: int| 0 <= j < i ==> s@[j] != c,
        decreases n - i,
    {
        if s.get_char(i) == c {
            proof {
                assert(s@[i as int] == c);
            }
            return true;
        }
        i += 1;
    }
    false
}

/// Builds the token with every `.` replaced by `:`.
fn rewrite_dots(s: &str) -> (r: String)
    ensures
        r@ == dots_to_colons(s@),
{
    let n = s.unicode_len();
    let mut out = String::new();
    let mut i: usize = 0;
    while i < n
        invariant
            n == s@.len(),
            i <= n,
            out@ == dots_to_colons(s@.subrange(0, i as int)),
        decreases n - i,
    {
        let c = s.get_char(i);
        if c == '.' {
            out.append(":");
        } else {
            let piece = s.substring_char(i, i + 1);
            out.append(piece);
        }
        proof {
            reveal_strlit(":");
            let prev = s@.subrange(0, i as int);
            let next = s@.subrange(0, i + 1 as int);
            assert(next =~= prev.push(s@[i as int]));
            assert(dots_to_colons(next) =~= dots_to_colons(prev).push(
                if s@[i as int] == '.' {
                    ':'
                } else {
                    s@[i as int]
                },
            ));
            assert(s@.subrange(i as int, i + 1 as int) =~= seq![s@[i as int]]);
        }
        i += 1;
    }
    proof {
        assert(s@.subrange(0, n as int) =~= s@);
    }
    out
}

/// Normalizes a caller-supplied model token, exactly as `normalize_spec`
/// describes. Total: no input is rejected.
pub fn normalize_model(model: Option<String>) -> (r: String)
    ensures
        r@ == normalize_spec(opt_str_view(model)),
{
    match model {
        None => String::from_str("llama3:8b"),
        Some(m) => {
            let alias = String::from_str("llama3.1");
            if m == alias {
                String::from_str("llama3:8b")
            } else {
                let has_dot = contains_char(m.as_str(), '.');
                let has_colon = contains_char(m.as_str(), ':');
                if has_dot && !has_colon {
                    rewrite_dots(m.as_str())
                } else {
                    m
                }
            }
        },
    }
}

/// Normalization is idempotent: a token that has already been normalized is
/// returned unchanged by a second normalization.
pub proof fn lemma_normalize_idempotent(m: Option<Seq<char>>)
    ensures
        normalize_spec(Some(normalize_spec(m))) == normalize_spec(m),
{
    reveal_strlit("llama3:8b");
    reveal_strlit("llama3.1");
    assert(canonical_default()[6] == ':');
    assert(has_char(canonical_default(), ':'));
    assert(canonical_default().len() != alias_token().len());
    assert(forall|j: int| 0 <= j < alias_token().len() ==> alias_token()[j] != ':');
    match m {
        None => {
        },
        Some(s) => {
            if s == alias_token() {
            } else if has_char(s, '.') && !has_char(s, ':') {
                let y = dots_to_colons(s);
                let i = choose|i: int| 0 <= i < s.len() && s[i] == '.';
                assert(y[i] == ':');
                assert(has_char(y, ':'));
                assert(y != alias_token()) by {
                    if y == alias_token() {
                        assert(alias_token()[i] == ':');
                    }
                }
            } else {
            }
        },
    }
}

} // verus!
