//! The textual patterns by which declarations, assignments and attributes are
//! recognised, and leftmost and last searches for them.

use vstd::prelude::*;
use crate::text::{copy_range, has_at, is_quote, matches_at, run_end, scan_run, CharClass};

verus! {

/// The shapes of pattern that follow a keyword.
#[derive(Clone, Copy, PartialEq, Eq, Structural, Debug)]
pub enum PatKind {
    /// `kw`, white space, then a quoted label: `step 'name'` or `step "name"`.
    Declaration,
    /// `kw`, white space, then an identifier: `procedure name`.
    Reference,
    /// `kw`, `=` between optional white space, then a quoted run of the class.
    Assignment(CharClass),
    /// `kw = 'Plugins: name`, with optional white space around `=` and `:`.
    Description,
    /// `kw` directly followed by a quoted run of word characters and white space.
    Attribute,
    /// `kw` directly followed by a quote, then the shortest non-empty text on
    /// one line up to the same quote again.
    LazyAttribute,
}

pub open spec fn plugins_word() -> Seq<char> {
    seq!['P', 'l', 'u', 'g', 'i', 'n', 's']
}

/// A match, as the start and end of its captured text and the end of the match.
pub type Found = (int, int, int);

pub open spec fn found_of(o: Option<(usize, usize, usize)>) -> Option<Found> {
    match o {
        Some((a, b, e)) => Some((a as int, b as int, e as int)),
        None => None,
    }
}

/// A quote at `q`, a non-empty run of class `k`, and the same quote again.
pub open spec fn quoted_at(s: Seq<char>, q: int, k: CharClass) -> Option<Found> {
    if 0 <= q < s.len() && is_quote(s[q]) {
        let c = run_end(s, q + 1, k);
        if c > q + 1 && c < s.len() && s[c] == s[q] {
            Some((q + 1, c, c + 1))
        } else {
            None
        }
    } else {
        None
    }
}

/// The first `quote` at or after `i`, provided no line feed comes before it.
pub open spec fn quote_on_line(s: Seq<char>, i: int, quote: char) -> Option<int>
    decreases s.len() - i,
{
    if i < 0 || i >= s.len() {
        None
    } else if s[i] == quote {
        Some(i)
    } else if s[i] == '\n' {
        None
    } else {
        quote_on_line(s, i + 1, quote)
    }
}

/// A quote at `q`, one character other than a line feed, then text on the same
/// line up to the next occurrence of that same quote.
pub open spec fn lazy_quoted_at(s: Seq<char>, q: int) -> Option<Found> {
    if 0 <= q && q + 1 < s.len() && is_quote(s[q]) && s[q + 1] != '\n' {
        match quote_on_line(s, q + 2, s[q]) {
            Some(j) => Some((q + 1, j, j + 1)),
            None => None,
        }
    } else {
        None
    }
}

/// Optional white space, `=`, optional white space from `a`: where the value starts.
pub open spec fn assign_rest(s: Seq<char>, a: int) -> Option<int> {
    let b = run_end(s, a, CharClass::Space);
    if b < s.len() && s[b] == '=' {
        Some(run_end(s, b + 1, CharClass::Space))
    } else {
        None
    }
}

pub open spec fn description_rest(s: Seq<char>, q: int) -> Option<Found> {
    if 0 <= q < s.len() && is_quote(s[q]) && has_at(s, q + 1, plugins_word()) {
        let b = run_end(s, q + 1 + plugins_word().len(), CharClass::Space);
        if b < s.len() && s[b] == ':' {
            let c = run_end(s, b + 1, CharClass::Space);
            let d = run_end(s, c, CharClass::Name);
            if d > c {
                Some((c, d, d))
            } else {
                None
            }
        } else {
            None
        }
    } else {
        None
    }
}

/// The match of the pattern `kind` after keyword `kw` that starts at `i`, if any.
pub open spec fn match_at(s: Seq<char>, i: int, kind: PatKind, kw: Seq<char>) -> Option<Found> {
    if !has_at(s, i, kw) {
        None
    } else {
        let a = i + kw.len();
        match kind {
            PatKind::Declaration => {
                let b = run_end(s, a, CharClass::Space);
                if b > a {
                    quoted_at(s, b, CharClass::Label)
                } else {
                    None
                }
            },
            PatKind::Reference => {
                let b = run_end(s, a, CharClass::Space);
                let c = run_end(s, b, CharClass::Word);
                if b > a && c > b {
                    Some((b, c, c))
                } else {
                    None
                }
            },
            PatKind::Assignment(k) => match assign_rest(s, a) {
                Some(q) => quoted_at(s, q, k),
                None => None,
            },
            PatKind::Description => match assign_rest(s, a) {
                Some(q) => description_rest(s, q),
                None => None,
            },
            PatKind::Attribute => quoted_at(s, a, CharClass::WordOrSpace),
            PatKind::LazyAttribute => lazy_quoted_at(s, a),
        }
    }
}

/// The leftmost match at or after `from`.
pub open spec fn first_match(s: Seq<char>, from: int, kind: PatKind, kw: Seq<char>) -> Option<Found>
    decreases s.len() - from,
{
    if from < 0 || from >= s.len() {
        None
    } else {
        match match_at(s, from, kind, kw) {
            Some(m) => Some(m),
            None => first_match(s, from + 1, kind, kw),
        }
    }
}

/// The match that starts last among the positions before `n`.
pub open spec fn last_match(s: Seq<char>, n: int, kind: PatKind, kw: Seq<char>) -> Option<Found>
    decreases n,
{
    if n <= 0 {
        None
    } else {
        match match_at(s, n - 1, kind, kw) {
            Some(m) => Some(m),
            None => last_match(s, n - 1, kind, kw),
        }
    }
}

/// Where a match starts at `j` and none starts between `j` and `n`, the match
/// that starts last before `n` is the one at `j`.
pub proof fn lemma_last_match_is_latest(s: Seq<char>, n: int, kind: PatKind, kw: Seq<char>, j: int)
    requires
        0 <= j < n,
        match_at(s, j, kind, kw) is Some,
        forall|k: int| j < k < n ==> #[trigger] match_at(s, k, kind, kw) is None,
    ensures
        last_match(s, n, kind, kw) == match_at(s, j, kind, kw),
    decreases n - j,
{
    if n - 1 > j {
        assert(match_at(s, n - 1, kind, kw) is None);
        lemma_last_match_is_latest(s, n - 1, kind, kw, j);
    }
}

pub fn plugins_literal() -> (r: Vec<char>)
    ensures
        r@ == plugins_word(),
{
    let r = vec!['P', 'l', 'u', 'g', 'i', 'n', 's'];
    assert(r@ =~= plugins_word());
    r
}

fn quote_char(c: char) -> (r: bool)
    ensures
        r == is_quote(c),
{
    c == '\'' || c == '"'
}

fn scan_quoted(s: &Vec<char>, q: usize, k: CharClass) -> (r: Option<(usize, usize, usize)>)
    ensures
        found_of(r) == quoted_at(s@, q as int, k),
        r matches Some(m) ==> q < m.0 <= m.1 < m.2 <= s@.len(),
{
    if q < s.len() && quote_char(s[q]) {
        let c = scan_run(s, q + 1, k);
        if c > q + 1 && c < s.len() && s[c] == s[q] {
            Some((q + 1, c, c + 1))
        } else {
            None
        }
    } else {
        None
    }
}

fn scan_quote_on_line(s: &Vec<char>, i: usize, quote: char) -> (r: Option<usize>)
    ensures
        r matches Some(j) ==> quote_on_line(s@, i as int, quote) == Some(j as int) && i <= j < s@.len(),
        r is None ==> quote_on_line(s@, i as int, quote) is None,
{
    let mut j: usize = i;
    while j < s.len()
        invariant
            i <= j,
            quote_on_line(s@, j as int, quote) == quote_on_line(s@, i as int, quote),
        decreases s@.len() - j,
    {
        if s[j] == quote {
            return Some(j);
        }
        if s[j] == '\n' {
            return None;
        }
        j = j + 1;
    }
    None
}

fn scan_lazy_quoted(s: &Vec<char>, q: usize) -> (r: Option<(usize, usize, usize)>)
    ensures
        found_of(r) == lazy_quoted_at(s@, q as int),
        r matches Some(m) ==> q < m.0 <= m.1 < m.2 <= s@.len(),
{
    if q < s.len() && q + 1 < s.len() && quote_char(s[q]) && s[q + 1] != '\n' {
        match scan_quote_on_line(s, q + 2, s[q]) {
            Some(j) => Some((q + 1, j, j + 1)),
            None => None,
        }
    } else {
        None
    }
}

fn scan_assign_rest(s: &Vec<char>, a: usize) -> (r: Option<usize>)
    requires
        a <= s@.len(),
    ensures
        r matches Some(q) ==> assign_rest(s@, a as int) == Some(q as int) && a < q <= s@.len(),
        r is None ==> assign_rest(s@, a as int) is None,
{
    let b = scan_run(s, a, CharClass::Space);
    if b < s.len() && s[b] == '=' {
        Some(scan_run(s, b + 1, CharClass::Space))
    } else {
        None
    }
}

fn scan_description_rest(s: &Vec<char>, q: usize) -> (r: Option<(usize, usize, usize)>)
    ensures
        found_of(r) == description_rest(s@, q as int),
        r matches Some(m) ==> q < m.0 <= m.1 == m.2 <= s@.len(),
{
    let plugins = plugins_literal();
    if q < s.len() && quote_char(s[q]) && matches_at(s, q + 1, &plugins) {
        let b = scan_run(s, q + 1 + plugins.len(), CharClass::Space);
        if b < s.len() && s[b] == ':' {
            let c = scan_run(s, b + 1, CharClass::Space);
            let d = scan_run(s, c, CharClass::Name);
            if d > c {
                Some((c, d, d))
            } else {
                None
            }
        } else {
            None
        }
    } else {
        None
    }
}

/// The match of the pattern `kind` after keyword `kw` that starts at `i`, if any.
pub fn scan_at(s: &Vec<char>, i: usize, kind: PatKind, kw: &Vec<char>) -> (r: Option<(usize, usize, usize)>)
    ensures
        found_of(r) == match_at(s@, i as int, kind, kw@),
        r matches Some(m) ==> i < m.2 <= s@.len() && m.0 <= m.1 <= m.2,
{
    let n: usize = s.len();
    if !matches_at(s, i, kw) {
        return None;
    }
    assert(i + kw@.len() <= n);
    let a = i + kw.len();
    match kind {
        PatKind::Declaration => {
            let b = scan_run(s, a, CharClass::Space);
            if b > a {
                scan_quoted(s, b, CharClass::Label)
            } else {
                None
            }
        },
        PatKind::Reference => {
            let b = scan_run(s, a, CharClass::Space);
            let c = scan_run(s, b, CharClass::Word);
            if b > a && c > b {
                Some((b, c, c))
            } else {
                None
            }
        },
        PatKind::Assignment(k) => match scan_assign_rest(s, a) {
            Some(q) => scan_quoted(s, q, k),
            None => None,
        },
        PatKind::Description => match scan_assign_rest(s, a) {
            Some(q) => scan_description_rest(s, q),
            None => None,
        },
        PatKind::Attribute => scan_quoted(s, a, CharClass::WordOrSpace),
        PatKind::LazyAttribute => scan_lazy_quoted(s, a),
    }
}

/// The leftmost match in `s`.
pub fn scan_first(s: &Vec<char>, kind: PatKind, kw: &Vec<char>) -> (r: Option<(usize, usize, usize)>)
    ensures
        found_of(r) == first_match(s@, 0, kind, kw@),
        r matches Some(m) ==> m.0 <= m.1 <= s@.len(),
{
    let mut i: usize = 0;
    while i < s.len()
        invariant
            first_match(s@, i as int, kind, kw@) == first_match(s@, 0, kind, kw@),
        decreases s@.len() - i,
    {
        let m = scan_at(s, i, kind, kw);
        if m.is_some() {
            return m;
        }
        i = i + 1;
    }
    None
}

/// The match in `s` that starts last.
pub fn scan_last(s: &Vec<char>, kind: PatKind, kw: &Vec<char>) -> (r: Option<(usize, usize, usize)>)
    ensures
        found_of(r) == last_match(s@, s@.len() as int, kind, kw@),
        r matches Some(m) ==> m.0 <= m.1 <= s@.len(),
{
    let mut i: usize = s.len();
    while i > 0
        invariant
            i <= s@.len(),
            last_match(s@, i as int, kind, kw@) == last_match(s@, s@.len() as int, kind, kw@),
        decreases i,
    {
        let m = scan_at(s, i - 1, kind, kw);
        if m.is_some() {
            return m;
        }
        i = i - 1;
    }
    None
}

/// The text captured by a match.
pub fn captured(s: &Vec<char>, m: (usize, usize, usize)) -> (r: Vec<char>)
    requires
        m.0 <= m.1 <= s@.len(),
    ensures
        r@ == s@.subrange(m.0 as int, m.1 as int),
{
    copy_range(s, m.0, m.1)
}

} // verus!
