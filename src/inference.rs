//! Inference of procedure and step names from a procedure definition script,
//! for projects that carry no manifest.

use vstd::prelude::*;
use crate::pattern::{first_match, last_match, lemma_last_match_is_latest, match_at, scan_first, scan_last, captured, Found, PatKind};
use crate::text::{chars_of, copy_range, find, find_from, lemma_find_found, opt_view, string_of, CharClass};
use crate::updater::PluginWizard;

verus! {

pub open spec fn step_keyword() -> Seq<char> {
    seq!['s', 't', 'e', 'p']
}

pub open spec fn procedure_keyword() -> Seq<char> {
    seq!['p', 'r', 'o', 'c', 'e', 'd', 'u', 'r', 'e']
}

/// The text that a match captured in `s`.
pub open spec fn capture(s: Seq<char>, m: Option<Found>) -> Option<Seq<char>> {
    match m {
        Some((a, b, _)) => Some(s.subrange(a, b)),
        None => None,
    }
}

/// The label of the step declaration (`step 'label'` or `step "label"`) that
/// starts last before the first occurrence of `anchor` in `script`: the
/// closest preceding declaration. None where `anchor` does not occur or no
/// declaration precedes it.
pub open spec fn step_name_of(script: Seq<char>, anchor: Seq<char>) -> Option<Seq<char>> {
    match find_from(script, anchor, 0) {
        None => None,
        Some(p) => {
            let before = script.subrange(0, p);
            capture(before, last_match(before, before.len() as int, PatKind::Declaration, step_keyword()))
        },
    }
}

/// The closest declaration before the anchor names the step: where the anchor
/// first occurs at `p`, a step declaration starts at `j` before it, and no
/// other declaration starts between the two, the step name is that
/// declaration's label. Declarations after the anchor play no part.
pub proof fn lemma_closest_declaration_wins(script: Seq<char>, anchor: Seq<char>, p: int, j: int)
    requires
        find_from(script, anchor, 0) == Some(p),
        0 <= j < p,
        match_at(script.subrange(0, p), j, PatKind::Declaration, step_keyword()) is Some,
        forall|k: int| j < k < p ==> #[trigger] match_at(script.subrange(0, p), k, PatKind::Declaration, step_keyword()) is None,
    ensures
        step_name_of(script, anchor) == capture(
            script.subrange(0, p),
            match_at(script.subrange(0, p), j, PatKind::Declaration, step_keyword()),
        ),
{
    let before = script.subrange(0, p);
    lemma_find_found(script, anchor, 0);
    assert(before.len() == p);
    lemma_last_match_is_latest(before, p, PatKind::Declaration, step_keyword(), j);
}

/// The label of the first literal declaration `procedure 'label'`.
pub open spec fn literal_procedure_of(script: Seq<char>) -> Option<Seq<char>> {
    capture(script, first_match(script, 0, PatKind::Declaration, procedure_keyword()))
}

/// The identifier after the first `procedure` that is followed by one, and the
/// quoted label of the first assignment to that identifier.
pub open spec fn variable_procedure_of(script: Seq<char>) -> Option<Seq<char>> {
    match capture(script, first_match(script, 0, PatKind::Reference, procedure_keyword())) {
        None => None,
        Some(var) => capture(
            script,
            first_match(script, 0, PatKind::Assignment(CharClass::Label), var),
        ),
    }
}

/// The procedure name: by a literal declaration first, else through a variable.
pub open spec fn procedure_name_of(script: Seq<char>) -> Option<Seq<char>> {
    match literal_procedure_of(script) {
        Some(name) => Some(name),
        None => variable_procedure_of(script),
    }
}

fn step_literal() -> (r: Vec<char>)
    ensures
        r@ == step_keyword(),
{
    let r = vec!['s', 't', 'e', 'p'];
    assert(r@ =~= step_keyword());
    r
}

fn procedure_literal() -> (r: Vec<char>)
    ensures
        r@ == procedure_keyword(),
{
    let r = vec!['p', 'r', 'o', 'c', 'e', 'd', 'u', 'r', 'e'];
    assert(r@ =~= procedure_keyword());
    r
}

/// The procedure named by a literal declaration.
pub fn procedure_from_literal(script: &Vec<char>) -> (r: Option<String>)
    ensures
        opt_view(r) == literal_procedure_of(script@),
{
    let kw = procedure_literal();
    match scan_first(script, PatKind::Declaration, &kw) {
        Some(m) => Some(string_of(&captured(script, m))),
        None => None,
    }
}

/// The procedure named through a variable that holds its name.
pub fn procedure_from_variable(script: &Vec<char>) -> (r: Option<String>)
    ensures
        opt_view(r) == variable_procedure_of(script@),
{
    let kw = procedure_literal();
    match scan_first(script, PatKind::Reference, &kw) {
        Some(v) => {
            let var = captured(script, v);
            match scan_first(script, PatKind::Assignment(CharClass::Label), &var) {
                Some(m) => Some(string_of(&captured(script, m))),
                None => None,
            }
        },
        None => None,
    }
}

impl PluginWizard {
    /// The name of the step whose script is referred to by `relative_path`
    /// in the procedure definition `fragment`.
    pub fn deduce_step_name(fragment: &str, relative_path: &str) -> (r: Option<String>)
        ensures
            opt_view(r) == step_name_of(fragment@, relative_path@),
    {
        let script = chars_of(fragment);
        let anchor = chars_of(relative_path);
        match find(&script, &anchor) {
            None => None,
            Some(p) => {
                let before = copy_range(&script, 0, p);
                let kw = step_literal();
                match scan_last(&before, PatKind::Declaration, &kw) {
                    Some(m) => Some(string_of(&captured(&before, m))),
                    None => None,
                }
            },
        }
    }

    /// The name of the procedure that the definition `fragment` declares.
    pub fn deduce_procedure_name(fragment: &str) -> (r: Option<String>)
        ensures
            opt_view(r) == procedure_name_of(fragment@),
    {
        let script = chars_of(fragment);
        match procedure_from_literal(&script) {
            Some(name) => Some(name),
            None => procedure_from_variable(&script),
        }
    }
}

} // verus!
