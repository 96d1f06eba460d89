//! Classification of a changed path in a wizard-layout project.

use vstd::prelude::*;
use crate::text::{chars_of, find, find_from, has_at, lemma_find_found, matches_at, run_end, scan_run, CharClass};

verus! {

/// The role of a changed file.
#[derive(Clone, Copy, PartialEq, Eq, Structural, Debug)]
pub enum ChangeKind {
    PropertyFile,
    StepScript,
    FormDefinition,
    Unrecognized,
}

/// `dsl<sep>properties<sep>`.
pub open spec fn properties_marker(sep: char) -> Seq<char> {
    "dsl"@.push(sep) + "properties"@.push(sep)
}

/// `dsl<sep>procedures<sep>`.
pub open spec fn procedures_marker(sep: char) -> Seq<char> {
    "dsl"@.push(sep) + "procedures"@.push(sep)
}

/// `<sep>steps<sep>`.
pub open spec fn steps_marker(sep: char) -> Seq<char> {
    seq![sep] + "steps"@.push(sep)
}

pub open spec fn contains(s: Seq<char>, pat: Seq<char>) -> bool {
    exists|i: int| has_at(s, i, pat)
}

/// At `i`: `dsl<sep>procedures<sep>`, one non-empty path segment (the
/// procedure's folder), then `<sep>steps<sep>`.
pub open spec fn steps_dir_at(s: Seq<char>, i: int, sep: char) -> bool {
    let a = i + procedures_marker(sep).len();
    let b = run_end(s, a, CharClass::Except(sep));
    has_at(s, i, procedures_marker(sep)) && b > a && has_at(s, b, steps_marker(sep))
}

pub open spec fn is_property_path(path: Seq<char>, sep: char) -> bool {
    contains(path, properties_marker(sep))
}

pub open spec fn is_step_path(path: Seq<char>, sep: char) -> bool {
    exists|i: int| #[trigger] steps_dir_at(path, i, sep)
}

/// The final segment is exactly `form.xml`.
pub open spec fn is_form_path(path: Seq<char>, sep: char) -> bool {
    path == "form.xml"@ || (path.len() > 8 && has_at(path, path.len() - 9, seq![sep] + "form.xml"@))
}

/// The role of `path`, checked in order: property, step, form.
pub open spec fn change_kind(path: Seq<char>, sep: char) -> ChangeKind {
    if is_property_path(path, sep) {
        ChangeKind::PropertyFile
    } else if is_step_path(path, sep) {
        ChangeKind::StepScript
    } else if is_form_path(path, sep) {
        ChangeKind::FormDefinition
    } else {
        ChangeKind::Unrecognized
    }
}

proof fn lemma_find_none(s: Seq<char>, pat: Seq<char>, from: int, i: int)
    requires
        0 <= from <= i,
        find_from(s, pat, from) is None,
    ensures
        !has_at(s, i, pat),
    decreases i - from,
{
    if from < i && from + pat.len() <= s.len() {
        lemma_find_none(s, pat, from + 1, i);
    }
}

fn with_sep(word: &str, sep: char) -> (r: Vec<char>)
    ensures
        r@ == word@.push(sep),
{
    let mut r = chars_of(word);
    r.push(sep);
    r
}

fn contains_exec(s: &Vec<char>, pat: &Vec<char>) -> (r: bool)
    ensures
        r == contains(s@, pat@),
{
    match find(s, pat) {
        Some(_) => {
            proof {
                lemma_find_found(s@, pat@, 0);
            }
            true
        },
        None => {
            assert forall|i: int| !has_at(s@, i, pat@) by {
                if 0 <= i {
                    lemma_find_none(s@, pat@, 0, i);
                }
            }
            false
        },
    }
}

/// The path lies under `dsl<sep>properties<sep>`.
pub fn is_property(path: &str, sep: char) -> (r: bool)
    ensures
        r == is_property_path(path@, sep),
{
    let mut marker = with_sep("dsl", sep);
    let mut tail = with_sep("properties", sep);
    marker.append(&mut tail);
    contains_exec(&chars_of(path), &marker)
}

/// The path lies in the `steps` folder of a procedure.
pub fn is_step_code(path: &str, sep: char) -> (r: bool)
    ensures
        r == is_step_path(path@, sep),
{
    let s = chars_of(path);
    let mut marker = with_sep("dsl", sep);
    let mut tail = with_sep("procedures", sep);
    marker.append(&mut tail);
    let mut steps: Vec<char> = vec![sep];
    let mut word = with_sep("steps", sep);
    steps.append(&mut word);
    assert(marker@ == procedures_marker(sep));
    assert(steps@ == steps_marker(sep));
    let mut i: usize = 0;
    while i < s.len()
        invariant
            marker@ == procedures_marker(sep),
            steps@ == steps_marker(sep),
            s@ == path@,
            forall|j: int| 0 <= j < i ==> !steps_dir_at(s@, j, sep),
        decreases s@.len() - i,
    {
        if matches_at(&s, i, &marker) {
            let a = i + marker.len();
            let b = scan_run(&s, a, CharClass::Except(sep));
            if b > a && matches_at(&s, b, &steps) {
                assert(steps_dir_at(path@, i as int, sep));
                return true;
            }
        }
        i = i + 1;
    }
    assert forall|j: int| !steps_dir_at(s@, j, sep) by {
        if j >= s@.len() {
            assert(!has_at(s@, j, procedures_marker(sep)));
        }
    }
    false
}

/// The final segment of the path is `form.xml`.
pub fn is_form_xml(path: &str, sep: char) -> (r: bool)
    ensures
        r == is_form_path(path@, sep),
{
    let s = chars_of(path);
    let form = chars_of("form.xml");
    let mut tail: Vec<char> = vec![sep];
    let mut word = chars_of("form.xml");
    tail.append(&mut word);
    assert(tail@ =~= seq![sep] + "form.xml"@);
    assert(s@.subrange(0, s@.len() as int) =~= s@);
    let whole = s.len() == form.len() && matches_at(&s, 0, &form);
    let last = s.len() > 8 && matches_at(&s, s.len() - 9, &tail);
    whole || last
}

/// The role of `path` in a wizard-layout project whose paths use `sep`.
pub fn classify(path: &str, sep: char) -> (r: ChangeKind)
    ensures
        r == change_kind(path@, sep),
{
    if is_property(path, sep) {
        ChangeKind::PropertyFile
    } else if is_step_code(path, sep) {
        ChangeKind::StepScript
    } else if is_form_xml(path, sep) {
        ChangeKind::FormDefinition
    } else {
        ChangeKind::Unrecognized
    }
}

/// Every path that holds `dsl`, `properties` and a separator after each is a
/// property file, whichever character separates its segments.
pub proof fn lemma_properties_are_property_files(prefix: Seq<char>, rest: Seq<char>, sep: char)
    ensures
        change_kind(prefix + properties_marker(sep) + rest, sep) == ChangeKind::PropertyFile,
{
    let path = prefix + properties_marker(sep) + rest;
    assert(path.subrange(prefix.len() as int, prefix.len() + properties_marker(sep).len() as int)
        =~= properties_marker(sep));
    assert(has_at(path, prefix.len() as int, properties_marker(sep)));
}

} // verus!
