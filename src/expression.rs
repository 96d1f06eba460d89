//! Resolution of a manifest's target expressions into remote targets.

use vstd::prelude::*;
use crate::inference::capture;
use crate::pattern::{captured, first_match, scan_first, PatKind};
use crate::text::{chars_of, join, join_with, matches_at, push_all, split, split_on, string_of, views, has_at};

verus! {

/// Where a changed file's content goes on the remote server.
pub enum ResolvedTarget {
    /// A property, by its absolute path.
    Property(String),
    /// The command of a step: procedure name, then step name.
    ProcedureStep(String, String),
}

/// The mathematical value of a [`ResolvedTarget`].
pub ghost enum Target {
    Property(Seq<char>),
    ProcedureStep(Seq<char>, Seq<char>),
}

impl View for ResolvedTarget {
    type V = Target;

    open spec fn view(&self) -> Target {
        match self {
            ResolvedTarget::Property(p) => Target::Property(p@),
            ResolvedTarget::ProcedureStep(p, s) => Target::ProcedureStep(p@, s@),
        }
    }
}

/// What a left-to-right scan of the tokens has gathered: the property names in
/// order, and the procedure and step names last seen.
pub type ScanState = (Seq<Seq<char>>, Option<Seq<char>>, Option<Seq<char>>);

pub open spec fn starts_with(s: Seq<char>, prefix: Seq<char>) -> bool {
    has_at(s, 0, prefix)
}

/// The scan state after one more token.
pub open spec fn step_token(st: ScanState, tok: Seq<char>) -> ScanState {
    if starts_with(tok, "propertySheet"@) {
        st
    } else if starts_with(tok, "property"@) {
        match capture(tok, first_match(tok, 0, PatKind::LazyAttribute, "propertyName="@)) {
            Some(name) => (st.0.push(name), st.1, st.2),
            None => st,
        }
    } else if starts_with(tok, "procedure"@) {
        match capture(tok, first_match(tok, 0, PatKind::Attribute, "procedureName="@)) {
            Some(name) => (st.0, Some(name), st.2),
            None => st,
        }
    } else if starts_with(tok, "step"@) {
        match capture(tok, first_match(tok, 0, PatKind::Attribute, "stepName="@)) {
            Some(name) => (st.0, st.1, Some(name)),
            None => st,
        }
    } else {
        st
    }
}

pub open spec fn scan_tokens(tokens: Seq<Seq<char>>) -> ScanState
    decreases tokens.len(),
{
    if tokens.len() == 0 {
        (Seq::empty(), None, None)
    } else {
        step_token(scan_tokens(tokens.drop_last()), tokens.last())
    }
}

/// The root of a plugin's project properties: `/plugins/<key>/project/`.
pub open spec fn project_root(key: Seq<char>) -> Seq<char> {
    "/plugins/"@ + key + "/project/"@
}

/// The target that an expression denotes for the plugin `key`.
pub open spec fn expression_target(key: Seq<char>, expr: Seq<char>) -> Target {
    let st = scan_tokens(split_on(expr, '/'));
    match st.1 {
        None => Target::Property(project_root(key) + join_with(st.0, '/')),
        Some(procedure) => match st.2 {
            None => Target::Property(
                project_root(key) + "procedures/"@ + procedure + "/"@ + join_with(st.0, '/'),
            ),
            Some(step) => Target::ProcedureStep(procedure, step),
        },
    }
}

pub open spec fn opt_views(o: Option<Vec<char>>) -> Option<Seq<char>> {
    match o {
        Some(v) => Some(v@),
        None => None,
    }
}

/// Resolves the target expression `expr` for the plugin `key`.
pub fn resolve_expression(key: &str, expr: &str) -> (r: ResolvedTarget)
    ensures
        r@ == expression_target(key@, expr@),
{
    let tokens = split(&chars_of(expr), '/');
    let sheet = chars_of("propertySheet");
    let property = chars_of("property");
    let property_attr = chars_of("propertyName=");
    let procedure = chars_of("procedure");
    let procedure_attr = chars_of("procedureName=");
    let step = chars_of("step");
    let step_attr = chars_of("stepName=");
    let mut names: Vec<Vec<char>> = Vec::new();
    let mut procedure_name: Option<Vec<char>> = None;
    let mut step_name: Option<Vec<char>> = None;
    let mut i: usize = 0;
    while i < tokens.len()
        invariant
            i <= tokens@.len(),
            sheet@ == "propertySheet"@,
            property@ == "property"@,
            property_attr@ == "propertyName="@,
            procedure@ == "procedure"@,
            procedure_attr@ == "procedureName="@,
            step@ == "step"@,
            step_attr@ == "stepName="@,
            scan_tokens(views(tokens@.subrange(0, i as int))) == (
                views(names@),
                opt_views(procedure_name),
                opt_views(step_name),
            ),
        decreases tokens@.len() - i,
    {
        let ghost pre = views(tokens@.subrange(0, i as int));
        assert(views(tokens@.subrange(0, i + 1)).drop_last() =~= pre);
        let tok = &tokens[i];
        if matches_at(tok, 0, &sheet) {
        } else if matches_at(tok, 0, &property) {
            match scan_first(tok, PatKind::LazyAttribute, &property_attr) {
                Some(m) => {
                    names.push(captured(tok, m));
                    assert(views(names@) =~= scan_tokens(pre).0.push(tok@.subrange(m.0 as int, m.1 as int)));
                },
                None => {},
            }
        } else if matches_at(tok, 0, &procedure) {
            match scan_first(tok, PatKind::Attribute, &procedure_attr) {
                Some(m) => {
                    procedure_name = Some(captured(tok, m));
                },
                None => {},
            }
        } else if matches_at(tok, 0, &step) {
            match scan_first(tok, PatKind::Attribute, &step_attr) {
                Some(m) => {
                    step_name = Some(captured(tok, m));
                },
                None => {},
            }
        }
        i = i + 1;
    }
    assert(tokens@.subrange(0, tokens@.len() as int) =~= tokens@);
    let path = join(&names, '/');
    match procedure_name {
        None => {
            let mut r = chars_of("/plugins/");
            push_all(&mut r, &chars_of(key));
            push_all(&mut r, &chars_of("/project/"));
            push_all(&mut r, &path);
            ResolvedTarget::Property(string_of(&r))
        },
        Some(p) => match step_name {
            None => {
                let mut r = chars_of("/plugins/");
                push_all(&mut r, &chars_of(key));
                push_all(&mut r, &chars_of("/project/"));
                push_all(&mut r, &chars_of("procedures/"));
                push_all(&mut r, &p);
                push_all(&mut r, &chars_of("/"));
                push_all(&mut r, &path);
                assert(r@ =~= project_root(key@) + "procedures/"@ + p@ + "/"@ + path@);
                ResolvedTarget::Property(string_of(&r))
            },
            Some(s) => ResolvedTarget::ProcedureStep(string_of(&p), string_of(&s)),
        },
    }
}

} // verus!
