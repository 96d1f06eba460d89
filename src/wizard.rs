//! Resolution in a wizard-layout project: property names from file paths, and
//! the procedure and step of a step script.

use vstd::prelude::*;
use crate::expression::project_root;
use crate::inference::{procedure_name_of, step_name_of};
use crate::paths::{component_chars, extended, has_prefix, is_prefix, parts, ChangedPath};
use crate::text::{chars_of, copy_range, join, join_with, matches_at, push_all, run_end, scan_run, string_of, views, CharClass};
use crate::updater::{pair_result, text_result, PluginWizard, UpdateError};

verus! {

/// Where the extension of `s` starts, searching from `i`: the first `.` that is
/// followed by at least one character and by no line feed.
pub open spec fn extension_from(s: Seq<char>, i: int) -> Option<int>
    decreases s.len() - i,
{
    if i < 0 || i >= s.len() {
        None
    } else if s[i] == '.' && i + 1 < s.len() && run_end(s, i + 1, CharClass::Except('\n')) == s.len() {
        Some(i)
    } else {
        extension_from(s, i + 1)
    }
}

/// `s` up to its extension.
pub open spec fn without_extension(s: Seq<char>) -> Seq<char> {
    match extension_from(s, 0) {
        Some(i) => s.subrange(0, i),
        None => s,
    }
}

/// `s` with each backslash turned into `/`.
pub open spec fn forward_slashes(s: Seq<char>) -> Seq<char> {
    s.map_values(|c: char| if c == '\\' { '/' } else { c })
}

pub open spec fn properties_dir(folder: Seq<Seq<char>>) -> Seq<Seq<char>> {
    folder + seq!["dsl"@, "properties"@]
}

pub open spec fn procedures_dir(folder: Seq<Seq<char>>) -> Seq<Seq<char>> {
    folder + seq!["dsl"@, "procedures"@]
}

/// The property that a file under `dsl/properties` stands for: its path below
/// that folder, without extension, with `/` between segments, under the
/// project root of `key`.
pub open spec fn property_name_of(
    key: Seq<char>,
    folder: Seq<Seq<char>>,
    path: Seq<Seq<char>>,
    absolute: bool,
    sep: char,
) -> Result<Seq<char>, UpdateError> {
    let dir = properties_dir(folder);
    if !absolute {
        Err(UpdateError::NotAbsolute)
    } else if !is_prefix(dir, path) {
        Err(UpdateError::OutsideProject)
    } else {
        let rel = join_with(path.subrange(dir.len() as int, path.len() as int), sep);
        Ok(project_root(key) + forward_slashes(without_extension(rel)))
    }
}

/// The definition script of a step script's procedure, and the step script's
/// file name.
pub open spec fn script_location(folder: Seq<Seq<char>>, path: Seq<Seq<char>>) -> Result<(Seq<Seq<char>>, Seq<char>), UpdateError> {
    let dir = procedures_dir(folder);
    if !is_prefix(folder, path) || !is_prefix(dir, path) {
        Err(UpdateError::OutsideProject)
    } else if path.len() == dir.len() {
        Err(UpdateError::NoProcedureFolder)
    } else if path.last() == ".."@ {
        Err(UpdateError::NoFileName)
    } else {
        Ok((dir + seq![path[dir.len() as int], "procedure.dsl"@], path.last()))
    }
}

/// The procedure and step names of a step script, from the text of its
/// procedure's definition script.
pub open spec fn procedure_and_step_of(folder: Seq<Seq<char>>, path: Seq<Seq<char>>, script: Seq<char>) -> Result<(Seq<char>, Seq<char>), UpdateError> {
    match script_location(folder, path) {
        Err(e) => Err(e),
        Ok((_, file_name)) => match step_name_of(script, file_name) {
            None => Err(UpdateError::StepNameNotFound),
            Some(step) => match procedure_name_of(script) {
                None => Err(UpdateError::ProcedureNameNotFound),
                Some(procedure) => Ok((procedure, step)),
            },
        },
    }
}

fn strip_extension(s: &Vec<char>) -> (r: Vec<char>)
    ensures
        r@ == without_extension(s@),
{
    let mut i: usize = 0;
    while i < s.len()
        invariant
            i <= s@.len(),
            extension_from(s@, i as int) == extension_from(s@, 0),
        decreases s@.len() - i,
    {
        if s[i] == '.' && i + 1 < s.len() && scan_run(s, i + 1, CharClass::Except('\n')) == s.len() {
            return copy_range(s, 0, i);
        }
        i = i + 1;
    }
    assert(s@.subrange(0, s@.len() as int) =~= s@);
    copy_range(s, 0, s.len())
}

fn to_forward_slashes(s: &Vec<char>) -> (r: Vec<char>)
    ensures
        r@ == forward_slashes(s@),
{
    let mut r: Vec<char> = Vec::new();
    let mut i: usize = 0;
    while i < s.len()
        invariant
            i <= s@.len(),
            r@ == forward_slashes(s@.subrange(0, i as int)),
        decreases s@.len() - i,
    {
        if s[i] == '\\' {
            r.push('/');
        } else {
            r.push(s[i]);
        }
        i = i + 1;
        assert(r@ =~= forward_slashes(s@.subrange(0, i as int)));
    }
    assert(s@.subrange(0, s@.len() as int) =~= s@);
    r
}

fn is_parent_ref(s: &String) -> (r: bool)
    ensures
        r == (s@ == ".."@),
{
    let c = chars_of(s.as_str());
    let dots = chars_of("..");
    let r = c.len() == dots.len() && matches_at(&c, 0, &dots);
    assert(c@.subrange(0, c@.len() as int) =~= c@);
    r
}

impl PluginWizard {
    /// The remote property that a changed file under `dsl/properties` stands for.
    pub fn property_name(&self, path: &ChangedPath, sep: char) -> (r: Result<String, UpdateError>)
        ensures
            text_result(r) == property_name_of(
                self.meta.key@,
                parts(self.meta.folder@),
                parts(path.components@),
                path.absolute,
                sep,
            ),
    {
        if !path.absolute {
            return Err(UpdateError::NotAbsolute);
        }
        let dir = extended(&self.meta.folder, &vec!["dsl", "properties"]);
        assert(parts(dir@) =~= properties_dir(parts(self.meta.folder@)));
        if !has_prefix(&path.components, &dir) {
            return Err(UpdateError::OutsideProject);
        }
        let rel = join(&component_chars(&path.components, dir.len()), sep);
        let mut name = chars_of("/plugins/");
        push_all(&mut name, &chars_of(self.meta.key.as_str()));
        push_all(&mut name, &chars_of("/project/"));
        push_all(&mut name, &to_forward_slashes(&strip_extension(&rel)));
        Ok(string_of(&name))
    }

    /// Where the definition script of a step script's procedure lies.
    pub fn procedure_script_path(&self, path: &ChangedPath) -> (r: Result<Vec<String>, UpdateError>)
        ensures
            match r {
                Ok(p) => script_location(parts(self.meta.folder@), parts(path.components@)) matches Ok((loc, _)) && parts(p@) == loc,
                Err(e) => script_location(parts(self.meta.folder@), parts(path.components@)) == Err::<(Seq<Seq<char>>, Seq<char>), UpdateError>(e),
            },
    {
        match self.step_file_name(path) {
            Err(e) => Err(e),
            Ok(_) => {
                let dir = extended(&self.meta.folder, &vec!["dsl", "procedures"]);
                assert(parts(dir@) =~= procedures_dir(parts(self.meta.folder@)));
                let k = dir.len();
                let folder_name = path.components[k].as_str();
                let r = extended(&dir, &vec![folder_name, "procedure.dsl"]);
                assert(parts(r@) =~= procedures_dir(parts(self.meta.folder@)) + seq![parts(path.components@)[k as int], "procedure.dsl"@]);
                Ok(r)
            },
        }
    }

    fn step_file_name(&self, path: &ChangedPath) -> (r: Result<String, UpdateError>)
        ensures
            match r {
                Ok(f) => script_location(parts(self.meta.folder@), parts(path.components@)) matches Ok((_, name)) && f@ == name
                    && procedures_dir(parts(self.meta.folder@)).len() < path.components@.len(),
                Err(e) => script_location(parts(self.meta.folder@), parts(path.components@)) == Err::<(Seq<Seq<char>>, Seq<char>), UpdateError>(e),
            },
    {
        let dir = extended(&self.meta.folder, &vec!["dsl", "procedures"]);
        assert(parts(dir@) =~= procedures_dir(parts(self.meta.folder@)));
        if !has_prefix(&path.components, &self.meta.folder) || !has_prefix(&path.components, &dir) {
            return Err(UpdateError::OutsideProject);
        }
        if path.components.len() == dir.len() {
            return Err(UpdateError::NoProcedureFolder);
        }
        let last = path.components[path.components.len() - 1].clone();
        if is_parent_ref(&last) {
            return Err(UpdateError::NoFileName);
        }
        Ok(last)
    }

    /// The procedure and step names of a step script, given the text of its
    /// procedure's definition script.
    pub fn get_procedure_and_step_name(&self, path: &ChangedPath, script: &str) -> (r: Result<(String, String), UpdateError>)
        ensures
            pair_result(r) == procedure_and_step_of(parts(self.meta.folder@), parts(path.components@), script@),
    {
        let file_name = match self.step_file_name(path) {
            Err(e) => return Err(e),
            Ok(f) => f,
        };
        let step = match PluginWizard::deduce_step_name(script, file_name.as_str()) {
            None => return Err(UpdateError::StepNameNotFound),
            Some(s) => s,
        };
        match PluginWizard::deduce_procedure_name(script) {
            None => Err(UpdateError::ProcedureNameNotFound),
            Some(procedure) => Ok((procedure, step)),
        }
    }
}

} // verus!
