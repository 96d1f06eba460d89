//! A Gradle project: key and version from the build file, and targets from the manifest.

use vstd::prelude::*;
use crate::expression::{expression_target, resolve_expression, ResolvedTarget};
use crate::inference::capture;
use crate::paths::{extended, has_suffix, is_suffix, parts};
use crate::pattern::{captured, first_match, scan_first, PatKind};
use crate::text::{chars_of, opt_view, push_all, string_of, CharClass};
use crate::updater::{Manifest, ManifestFile, PluginGradle, PluginMeta};

verus! {

/// The version in a build file: the digits and dots of the first
/// `version = '<digits>'`, with `.0` appended; empty where there is none.
pub open spec fn gradle_version_of(text: Seq<char>) -> Seq<char> {
    match capture(text, first_match(text, 0, PatKind::Assignment(CharClass::Version), "version"@)) {
        Some(v) => v + ".0"@,
        None => Seq::empty(),
    }
}

/// The plugin key in a build file: the name in the first
/// `description = 'Plugins: <name>`; empty where there is none.
pub open spec fn gradle_key_of(text: Seq<char>) -> Seq<char> {
    match capture(text, first_match(text, 0, PatKind::Description, "description"@)) {
        Some(n) => n,
        None => Seq::empty(),
    }
}

pub open spec fn manifest_location(folder: Seq<Seq<char>>) -> Seq<Seq<char>> {
    folder + seq!["src"@, "main"@, "resources"@, "project"@, "manifest.xml"@]
}

/// The expression of the first declared file, from index `i` on, whose path
/// is a suffix of `path`.
pub open spec fn xpath_from(files: Seq<ManifestFile>, path: Seq<Seq<char>>, i: int) -> Option<Seq<char>>
    decreases files.len() - i,
{
    if i < 0 || i >= files.len() {
        None
    } else if is_suffix(parts(files[i].path@), path) {
        Some(files[i].xpath@)
    } else {
        xpath_from(files, path, i + 1)
    }
}

impl PluginGradle {
    /// The session of a Gradle project rooted at `folder`, with key and
    /// version read from the text of its build file.
    pub fn build(folder: Vec<String>, gradle_contents: &str) -> (r: PluginGradle)
        ensures
            r.meta.key@ == gradle_key_of(gradle_contents@),
            r.meta.version@ == gradle_version_of(gradle_contents@),
            r.meta.folder == folder,
            parts(r.manifest_path@) == manifest_location(parts(folder@)),
    {
        let text = chars_of(gradle_contents);
        let version = match scan_first(&text, PatKind::Assignment(CharClass::Version), &chars_of("version")) {
            Some(m) => {
                let mut v = captured(&text, m);
                push_all(&mut v, &chars_of(".0"));
                string_of(&v)
            },
            None => String::new(),
        };
        let key = match scan_first(&text, PatKind::Description, &chars_of("description")) {
            Some(m) => string_of(&captured(&text, m)),
            None => String::new(),
        };
        let manifest_path = extended(&folder, &vec!["src", "main", "resources", "project", "manifest.xml"]);
        assert(parts(manifest_path@) =~= manifest_location(parts(folder@)));
        PluginGradle { meta: PluginMeta { key, version, folder }, manifest_path }
    }

    /// The expression of the first file of the manifest whose declared path
    /// is a suffix of the changed path.
    pub fn find_xpath(&self, path: &Vec<String>, manifest: &Manifest) -> (r: Option<String>)
        ensures
            opt_view(r) == xpath_from(manifest.fileset@, parts(path@), 0),
    {
        let mut i: usize = 0;
        while i < manifest.fileset.len()
            invariant
                i <= manifest.fileset@.len(),
                xpath_from(manifest.fileset@, parts(path@), i as int) == xpath_from(manifest.fileset@, parts(path@), 0),
            decreases manifest.fileset@.len() - i,
        {
            if has_suffix(path, &manifest.fileset[i].path) {
                return Some(manifest.fileset[i].xpath.clone());
            }
            i = i + 1;
        }
        None
    }

    /// The target that an expression of the manifest denotes for this plugin.
    pub fn resolve_xpath(&self, xpath: &str) -> (r: ResolvedTarget)
        ensures
            r@ == expression_target(self.meta.key@, xpath@),
    {
        resolve_expression(self.meta.key.as_str(), xpath)
    }
}

} // verus!
