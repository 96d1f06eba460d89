//! The plugin session: layout detection, descriptors, the resolvers of each
//! layout and the decisions taken on each changed file.

use vstd::prelude::*;
use crate::classify::{change_kind, classify, lemma_properties_are_property_files, properties_marker, ChangeKind};
use crate::expression::{expression_target, project_root, ResolvedTarget, Target};
use crate::gradle::xpath_from;
use crate::paths::{extended, parts, path_text, ChangedPath};
use crate::remote::{Call, Plugin, RemoteCall};
use crate::template::{fill_placeholders, filled};
use crate::text::{chars_of, join_with, lemma_join_concat, push_all, string_of};
use crate::wizard::{forward_slashes, procedure_and_step_of, properties_dir, property_name_of, script_location, without_extension};

verus! {

/// The two project layouts.
#[derive(Clone, Copy, PartialEq, Eq, Structural, Debug)]
pub enum PluginType {
    /// Metadata in `META-INF/plugin.xml`, properties and procedures under `dsl`.
    PluginWizard,
    /// A `build.gradle` and a manifest that maps files to targets.
    Gradle,
}

/// Why a session could not start or a change could not be resolved.
#[derive(Clone, Copy, PartialEq, Eq, Structural, Debug)]
pub enum UpdateError {
    /// Neither layout's marker file is present.
    LayoutUndetermined,
    /// The descriptor has an empty key.
    MissingKey,
    /// A property file was given by a relative path.
    NotAbsolute,
    /// The path does not lie where its role says it must.
    OutsideProject,
    /// A step script path names no procedure folder.
    NoProcedureFolder,
    /// A step script path has no file name.
    NoFileName,
    /// No step declaration precedes the script's reference in the definition.
    StepNameNotFound,
    /// The definition declares no procedure name that could be found.
    ProcedureNameNotFound,
}

/// The text of a result's value.
pub open spec fn text_result(r: Result<String, UpdateError>) -> Result<Seq<char>, UpdateError> {
    match r {
        Ok(t) => Ok(t@),
        Err(e) => Err(e),
    }
}

/// The texts of a result's pair of values.
pub open spec fn pair_result(r: Result<(String, String), UpdateError>) -> Result<(Seq<char>, Seq<char>), UpdateError> {
    match r {
        Ok((a, b)) => Ok((a@, b@)),
        Err(e) => Err(e),
    }
}

/// Picks the layout from which marker files are present; the wizard's
/// metadata file takes precedence over a build file.
pub fn guess_plugin_type(has_plugin_xml: bool, has_build_gradle: bool) -> (r: Result<PluginType, UpdateError>)
    ensures
        has_plugin_xml ==> r == Ok::<PluginType, UpdateError>(PluginType::PluginWizard),
        !has_plugin_xml && has_build_gradle ==> r == Ok::<PluginType, UpdateError>(PluginType::Gradle),
        !has_plugin_xml && !has_build_gradle ==> r == Err::<PluginType, UpdateError>(UpdateError::LayoutUndetermined),
{
    if has_plugin_xml {
        Ok(PluginType::PluginWizard)
    } else if has_build_gradle {
        Ok(PluginType::Gradle)
    } else {
        Err(UpdateError::LayoutUndetermined)
    }
}

/// What was read from a project's metadata.
pub struct PluginMeta {
    pub key: String,
    pub version: String,
    /// The components of the project's root directory.
    pub folder: Vec<String>,
}

impl PluginMeta {
    /// The full plugin name, `<key>-<version>`.
    pub fn plugin_name(&self) -> (r: String)
        ensures
            r@ == self.key@ + "-"@ + self.version@,
    {
        let mut name = chars_of(self.key.as_str());
        push_all(&mut name, &chars_of("-"));
        push_all(&mut name, &chars_of(self.version.as_str()));
        string_of(&name)
    }

    /// `contents` with the placeholders for the plugin's full name, version
    /// and key replaced.
    pub fn fill(&self, contents: &str) -> (r: String)
        ensures
            r@ == filled(contents@, self.key@, self.version@),
    {
        fill_placeholders(contents, self.key.as_str(), self.version.as_str())
    }
}

/// A project laid out by the plugin wizard, with its metadata under `META-INF`.
pub struct PluginWizard {
    pub meta: PluginMeta,
}

/// A project built with Gradle, whose manifest maps files to targets.
pub struct PluginGradle {
    pub meta: PluginMeta,
    /// The components of the manifest's path.
    pub manifest_path: Vec<String>,
}

/// One file that a manifest declares, with the expression of its target.
pub struct ManifestFile {
    /// The file's path relative to the resource root, as components.
    pub path: Vec<String>,
    pub xpath: String,
}

/// The files that a manifest declares, in declaration order.
pub struct Manifest {
    pub fileset: Vec<ManifestFile>,
}

/// What the session decides on an event.
pub enum Step {
    /// Nothing to do: the file plays no role that is pushed.
    Ignore,
    /// A form definition changed: only a rebuild of the plugin takes it in.
    RebuildNeeded,
    /// The change cannot be resolved.
    Fail(UpdateError),
    /// The text of this procedure definition script is needed.
    ReadScript(Vec<String>),
    /// The manifest at this path is needed.
    ReadManifest(Vec<String>),
    /// The file's content goes to this target.
    Submit(ResolvedTarget),
}

pub ghost enum Decision {
    Ignore,
    RebuildNeeded,
    Fail(UpdateError),
    ReadScript(Seq<Seq<char>>),
    ReadManifest(Seq<Seq<char>>),
    Submit(Target),
}

impl View for Step {
    type V = Decision;

    open spec fn view(&self) -> Decision {
        match self {
            Step::Ignore => Decision::Ignore,
            Step::RebuildNeeded => Decision::RebuildNeeded,
            Step::Fail(e) => Decision::Fail(*e),
            Step::ReadScript(p) => Decision::ReadScript(parts(p@)),
            Step::ReadManifest(p) => Decision::ReadManifest(parts(p@)),
            Step::Submit(t) => Decision::Submit(t@),
        }
    }
}

/// A running session: the resolver of the project's layout. Sessions made by
/// `from_wizard` or `from_gradle` have a key (`wf`), which every decision needs.
pub enum Updater {
    Wizard(PluginWizard),
    Gradle(PluginGradle),
}

/// The decision on a changed file.
pub open spec fn change_decision(u: Updater, path: ChangedPath, sep: char) -> Decision {
    match u {
        Updater::Gradle(g) => Decision::ReadManifest(parts(g.manifest_path@)),
        Updater::Wizard(w) => match change_kind(path_text(path.components@, sep), sep) {
            ChangeKind::Unrecognized => Decision::Ignore,
            ChangeKind::FormDefinition => Decision::RebuildNeeded,
            ChangeKind::PropertyFile => match property_name_of(
                w.meta.key@,
                parts(w.meta.folder@),
                parts(path.components@),
                path.absolute,
                sep,
            ) {
                Ok(name) => Decision::Submit(Target::Property(name)),
                Err(e) => Decision::Fail(e),
            },
            ChangeKind::StepScript => match script_location(parts(w.meta.folder@), parts(path.components@)) {
                Ok((loc, _)) => Decision::ReadScript(loc),
                Err(e) => Decision::Fail(e),
            },
        },
    }
}

/// The decision on a step script once its definition script has been read.
pub open spec fn script_decision(u: Updater, path: ChangedPath, script: Seq<char>) -> Decision {
    match u {
        Updater::Gradle(_) => Decision::Ignore,
        Updater::Wizard(w) => match procedure_and_step_of(parts(w.meta.folder@), parts(path.components@), script) {
            Ok((procedure, step)) => Decision::Submit(Target::ProcedureStep(procedure, step)),
            Err(e) => Decision::Fail(e),
        },
    }
}

/// The decision on a changed file once the manifest has been read.
pub open spec fn manifest_decision(u: Updater, path: ChangedPath, files: Seq<ManifestFile>) -> Decision {
    match u {
        Updater::Wizard(_) => Decision::Ignore,
        Updater::Gradle(g) => match xpath_from(files, parts(path.components@), 0) {
            None => Decision::Ignore,
            Some(x) => Decision::Submit(expression_target(g.meta.key@, x)),
        },
    }
}

/// The call that submits `content` to a target.
pub open spec fn submission(meta: PluginMeta, target: Target, content: Seq<char>, installed: Seq<char>) -> Call {
    match target {
        Target::Property(p) => Call::SetProperty(p, filled(content, meta.key@, meta.version@)),
        Target::ProcedureStep(procedure, step) => Call::SetProcedureCommand(
            installed,
            procedure,
            step,
            filled(content, meta.key@, meta.version@),
        ),
    }
}

impl Updater {
    pub open spec fn descriptor(&self) -> PluginMeta {
        match self {
            Updater::Wizard(w) => w.meta,
            Updater::Gradle(g) => g.meta,
        }
    }

    /// A session never runs without a plugin key.
    pub open spec fn wf(&self) -> bool {
        self.descriptor().key@.len() > 0
    }

    /// A session on a wizard-layout project; refused where the key is empty.
    pub fn from_wizard(w: PluginWizard) -> (r: Result<Updater, UpdateError>)
        ensures
            w.meta.key@.len() > 0 ==> (r matches Ok(u) && u == Updater::Wizard(w) && u.wf()),
            w.meta.key@.len() == 0 ==> r == Err::<Updater, UpdateError>(UpdateError::MissingKey),
    {
        if chars_of(w.meta.key.as_str()).len() == 0 {
            Err(UpdateError::MissingKey)
        } else {
            Ok(Updater::Wizard(w))
        }
    }

    /// A session on a Gradle project; refused where no key was found.
    pub fn from_gradle(g: PluginGradle) -> (r: Result<Updater, UpdateError>)
        ensures
            g.meta.key@.len() > 0 ==> (r matches Ok(u) && u == Updater::Gradle(g) && u.wf()),
            g.meta.key@.len() == 0 ==> r == Err::<Updater, UpdateError>(UpdateError::MissingKey),
    {
        if chars_of(g.meta.key.as_str()).len() == 0 {
            Err(UpdateError::MissingKey)
        } else {
            Ok(Updater::Gradle(g))
        }
    }

    /// The descriptor of the session's plugin.
    pub fn meta(&self) -> (r: &PluginMeta)
        ensures
            *r == self.descriptor(),
    {
        match self {
            Updater::Wizard(w) => &w.meta,
            Updater::Gradle(g) => &g.meta,
        }
    }

    /// The decision on a changed file, whose segments are separated by `sep`.
    pub fn on_change(&self, path: &ChangedPath, sep: char) -> (r: Step)
        requires
            self.wf(),
        ensures
            r@ == change_decision(*self, *path, sep),
    {
        match self {
            Updater::Gradle(g) => {
                let p = extended(&g.manifest_path, &Vec::new());
                assert(parts(p@) =~= parts(g.manifest_path@));
                Step::ReadManifest(p)
            },
            Updater::Wizard(w) => match classify(path.text(sep).as_str(), sep) {
                ChangeKind::Unrecognized => Step::Ignore,
                ChangeKind::FormDefinition => Step::RebuildNeeded,
                ChangeKind::PropertyFile => match w.property_name(path, sep) {
                    Ok(name) => Step::Submit(ResolvedTarget::Property(name)),
                    Err(e) => Step::Fail(e),
                },
                ChangeKind::StepScript => match w.procedure_script_path(path) {
                    Ok(p) => Step::ReadScript(p),
                    Err(e) => Step::Fail(e),
                },
            },
        }
    }

    /// The decision on a step script, given its procedure's definition script.
    pub fn on_script(&self, path: &ChangedPath, script: &str) -> (r: Step)
        requires
            self.wf(),
        ensures
            r@ == script_decision(*self, *path, script@),
    {
        match self {
            Updater::Gradle(_) => Step::Ignore,
            Updater::Wizard(w) => match w.get_procedure_and_step_name(path, script) {
                Ok((procedure, step)) => Step::Submit(ResolvedTarget::ProcedureStep(procedure, step)),
                Err(e) => Step::Fail(e),
            },
        }
    }

    /// The decision on a changed file, given the project's manifest.
    pub fn on_manifest(&self, path: &ChangedPath, manifest: &Manifest) -> (r: Step)
        requires
            self.wf(),
        ensures
            r@ == manifest_decision(*self, *path, manifest.fileset@),
    {
        match self {
            Updater::Wizard(_) => Step::Ignore,
            Updater::Gradle(g) => match g.find_xpath(&path.components, manifest) {
                None => Step::Ignore,
                Some(x) => Step::Submit(g.resolve_xpath(x.as_str())),
            },
        }
    }

    /// The call that submits a changed file's raw `content` to `target`; a
    /// step's command goes to the plugin as the server has it installed.
    pub fn remote_call(&self, target: &ResolvedTarget, content: &str, installed: &Plugin) -> (r: RemoteCall)
        requires
            self.wf(),
        ensures
            r@ == submission(self.descriptor(), target@, content@, installed.plugin_name@),
    {
        let value = self.meta().fill(content);
        match target {
            ResolvedTarget::Property(p) => RemoteCall::SetProperty { path: p.clone(), value },
            ResolvedTarget::ProcedureStep(procedure, step) => RemoteCall::SetProcedureCommand {
                project: installed.plugin_name.clone(),
                procedure: procedure.clone(),
                step: step.clone(),
                command: value,
            },
        }
    }
}

/// A change that is not recognised makes no remote call: in a wizard-layout
/// project a path that the classifier leaves unrecognised is ignored, and in a
/// Gradle project a path that no manifest entry matches is ignored.
pub proof fn lemma_unrecognized_makes_no_call(u: Updater, path: ChangedPath, sep: char, files: Seq<ManifestFile>)
    ensures
        u is Wizard && change_kind(path_text(path.components@, sep), sep) == ChangeKind::Unrecognized
            ==> change_decision(u, path, sep) == Decision::Ignore,
        u is Gradle && xpath_from(files, parts(path.components@), 0) is None
            ==> manifest_decision(u, path, files) == Decision::Ignore,
{
}

/// A change to a file below the project's `dsl/properties` folder, given by an
/// absolute path, is a property update: the property's path is the file's path
/// below that folder, without extension and with `/` between segments, under
/// the project root of the session's key.
pub proof fn lemma_property_file_sets_property(u: Updater, path: ChangedPath, sep: char, rest: Seq<Seq<char>>)
    requires
        u is Wizard,
        path.absolute,
        rest.len() > 0,
        parts(path.components@) == parts(u.descriptor().folder@) + seq!["dsl"@, "properties"@] + rest,
    ensures
        change_decision(u, path, sep) == Decision::Submit(Target::Property(
            project_root(u.descriptor().key@) + forward_slashes(without_extension(join_with(rest, sep))),
        )),
{
    let folder = parts(u.descriptor().folder@);
    let dir: Seq<Seq<char>> = seq!["dsl"@, "properties"@];
    let comps = parts(path.components@);
    let text = path_text(path.components@, sep);
    assert(dir.drop_last() =~= seq!["dsl"@]);
    assert(join_with(seq!["dsl"@], sep) == "dsl"@);
    assert(dir.last() == "properties"@);
    assert(join_with(dir, sep) == "dsl"@.push(sep) + "properties"@);
    lemma_join_concat(folder + dir, rest, sep);
    if folder.len() > 0 {
        lemma_join_concat(folder, dir, sep);
        let prefix = join_with(folder, sep).push(sep);
        assert(text =~= prefix + properties_marker(sep) + join_with(rest, sep));
        lemma_properties_are_property_files(prefix, join_with(rest, sep), sep);
    } else {
        assert(folder + dir =~= dir);
        assert(text =~= Seq::<char>::empty() + properties_marker(sep) + join_with(rest, sep));
        lemma_properties_are_property_files(Seq::empty(), join_with(rest, sep), sep);
    }
    assert(comps.subrange(0, properties_dir(folder).len() as int) =~= properties_dir(folder));
    assert(comps.subrange(properties_dir(folder).len() as int, comps.len() as int) =~= rest);
}

} // verus!
