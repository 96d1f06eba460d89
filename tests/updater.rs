use rusty_sentry::expression::ResolvedTarget;
use rusty_sentry::paths::ChangedPath;
use rusty_sentry::remote::{Plugin, RemoteCall};
use rusty_sentry::updater::{
    guess_plugin_type, Manifest, ManifestFile, PluginGradle, PluginMeta, PluginType, PluginWizard,
    Step, UpdateError, Updater,
};

const GRADLE: &str = "apply plugin: 'flow-gradle-plugin'\n\nversion = \"3.3\"\ndescription = \"Plugins : EC-WebLogic\"\n";

const SCRIPT: &str = "procedure 'Deploy', {\n  step 'deploy app', command: new File('dsl/procedures/Deploy/steps/deploy.groovy')\n}";

fn parts(p: &str) -> Vec<String> {
    let mut v = vec![String::from("/")];
    v.extend(p.split('/').filter(|s| !s.is_empty()).map(String::from));
    v
}

fn rel(p: &str) -> Vec<String> {
    p.split('/').map(String::from).collect()
}

fn changed(p: &str) -> ChangedPath {
    ChangedPath { components: parts(p), absolute: p.starts_with('/') }
}

fn wizard_meta() -> PluginMeta {
    PluginMeta { key: String::from("EC-Kubernetes"), version: String::from("1.1.0"), folder: parts("/work/EC-Kubernetes") }
}

fn gradle() -> PluginGradle {
    PluginGradle::build(parts("/work/EC-WebLogic"), GRADLE)
}

fn manifest() -> Manifest {
    Manifest {
        fileset: vec![
            ManifestFile {
                path: rel("jython/add_server_to_cluster.jython"),
                xpath: String::from("//property[propertyName=\"jython\"]/propertySheet/property[propertyName=\"add_server_to_cluster.jython\"]/value"),
            },
            ManifestFile {
                path: rel("procedures/check/check.pl"),
                xpath: String::from("//procedure[procedureName=\"Check\"]/step[stepName=\"check\"]/command"),
            },
        ],
    }
}

/// A remote store that records the calls it receives.
struct RecordingStore {
    calls: Vec<RemoteCall>,
}

impl RecordingStore {
    fn get_plugin(&self, key: &str) -> Plugin {
        Plugin { plugin_name: format!("{}-1.1.0.7", key), plugin_version: String::from("1.1.0.7") }
    }
}

/// Drives one event through the session as a watch loop would, with the
/// given file contents.
fn process(u: &Updater, store: &mut RecordingStore, p: &ChangedPath, content: &str, script: &str) {
    let mut step = u.on_change(p, '/');
    loop {
        step = match step {
            Step::ReadScript(_) => u.on_script(p, script),
            Step::ReadManifest(_) => u.on_manifest(p, &manifest()),
            Step::Submit(target) => {
                let installed = store.get_plugin(&u.meta().key);
                store.calls.push(u.remote_call(&target, content, &installed));
                return;
            },
            Step::Ignore | Step::RebuildNeeded | Step::Fail(_) => return,
        }
    }
}

#[test]
fn read_gradle_metadata() {
    let plugin = Updater::from_gradle(gradle());
    assert!(plugin.is_ok());
    assert_eq!(plugin.unwrap().meta().version, "3.3.0");
}

#[test]
fn gradle_key_and_version() {
    let g = gradle();
    assert_eq!(g.meta.key, "EC-WebLogic");
    assert_eq!(g.manifest_path, parts("/work/EC-WebLogic/src/main/resources/project/manifest.xml"));
    let spaced = PluginGradle::build(vec![], "version='1.0.2' description = 'Plugins:EC-Docker'");
    assert_eq!(spaced.meta.version, "1.0.2.0");
    assert_eq!(spaced.meta.key, "EC-Docker");
}

#[test]
fn gradle_without_metadata() {
    let g = PluginGradle::build(vec![], "apply plugin: 'java'\nversion = project.version\n");
    assert_eq!(g.meta.key, "");
    assert_eq!(g.meta.version, "");
    assert_eq!(Updater::from_gradle(g).err(), Some(UpdateError::MissingKey));
}

#[test]
fn show_xpath() {
    let plugin = gradle();
    let file = parts("/work/EC-WebLogic/src/main/resources/project/jython/add_server_to_cluster.jython");
    let xpath = plugin.find_xpath(&file, &manifest());
    assert!(xpath.is_some());
    let xpath = xpath.unwrap();
    assert_eq!(xpath, "//property[propertyName=\"jython\"]/propertySheet/property[propertyName=\"add_server_to_cluster.jython\"]/value");
}

#[test]
fn first_matching_manifest_entry_wins() {
    let m = Manifest {
        fileset: vec![
            ManifestFile { path: rel("b.txt"), xpath: String::from("first") },
            ManifestFile { path: rel("a/b.txt"), xpath: String::from("second") },
        ],
    };
    assert_eq!(gradle().find_xpath(&parts("/x/a/b.txt"), &m).unwrap(), "first");
    assert_eq!(gradle().find_xpath(&parts("/x/a/bb.txt"), &m), None);
}

#[test]
fn test_plugin_wizard() {
    let plugin = Updater::from_wizard(PluginWizard { meta: wizard_meta() });
    assert!(plugin.is_ok());
}

#[test]
fn wizard_without_key() {
    let mut meta = wizard_meta();
    meta.key = String::new();
    assert_eq!(Updater::from_wizard(PluginWizard { meta }).err(), Some(UpdateError::MissingKey));
}

#[test]
fn test_watch_placeholder() {
    let plugin = Updater::from_wizard(PluginWizard { meta: wizard_meta() }).unwrap();
    let path = ChangedPath { components: vec![], absolute: false };
    assert!(matches!(plugin.on_change(&path, '/'), Step::Ignore));
}

#[test]
fn layout_detection() {
    assert_eq!(guess_plugin_type(true, true), Ok(PluginType::PluginWizard));
    assert_eq!(guess_plugin_type(true, false), Ok(PluginType::PluginWizard));
    assert_eq!(guess_plugin_type(false, true), Ok(PluginType::Gradle));
    assert_eq!(guess_plugin_type(false, false), Err(UpdateError::LayoutUndetermined));
}

#[test]
fn property_names() {
    let w = PluginWizard { meta: wizard_meta() };
    let p = changed("/work/EC-Kubernetes/dsl/properties/scripts/deploy.sh.tmpl");
    assert_eq!(w.property_name(&p, '/').unwrap(), "/plugins/EC-Kubernetes/project/scripts/deploy");
    let q = changed("/work/EC-Kubernetes/dsl/properties/ec_setup");
    assert_eq!(w.property_name(&q, '/').unwrap(), "/plugins/EC-Kubernetes/project/ec_setup");
    let r = changed("/work/EC-Kubernetes/dsl/properties/a\\b.txt");
    assert_eq!(w.property_name(&r, '/').unwrap(), "/plugins/EC-Kubernetes/project/a/b");
    let s = changed("/work/EC-Kubernetes/dsl/properties/dot.");
    assert_eq!(w.property_name(&s, '/').unwrap(), "/plugins/EC-Kubernetes/project/dot.");
}

#[test]
fn property_name_errors() {
    let w = PluginWizard { meta: wizard_meta() };
    let relative = changed("work/EC-Kubernetes/dsl/properties/a.txt");
    assert_eq!(w.property_name(&relative, '/'), Err(UpdateError::NotAbsolute));
    let outside = changed("/other/dsl/properties/a.txt");
    assert_eq!(w.property_name(&outside, '/'), Err(UpdateError::OutsideProject));
}

#[test]
fn unrecognized_change_makes_no_call() {
    let u = Updater::from_wizard(PluginWizard { meta: wizard_meta() }).unwrap();
    let mut store = RecordingStore { calls: vec![] };
    process(&u, &mut store, &changed("/work/EC-Kubernetes/README.md"), "text", SCRIPT);
    process(&u, &mut store, &changed("/work/EC-Kubernetes/dsl/procedures/Deploy/form.xml"), "text", SCRIPT);
    assert!(store.calls.is_empty());
    let g = Updater::from_gradle(gradle()).unwrap();
    process(&g, &mut store, &changed("/work/EC-WebLogic/build.gradle"), "text", "");
    assert!(store.calls.is_empty());
}

#[test]
fn property_change_sets_property() {
    let u = Updater::from_wizard(PluginWizard { meta: wizard_meta() }).unwrap();
    let mut store = RecordingStore { calls: vec![] };
    process(&u, &mut store, &changed("/work/EC-Kubernetes/dsl/properties/ec_setup.pl"), "key @PLUGIN_KEY@", SCRIPT);
    assert_eq!(store.calls.len(), 1);
    match &store.calls[0] {
        RemoteCall::SetProperty { path, value } => {
            assert_eq!(path, "/plugins/EC-Kubernetes/project/ec_setup");
            assert_eq!(value, "key EC-Kubernetes");
        },
        _ => panic!("expected a property"),
    }
}

#[test]
fn step_change_sets_command() {
    let u = Updater::from_wizard(PluginWizard { meta: wizard_meta() }).unwrap();
    let mut store = RecordingStore { calls: vec![] };
    process(&u, &mut store, &changed("/work/EC-Kubernetes/dsl/procedures/Deploy/steps/deploy.groovy"), "run @PLUGIN_NAME@", SCRIPT);
    assert_eq!(store.calls.len(), 1);
    match &store.calls[0] {
        RemoteCall::SetProcedureCommand { project, procedure, step, command } => {
            assert_eq!(project, "EC-Kubernetes-1.1.0.7");
            assert_eq!(procedure, "Deploy");
            assert_eq!(step, "deploy app");
            assert_eq!(command, "run EC-Kubernetes-1.1.0");
        },
        _ => panic!("expected a step command"),
    }
}

#[test]
fn manifest_change_sets_target() {
    let g = Updater::from_gradle(gradle()).unwrap();
    let mut store = RecordingStore { calls: vec![] };
    process(&g, &mut store, &changed("/work/EC-WebLogic/src/main/resources/project/procedures/check/check.pl"), "@PLUGIN_VERSION@", "");
    process(&g, &mut store, &changed("/work/EC-WebLogic/src/main/resources/project/jython/add_server_to_cluster.jython"), "x", "");
    assert_eq!(store.calls.len(), 2);
    match &store.calls[0] {
        RemoteCall::SetProcedureCommand { procedure, step, command, .. } => {
            assert_eq!(procedure, "Check");
            assert_eq!(step, "check");
            assert_eq!(command, "3.3.0");
        },
        _ => panic!("expected a step command"),
    }
    match &store.calls[1] {
        RemoteCall::SetProperty { path, .. } => {
            assert_eq!(path, "/plugins/EC-WebLogic/project/jython/add_server_to_cluster.jython");
        },
        _ => panic!("expected a property"),
    }
}

#[test]
fn resolve_xpath_uses_key() {
    match gradle().resolve_xpath("property[propertyName='a']") {
        ResolvedTarget::Property(p) => assert_eq!(p, "/plugins/EC-WebLogic/project/a"),
        _ => panic!("expected a property"),
    }
}
