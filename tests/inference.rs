use rusty_sentry::paths::ChangedPath;
use rusty_sentry::updater::{PluginMeta, PluginWizard, UpdateError};

const FRAGMENT1: &str = "procedure 'procName', {step 'stepName', { command = new File('dsl/procedures/procName/steps/stepName.groovy')},step 'another step', command: new File('dsl/procedures/procName/steps/anotherStepName.groovy')";

const FRAGMENT2: &str = "def procName = 'procedure',procedure procName, {";

fn parts(p: &str) -> Vec<String> {
    let mut v = vec![String::from("/")];
    v.extend(p.split('/').filter(|s| !s.is_empty()).map(String::from));
    v
}

fn wizard() -> PluginWizard {
    PluginWizard {
        meta: PluginMeta {
            key: String::from("EC-Kubernetes"),
            version: String::from("1.0.0"),
            folder: parts("/work/EC-Kubernetes"),
        },
    }
}

fn changed(p: &str) -> ChangedPath {
    ChangedPath { components: parts(p), absolute: p.starts_with('/') }
}

#[test]
fn deduce_step_name_test() {
    let step_name = PluginWizard::deduce_step_name(FRAGMENT1, "dsl/procedures/procName/steps/anotherStepName.groovy");
    assert!(step_name.is_some());
    assert_eq!(step_name.unwrap(), "another step");
}

#[test]
fn deduce_procedure_name_test() {
    let procedure_name = PluginWizard::deduce_procedure_name(FRAGMENT1);
    assert!(procedure_name.is_some());
    assert_eq!(procedure_name.unwrap(), "procName");
}

#[test]
fn deduce_procedure_name_in_var_test() {
    let procedure_name = PluginWizard::deduce_procedure_name(FRAGMENT2);
    assert!(procedure_name.is_some());
    assert_eq!(procedure_name.unwrap(), "procedure");
}

#[test]
fn step_name_by_file_name_anchor() {
    let step_name = PluginWizard::deduce_step_name(FRAGMENT1, "stepName.groovy");
    assert_eq!(step_name.unwrap(), "stepName");
}

#[test]
fn step_name_with_double_quotes_and_hyphen() {
    let script = "procedure \"p\", {\n  step \"check-cluster_1\",\n    command: new File(\"steps/check.groovy\")\n}";
    assert_eq!(PluginWizard::deduce_step_name(script, "check.groovy").unwrap(), "check-cluster_1");
}

#[test]
fn step_name_with_non_ascii_label() {
    let script = "step 'étape\tun', command: new File('a.groovy')";
    assert_eq!(PluginWizard::deduce_step_name(script, "a.groovy").unwrap(), "étape\tun");
}

#[test]
fn step_name_missing_anchor() {
    assert_eq!(PluginWizard::deduce_step_name(FRAGMENT1, "missing.groovy"), None);
}

#[test]
fn step_name_without_declaration_before_anchor() {
    let script = "new File('a.groovy'), step 'late'";
    assert_eq!(PluginWizard::deduce_step_name(script, "a.groovy"), None);
}

#[test]
fn step_name_anchor_is_literal() {
    let script = "step 'one', new File('aXgroovy') step 'two', new File('a.groovy')";
    assert_eq!(PluginWizard::deduce_step_name(script, "a.groovy").unwrap(), "two");
}

#[test]
fn procedure_name_first_literal_wins() {
    let script = "procedure 'first', {}\nprocedure 'second', {}";
    assert_eq!(PluginWizard::deduce_procedure_name(script).unwrap(), "first");
}

#[test]
fn procedure_name_absent() {
    assert_eq!(PluginWizard::deduce_procedure_name("step 'x', {}"), None);
    assert_eq!(PluginWizard::deduce_procedure_name("procedure name, {}"), None);
}

#[test]
fn procedure_and_step_from_script() {
    let w = wizard();
    let p = changed("/work/EC-Kubernetes/dsl/procedures/procName/steps/anotherStepName.groovy");
    let location = w.procedure_script_path(&p).unwrap();
    assert_eq!(location, parts("/work/EC-Kubernetes/dsl/procedures/procName/procedure.dsl"));
    let (procedure, step) = w.get_procedure_and_step_name(&p, FRAGMENT1).unwrap();
    assert_eq!(procedure, "procName");
    assert_eq!(step, "another step");
}

#[test]
fn procedure_and_step_errors() {
    let w = wizard();
    let outside = changed("/elsewhere/dsl/procedures/p/steps/s.groovy");
    assert_eq!(w.get_procedure_and_step_name(&outside, FRAGMENT1).unwrap_err(), UpdateError::OutsideProject);
    let bare = changed("/work/EC-Kubernetes/dsl/procedures");
    assert_eq!(w.procedure_script_path(&bare).unwrap_err(), UpdateError::NoProcedureFolder);
    let mut dotted = changed("/work/EC-Kubernetes/dsl/procedures/p/steps");
    dotted.components.push(String::from(".."));
    assert_eq!(w.procedure_script_path(&dotted).unwrap_err(), UpdateError::NoFileName);
    let p = changed("/work/EC-Kubernetes/dsl/procedures/p/steps/unknown.groovy");
    assert_eq!(w.get_procedure_and_step_name(&p, FRAGMENT1).unwrap_err(), UpdateError::StepNameNotFound);
    let q = changed("/work/EC-Kubernetes/dsl/procedures/p/steps/s.groovy");
    assert_eq!(
        w.get_procedure_and_step_name(&q, "step 'x', command: new File('s.groovy')").unwrap_err(),
        UpdateError::ProcedureNameNotFound
    );
}

#[test]
fn step_name_mismatched_quotes() {
    let script = "step \"one', new File('a.groovy')";
    assert_eq!(PluginWizard::deduce_step_name(script, "a.groovy"), None);
    assert_eq!(PluginWizard::deduce_procedure_name("procedure 'p\", {}"), None);
}

#[test]
fn closest_declaration_wins_when_declarations_overlap() {
    let script = "step 'a step 'b', new File('s.groovy')";
    assert_eq!(PluginWizard::deduce_step_name(script, "s.groovy").unwrap(), "b");
}

#[test]
fn changed_path_text() {
    let p = ChangedPath { components: vec![String::from("dsl"), String::from("properties"), String::from("a.txt")], absolute: false };
    assert_eq!(p.text('/'), "dsl/properties/a.txt");
    assert_eq!(p.text('\\'), "dsl\\properties\\a.txt");
}

#[test]
fn step_keyword_followed_by_unicode_space() {
    let script = "step\u{3000}'wide'\u{a0}new File('w.groovy')";
    assert_eq!(PluginWizard::deduce_step_name(script, "w.groovy").unwrap(), "wide");
}
