use rusty_sentry::classify::{classify, is_form_xml, is_property, is_step_code, ChangeKind};

#[test]
fn property_paths_with_either_separator() {
    assert_eq!(classify("/p/dsl/properties/a/b.txt", '/'), ChangeKind::PropertyFile);
    assert_eq!(classify("C:\\p\\dsl\\properties\\a.txt", '\\'), ChangeKind::PropertyFile);
    assert_eq!(classify("dsl/properties/form.xml", '/'), ChangeKind::PropertyFile);
    assert!(!is_property("C:\\p\\dsl\\properties\\a.txt", '/'));
    assert!(!is_property("/p/dsl/properties", '/'));
}

#[test]
fn step_paths() {
    assert_eq!(classify("/p/dsl/procedures/Check Cluster/steps/check.groovy", '/'), ChangeKind::StepScript);
    assert!(is_step_code("C:\\p\\dsl\\procedures\\proc\\steps\\s.groovy", '\\'));
    assert!(!is_step_code("/p/dsl/procedures/a/b/steps/s.groovy", '/'));
    assert!(!is_step_code("/p/dsl/procedures//steps/s.groovy", '/'));
}

#[test]
fn form_paths() {
    assert_eq!(classify("/p/dsl/procedures/proc/form.xml", '/'), ChangeKind::FormDefinition);
    assert!(is_form_xml("form.xml", '/'));
    assert!(!is_form_xml("/p/myform.xml", '/'));
    assert!(!is_form_xml("/p/form.xml.bak", '/'));
}

#[test]
fn unrecognized_paths() {
    assert_eq!(classify("/p/README.md", '/'), ChangeKind::Unrecognized);
    assert_eq!(classify("", '/'), ChangeKind::Unrecognized);
}

#[test]
fn step_folder_is_any_single_segment() {
    assert!(is_step_code("/p/dsl/procedures/my-proc/steps/s.groovy", '/'));
    assert!(is_step_code("/p/dsl/procedures/v1.2/steps/s.groovy", '/'));
    assert!(!is_step_code("/p/dsl/procedures/a/steps", '/'));
    assert!(!is_step_code("/p/dsl/procedures/a/stepsOld/x.groovy", '/'));
    assert_eq!(classify("/p/dsl/procedures/a/steps", '/'), ChangeKind::Unrecognized);
}
