use rusty_sentry::expression::{resolve_expression, ResolvedTarget};

fn property(r: ResolvedTarget) -> String {
    match r {
        ResolvedTarget::Property(p) => p,
        ResolvedTarget::ProcedureStep(p, s) => panic!("step {} {}", p, s),
    }
}

#[test]
fn nested_property_expression() {
    let r = resolve_expression(
        "EC-WebLogic",
        "//property[propertyName=\"jython\"]/propertySheet/property[propertyName=\"add_server_to_cluster.jython\"]/value",
    );
    assert_eq!(property(r), "/plugins/EC-WebLogic/project/jython/add_server_to_cluster.jython");
}

#[test]
fn procedure_property_expression() {
    let r = resolve_expression(
        "EC-WebLogic",
        "//procedure[procedureName='Deploy App']/propertySheet/property[propertyName='ec_parameterForm']/value",
    );
    assert_eq!(property(r), "/plugins/EC-WebLogic/project/procedures/Deploy App/ec_parameterForm");
}

#[test]
fn procedure_step_expression() {
    let r = resolve_expression(
        "EC-WebLogic",
        "//procedure[procedureName=\"CheckServerStatus\"]/step[stepName=\"CheckServerStatus\"]/command",
    );
    match r {
        ResolvedTarget::ProcedureStep(p, s) => {
            assert_eq!(p, "CheckServerStatus");
            assert_eq!(s, "CheckServerStatus");
        },
        ResolvedTarget::Property(p) => panic!("property {}", p),
    }
}

#[test]
fn malformed_attributes_are_absent() {
    let r = resolve_expression("K", "//property[propertyName=jython]/property[propertyName='x']");
    assert_eq!(property(r), "/plugins/K/project/x");
    let r = resolve_expression("K", "//procedure[procedureName='a-b']/property[propertyName='x']");
    assert_eq!(property(r), "/plugins/K/project/x");
}

#[test]
fn property_sheet_contributes_nothing() {
    let r = resolve_expression("K", "propertySheet[propertyName='s']/property[propertyName='x']");
    assert_eq!(property(r), "/plugins/K/project/x");
}

#[test]
fn repeated_names_are_kept() {
    let r = resolve_expression("K", "//property[propertyName='a']/property[propertyName='a']");
    assert_eq!(property(r), "/plugins/K/project/a/a");
}

#[test]
fn lazy_property_attribute() {
    let r = resolve_expression("K", "property[propertyName=\"\"x\"]");
    assert_eq!(property(r), "/plugins/K/project/\"x");
}

#[test]
fn empty_expression() {
    assert_eq!(property(resolve_expression("K", "")), "/plugins/K/project/");
}

#[test]
fn mismatched_quotes_are_absent() {
    let r = resolve_expression("K", "//property[propertyName=\"x']/property[propertyName='y']");
    assert_eq!(property(r), "/plugins/K/project/y");
    let r = resolve_expression("K", "//property[propertyName=\"x]/property[propertyName='y']");
    assert_eq!(property(r), "/plugins/K/project/y");
    let r = resolve_expression("K", "//procedure[procedureName=\"P']/step[stepName='s']/property[propertyName='v']");
    assert_eq!(property(r), "/plugins/K/project/v");
}

#[test]
fn other_quote_inside_value_is_kept() {
    let r = resolve_expression("K", "property[propertyName=\"it's\"]");
    assert_eq!(property(r), "/plugins/K/project/it's");
}
