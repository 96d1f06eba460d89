use rusty_sentry::template::fill_placeholders;
use rusty_sentry::updater::PluginMeta;

#[test]
fn fills_each_placeholder() {
    let r = fill_placeholders("@PLUGIN_NAME@ v@PLUGIN_VERSION@ of @PLUGIN_KEY@", "EC-X", "1.2.0");
    assert_eq!(r, "EC-X-1.2.0 v1.2.0 of EC-X");
}

#[test]
fn content_without_placeholders_is_unchanged() {
    let c = "print('@PLUGIN@ and PLUGIN_KEY')";
    assert_eq!(fill_placeholders(c, "EC-X", "1.0"), c);
    assert_eq!(fill_placeholders("", "EC-X", "1.0"), "");
}

#[test]
fn filling_twice_is_filling_once() {
    let once = fill_placeholders("a @PLUGIN_KEY@ @PLUGIN_NAME@ b", "EC-X", "1.0");
    let twice = fill_placeholders(&once, "EC-X", "1.0");
    assert_eq!(once, "a EC-X EC-X-1.0 b");
    assert_eq!(twice, once);
}

#[test]
fn meta_fill_and_name() {
    let meta = PluginMeta { key: String::from("EC-X"), version: String::from("2.0"), folder: vec![] };
    assert_eq!(meta.plugin_name(), "EC-X-2.0");
    assert_eq!(meta.fill("@PLUGIN_NAME@@PLUGIN_NAME@"), "EC-X-2.0EC-X-2.0");
}
