use dsh_desktop::bridge::{initialization_script, BODY};

#[test]
fn script_binds_the_platform_before_the_body() {
    let script = initialization_script("macos");
    assert!(script.starts_with("(() => {\n  const PLATFORM = \"macos\";\n"), "{script}");
    assert!(script.ends_with("})();\n"));
    assert_eq!(script, format!("(() => {{\n  const PLATFORM = \"macos\";\n{BODY}}})();\n"));
}

#[test]
fn script_quotes_the_platform_as_a_literal() {
    let script = initialization_script("we\"ird\\os");
    assert!(script.starts_with("(() => {\n  const PLATFORM = \"we\\\"ird\\\\os\";\n"), "{script}");
    let linux = initialization_script("linux");
    assert!(linux.contains("const PLATFORM = \"linux\";"));
}

#[test]
fn script_defines_the_bridges() {
    let script = initialization_script("windows");
    assert!(script.contains("define(\"dshDesktopBoot\""));
    assert!(script.contains("define(\"__DSH_DIRECTORY_PICKER__\""));
    assert!(script.contains("dsh://window-fullscreen"));
    assert!(!script.contains("define(\"dshDesktop\","));
}
