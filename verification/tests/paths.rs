use dsh_desktop::paths::{bridge_script_path, desktop_profile_dir, expand_tilde, select_dsh_home};

#[test]
fn expands_only_the_current_users_tilde() {
    assert_eq!(expand_tilde("~", "/home/u"), "/home/u");
    assert_eq!(expand_tilde("~/data", "/home/u"), "/home/u/data");
    assert_eq!(expand_tilde("~//data", "/home/u"), "/home/u/data");
    assert_eq!(expand_tilde("~\\data", "/home/u"), "/home/u/data");
    assert_eq!(expand_tilde("~/", "/home/u"), "/home/u/");
    assert_eq!(expand_tilde("~user/data", "/home/u"), "~user/data");
    assert_eq!(expand_tilde("/abs/~", "/home/u"), "/abs/~");
    assert_eq!(expand_tilde("", "/home/u"), "");
    assert_eq!(expand_tilde("rel", "/home/u"), "rel");
}

#[test]
fn data_root_prefers_a_non_blank_dsh_home() {
    assert_eq!(select_dsh_home(None, "/home/u"), "/home/u/.dsh");
    assert_eq!(select_dsh_home(Some(""), "/home/u"), "/home/u/.dsh");
    assert_eq!(select_dsh_home(Some(" \t\n"), "/home/u"), "/home/u/.dsh");
    assert_eq!(select_dsh_home(Some("\u{3000}\u{2028}"), "/home/u"), "/home/u/.dsh");
    assert_eq!(select_dsh_home(Some("~/h"), "/home/u"), "/home/u/h");
    assert_eq!(select_dsh_home(Some("/data/dsh"), "/home/u"), "/data/dsh");
    assert_eq!(select_dsh_home(Some(" rel "), "/home/u"), " rel ");
}

#[test]
fn profile_and_bridge_locations() {
    assert_eq!(desktop_profile_dir("/home/u/.dsh"), "/home/u/.dsh/profiles/desktop");
    assert_eq!(bridge_script_path("/cache/app"), "/cache/app/host-bridge.cjs");
}
