use dsh_desktop::profile::{
    manifest_json, missing_profile_files, ProfileFile, PROFILE_MANIFEST_FILENAME, PROFILE_PATCH_FILENAME,
    PROFILE_PATCH_TEMPLATE, PROFILE_PNPM_WORKSPACE, PROFILE_PNPM_WORKSPACE_FILENAME,
};

fn planned<'a>(files: &'a [ProfileFile], name: &str) -> Option<&'a ProfileFile> {
    files.iter().find(|file| file.name == name)
}

#[test]
fn creates_every_file_a_new_profile_needs() {
    let files = missing_profile_files(Some("desktop"), false, false, false);
    let manifest = &planned(&files, "package.json").expect("清单应当存在").contents;
    assert!(manifest.contains("dsh-profile-desktop"), "{manifest}");
    assert!(manifest.contains("@deepseek-ai/dsh-base"), "{manifest}");
    assert!(manifest.contains("@deepseek-ai/dsh-web-app"), "{manifest}");
    assert!(planned(&files, PROFILE_PATCH_FILENAME).is_some(), "补丁层应当存在");
    assert!(planned(&files, "pnpm-workspace.yaml").is_some(), "pnpm 设置应当存在");
}

#[test]
fn never_overwrites_an_initialized_profile() {
    let first = missing_profile_files(Some("desktop"), false, false, false);
    assert_eq!(first.len(), 3);
    // The user's edits and the records of a pnpm install survive the next start.
    let second = missing_profile_files(Some("desktop"), true, true, true);
    assert!(second.is_empty());
    assert!(planned(&second, PROFILE_PATCH_FILENAME).is_none());
    assert!(planned(&second, "package.json").is_none());
}

#[test]
fn writes_only_the_missing_files_in_order() {
    let files = missing_profile_files(Some("desktop"), true, false, true);
    assert_eq!(
        files,
        vec![ProfileFile { name: PROFILE_PATCH_FILENAME.to_string(), contents: PROFILE_PATCH_TEMPLATE.to_string() }]
    );
    let files = missing_profile_files(None, false, true, false);
    assert_eq!(files.len(), 2);
    assert_eq!(files[0].name, PROFILE_MANIFEST_FILENAME);
    assert_eq!(files[1].name, PROFILE_PNPM_WORKSPACE_FILENAME);
    assert_eq!(files[1].contents, PROFILE_PNPM_WORKSPACE);
    let names: Vec<&str> = missing_profile_files(None, false, false, false).iter().map(|f| f.name.as_str()).map(|n| match n {
        "package.json" => "m",
        "cordis.patch.yml" => "p",
        "pnpm-workspace.yaml" => "w",
        _ => "?",
    }).collect();
    assert_eq!(names, vec!["m", "p", "w"]);
}

#[test]
fn manifest_is_the_pretty_json_upstream_writes() {
    let text = manifest_json(Some("desktop"));
    assert_eq!(
        text,
        "{\n  \"dependencies\": {},\n  \"dsh\": {\n    \"profile\": {\n      \"bundles\": [\n        \"@deepseek-ai/dsh-base\",\n        \"@deepseek-ai/dsh-web-app\"\n      ]\n    }\n  },\n  \"name\": \"dsh-profile-desktop\",\n  \"private\": true\n}\n"
    );
    let value: serde_json::Value = serde_json::from_str(&text).expect("清单应当是合法 JSON");
    let pretty = serde_json::to_string_pretty(&value).expect("可以重新序列化");
    assert_eq!(format!("{pretty}\n"), text);
    assert_eq!(value["name"], "dsh-profile-desktop");
    assert_eq!(value["private"], true);
    assert_eq!(value["dsh"]["profile"]["bundles"][1], "@deepseek-ai/dsh-web-app");
}

#[test]
fn manifest_escapes_the_directory_name() {
    let text = manifest_json(Some("my \"odd\"\\dir\n"));
    let value: serde_json::Value = serde_json::from_str(&text).expect("目录名需要转义时清单仍应合法");
    assert_eq!(value["name"], "dsh-profile-my \"odd\"\\dir\n");
    assert!(text.contains("\"dsh-profile-my \\\"odd\\\"\\\\dir\\n\""), "{text}");
    let control = manifest_json(Some("a\u{1}b"));
    assert!(control.contains("\"dsh-profile-a\\u0001b\""), "{control}");
}

#[test]
fn manifest_without_a_directory_name_uses_desktop() {
    assert_eq!(manifest_json(None), manifest_json(Some("desktop")));
    let value: serde_json::Value = serde_json::from_str(&manifest_json(Some("工作区"))).unwrap();
    assert_eq!(value["name"], "dsh-profile-工作区");
}
