//! The desktop profile.
//!
//! The Host loads the profile directory directly and has no built-in template
//! named `desktop`, so it exits with `failed to read profile manifest` unless
//! the shell has created the profile first. As the upstream `initProfile` and
//! `createPluginProfile` do, a file is written only while it is missing: an
//! existing profile is never touched, and the bundle list is that of the web
//! template.
//!
//! This module decides which files to write and what they hold; the caller
//! creates the directory, checks which files exist and writes them.
use vstd::prelude::*;
use crate::text::{json_quote, json_string_literal};

verus! {

/// File name of the profile manifest.
pub const PROFILE_MANIFEST_FILENAME: &'static str = "package.json";

/// File name of the user's patch layer.
pub const PROFILE_PATCH_FILENAME: &'static str = "cordis.patch.yml";

/// File name of the pnpm settings.
pub const PROFILE_PNPM_WORKSPACE_FILENAME: &'static str = "pnpm-workspace.yaml";

/// First bundle layer of the desktop profile, from the upstream web template.
pub const DESKTOP_PROFILE_BASE_BUNDLE: &'static str = "@deepseek-ai/dsh-base";

/// Second bundle layer of the desktop profile, from the upstream web template.
pub const DESKTOP_PROFILE_WEB_BUNDLE: &'static str = "@deepseek-ai/dsh-web-app";

/// Directory name used for the profile name when the directory has none.
pub const DEFAULT_PROFILE_DIR_NAME: &'static str = "desktop";

/// Prefix of the profile's package name.
pub const PROFILE_NAME_PREFIX: &'static str = "dsh-profile-";

/// The user's patch layer template, word for word as upstream.
pub const PROFILE_PATCH_TEMPLATE: &'static str = "# Your patch layer for this dsh profile, applied after every bundle layer:
# a top-level YAML array of loader patch entries (id-targeted config
# overrides, disables, and insert lists; `!!js` expressions allowed).
[]
";

/// The pnpm settings, word for word as upstream.
///
/// Hoisted linking gives out-of-tree plugins a flat `node_modules`; their
/// missing peers (cordis and the like) resolve at run time, so every plugin
/// shares the one cordis instance of the installation. pnpm 10 reads these
/// settings from `pnpm-workspace.yaml` rather than `.npmrc`.
pub const PROFILE_PNPM_WORKSPACE: &'static str = "packages:
  - .

nodeLinker: hoisted
autoInstallPeers: false
";

/// The manifest up to the bundle list, as serde_json's pretty printer lays
/// it out (keys in sorted order, two-space indentation).
pub const MANIFEST_HEAD: &'static str = "{\n  \"dependencies\": {},\n  \"dsh\": {\n    \"profile\": {\n      \"bundles\": [\n";

/// Indentation of a bundle entry.
pub const MANIFEST_BUNDLE_INDENT: &'static str = "        ";

/// Separator between two bundle entries.
pub const MANIFEST_BUNDLE_SEPARATOR: &'static str = ",\n";

/// From the last bundle entry to the package name.
pub const MANIFEST_AFTER_BUNDLES: &'static str = "\n      ]\n    }\n  },\n  \"name\": ";

/// From the package name to the end of the file.
pub const MANIFEST_TAIL: &'static str = ",\n  \"private\": true\n}\n";

/// The directory name that the profile is named after.
pub open spec fn profile_dir_name(dir_name: Option<Seq<char>>) -> Seq<char> {
    match dir_name {
        Some(n) => n,
        None => DEFAULT_PROFILE_DIR_NAME@,
    }
}

/// The manifest: a private package named `dsh-profile-<directory name>` with
/// no dependencies and the desktop bundle layers, pretty-printed JSON with a
/// final newline.
pub open spec fn manifest_text(dir_name: Option<Seq<char>>) -> Seq<char> {
    MANIFEST_HEAD@
        + MANIFEST_BUNDLE_INDENT@ + json_string_literal(DESKTOP_PROFILE_BASE_BUNDLE@)
        + MANIFEST_BUNDLE_SEPARATOR@
        + MANIFEST_BUNDLE_INDENT@ + json_string_literal(DESKTOP_PROFILE_WEB_BUNDLE@)
        + MANIFEST_AFTER_BUNDLES@
        + json_string_literal(PROFILE_NAME_PREFIX@ + profile_dir_name(dir_name))
        + MANIFEST_TAIL@
}

/// Writes `s` as a JSON string.
fn quoted(s: &str) -> (r: String)
    ensures
        r@ == json_string_literal(s@),
{
    json_quote(s).unwrap()
}

/// The profile manifest. The name derives from the directory name (`None`
/// when the directory has no Unicode file name) as upstream does; writing it
/// through JSON keeps a directory name with characters that need escaping from
/// producing an invalid manifest.
pub fn manifest_json(dir_name: Option<&str>) -> (text: String)
    ensures
        text@ == manifest_text(match dir_name { Some(n) => Some(n@), None => None }),
{
    let dir = match dir_name {
        Some(n) => n,
        None => DEFAULT_PROFILE_DIR_NAME,
    };
    let mut name = String::from_str(PROFILE_NAME_PREFIX);
    name.append(dir);
    let base = quoted(DESKTOP_PROFILE_BASE_BUNDLE);
    let web = quoted(DESKTOP_PROFILE_WEB_BUNDLE);
    let quoted_name = quoted(name.as_str());
    let mut text = String::from_str(MANIFEST_HEAD);
    text.append(MANIFEST_BUNDLE_INDENT);
    text.append(base.as_str());
    text.append(MANIFEST_BUNDLE_SEPARATOR);
    text.append(MANIFEST_BUNDLE_INDENT);
    text.append(web.as_str());
    text.append(MANIFEST_AFTER_BUNDLES);
    text.append(quoted_name.as_str());
    text.append(MANIFEST_TAIL);
    text
}

/// A file of the profile: its name inside the profile directory and its
/// contents.
#[derive(Debug, Clone, PartialEq, Eq)]
pub struct ProfileFile {
    pub name: String,
    pub contents: String,
}

/// The files of a new profile that are missing, in the order they are
/// written: the manifest, the patch layer, the pnpm settings.
pub open spec fn profile_plan(
    dir_name: Option<Seq<char>>,
    manifest_exists: bool,
    patch_exists: bool,
    workspace_exists: bool,
) -> Seq<(Seq<char>, Seq<char>)> {
    (if manifest_exists {
        Seq::empty()
    } else {
        seq![(PROFILE_MANIFEST_FILENAME@, manifest_text(dir_name))]
    }) + (if patch_exists {
        Seq::empty()
    } else {
        seq![(PROFILE_PATCH_FILENAME@, PROFILE_PATCH_TEMPLATE@)]
    }) + (if workspace_exists {
        Seq::empty()
    } else {
        seq![(PROFILE_PNPM_WORKSPACE_FILENAME@, PROFILE_PNPM_WORKSPACE@)]
    })
}

/// The name and contents of each planned file.
pub open spec fn plan_view(files: Seq<ProfileFile>) -> Seq<(Seq<char>, Seq<char>)> {
    files.map_values(|f: ProfileFile| (f.name@, f.contents@))
}

/// The files that a profile directory lacks, given which of the three exist.
/// Existing files are left as they are, so creating a profile is idempotent
/// and never overwrites a patch layer or pnpm settings the user edited.
pub fn missing_profile_files(
    dir_name: Option<&str>,
    manifest_exists: bool,
    patch_exists: bool,
    workspace_exists: bool,
) -> (files: Vec<ProfileFile>)
    ensures
        plan_view(files@) == profile_plan(
            match dir_name { Some(n) => Some(n@), None => None },
            manifest_exists,
            patch_exists,
            workspace_exists,
        ),
{
    let ghost d = match dir_name { Some(n) => Some(n@), None => None };
    let mut files: Vec<ProfileFile> = Vec::new();
    if !manifest_exists {
        files.push(ProfileFile {
            name: String::from_str(PROFILE_MANIFEST_FILENAME),
            contents: manifest_json(dir_name),
        });
    }
    let ghost first = plan_view(files@);
    assert(first =~= (if manifest_exists { Seq::empty() } else {
        seq![(PROFILE_MANIFEST_FILENAME@, manifest_text(d))] }));
    if !patch_exists {
        files.push(ProfileFile {
            name: String::from_str(PROFILE_PATCH_FILENAME),
            contents: String::from_str(PROFILE_PATCH_TEMPLATE),
        });
    }
    let ghost second = plan_view(files@);
    assert(second =~= first + (if patch_exists { Seq::empty() } else {
        seq![(PROFILE_PATCH_FILENAME@, PROFILE_PATCH_TEMPLATE@)] }));
    if !workspace_exists {
        files.push(ProfileFile {
            name: String::from_str(PROFILE_PNPM_WORKSPACE_FILENAME),
            contents: String::from_str(PROFILE_PNPM_WORKSPACE),
        });
    }
    assert(plan_view(files@) =~= second + (if workspace_exists { Seq::empty() } else {
        seq![(PROFILE_PNPM_WORKSPACE_FILENAME@, PROFILE_PNPM_WORKSPACE@)] }));
    files
}

/// The three file names of a profile differ.
proof fn lemma_file_names_distinct()
    ensures
        PROFILE_MANIFEST_FILENAME@ != PROFILE_PATCH_FILENAME@,
        PROFILE_MANIFEST_FILENAME@ != PROFILE_PNPM_WORKSPACE_FILENAME@,
        PROFILE_PATCH_FILENAME@ != PROFILE_PNPM_WORKSPACE_FILENAME@,
{
    reveal_strlit("package.json");
    reveal_strlit("cordis.patch.yml");
    reveal_strlit("pnpm-workspace.yaml");
    assert(PROFILE_MANIFEST_FILENAME@.len() != PROFILE_PATCH_FILENAME@.len());
    assert(PROFILE_MANIFEST_FILENAME@.len() != PROFILE_PNPM_WORKSPACE_FILENAME@.len());
    assert(PROFILE_PATCH_FILENAME@.len() != PROFILE_PNPM_WORKSPACE_FILENAME@.len());
}

/// Whether a plan writes the file named `name`.
pub open spec fn plan_writes(plan: Seq<(Seq<char>, Seq<char>)>, name: Seq<char>) -> bool {
    exists|i: int| 0 <= i < plan.len() && #[trigger] plan[i].0 == name
}

/// Creating a profile never overwrites a file: the plan writes exactly the
/// files that are missing, each at most once.
pub proof fn lemma_profile_never_overwrites(
    dir_name: Option<Seq<char>>,
    manifest_exists: bool,
    patch_exists: bool,
    workspace_exists: bool,
)
    ensures
        plan_writes(profile_plan(dir_name, manifest_exists, patch_exists, workspace_exists), PROFILE_MANIFEST_FILENAME@)
            <==> !manifest_exists,
        plan_writes(profile_plan(dir_name, manifest_exists, patch_exists, workspace_exists), PROFILE_PATCH_FILENAME@)
            <==> !patch_exists,
        plan_writes(profile_plan(dir_name, manifest_exists, patch_exists, workspace_exists), PROFILE_PNPM_WORKSPACE_FILENAME@)
            <==> !workspace_exists,
        forall|i: int, j: int| 0 <= i < j < profile_plan(dir_name, manifest_exists, patch_exists, workspace_exists).len()
            ==> #[trigger] profile_plan(dir_name, manifest_exists, patch_exists, workspace_exists)[i].0
                != #[trigger] profile_plan(dir_name, manifest_exists, patch_exists, workspace_exists)[j].0,
{
    lemma_file_names_distinct();
    let plan = profile_plan(dir_name, manifest_exists, patch_exists, workspace_exists);
    let a: Seq<(Seq<char>, Seq<char>)> = if manifest_exists { Seq::empty() } else {
        seq![(PROFILE_MANIFEST_FILENAME@, manifest_text(dir_name))] };
    let b: Seq<(Seq<char>, Seq<char>)> = if patch_exists { Seq::empty() } else {
        seq![(PROFILE_PATCH_FILENAME@, PROFILE_PATCH_TEMPLATE@)] };
    let c: Seq<(Seq<char>, Seq<char>)> = if workspace_exists { Seq::empty() } else {
        seq![(PROFILE_PNPM_WORKSPACE_FILENAME@, PROFILE_PNPM_WORKSPACE@)] };
    assert(plan == a + b + c);
    // Every entry of the plan names one of the three files, after the order
    // manifest, patch layer, pnpm settings.
    assert forall|i: int| 0 <= i < plan.len() implies
        (#[trigger] plan[i].0 == PROFILE_MANIFEST_FILENAME@ && !manifest_exists && i == 0)
        || (plan[i].0 == PROFILE_PATCH_FILENAME@ && !patch_exists && i == a.len())
        || (plan[i].0 == PROFILE_PNPM_WORKSPACE_FILENAME@ && !workspace_exists && i == a.len() + b.len())
    by {
        if i < a.len() {
            assert(plan[i] == a[i]);
        } else if i < a.len() + b.len() {
            assert(plan[i] == b[i - a.len()]);
        } else {
            assert(plan[i] == c[i - a.len() - b.len()]);
        }
    }
    if !manifest_exists {
        assert(plan[0].0 == PROFILE_MANIFEST_FILENAME@);
    }
    if !patch_exists {
        assert(plan[a.len() as int] == b[0]);
        assert(plan[a.len() as int].0 == PROFILE_PATCH_FILENAME@);
    }
    if !workspace_exists {
        assert(plan[(a.len() + b.len()) as int] == c[0]);
        assert(plan[(a.len() + b.len()) as int].0 == PROFILE_PNPM_WORKSPACE_FILENAME@);
    }
}

/// Creating a profile is idempotent: once the planned files are written all
/// three exist, and a second plan writes nothing.
pub proof fn lemma_profile_idempotent(
    dir_name: Option<Seq<char>>,
    manifest_exists: bool,
    patch_exists: bool,
    workspace_exists: bool,
)
    ensures
        profile_plan(dir_name, true, true, true).len() == 0,
        manifest_exists || plan_writes(profile_plan(dir_name, manifest_exists, patch_exists, workspace_exists), PROFILE_MANIFEST_FILENAME@),
        patch_exists || plan_writes(profile_plan(dir_name, manifest_exists, patch_exists, workspace_exists), PROFILE_PATCH_FILENAME@),
        workspace_exists || plan_writes(profile_plan(dir_name, manifest_exists, patch_exists, workspace_exists), PROFILE_PNPM_WORKSPACE_FILENAME@),
{
    lemma_profile_never_overwrites(dir_name, manifest_exists, patch_exists, workspace_exists);
}

/// What a planned file holds is fixed by its name, whichever other files
/// exist: the manifest named after the directory, the patch layer template,
/// and the pnpm settings; a brand-new profile gets all three, in that order.
pub proof fn lemma_profile_contents_follow_names(
    dir_name: Option<Seq<char>>,
    manifest_exists: bool,
    patch_exists: bool,
    workspace_exists: bool,
)
    ensures
        forall|i: int| 0 <= i < profile_plan(dir_name, manifest_exists, patch_exists, workspace_exists).len() ==> {
            let file = #[trigger] profile_plan(dir_name, manifest_exists, patch_exists, workspace_exists)[i];
            &&& file.0 == PROFILE_MANIFEST_FILENAME@ ==> file.1 == manifest_text(dir_name)
            &&& file.0 == PROFILE_PATCH_FILENAME@ ==> file.1 == PROFILE_PATCH_TEMPLATE@
            &&& file.0 == PROFILE_PNPM_WORKSPACE_FILENAME@ ==> file.1 == PROFILE_PNPM_WORKSPACE@
        },
        profile_plan(dir_name, false, false, false) == seq![
            (PROFILE_MANIFEST_FILENAME@, manifest_text(dir_name)),
            (PROFILE_PATCH_FILENAME@, PROFILE_PATCH_TEMPLATE@),
            (PROFILE_PNPM_WORKSPACE_FILENAME@, PROFILE_PNPM_WORKSPACE@),
        ],
{
    lemma_file_names_distinct();
    let plan = profile_plan(dir_name, manifest_exists, patch_exists, workspace_exists);
    let a: Seq<(Seq<char>, Seq<char>)> = if manifest_exists { Seq::empty() } else {
        seq![(PROFILE_MANIFEST_FILENAME@, manifest_text(dir_name))] };
    let b: Seq<(Seq<char>, Seq<char>)> = if patch_exists { Seq::empty() } else {
        seq![(PROFILE_PATCH_FILENAME@, PROFILE_PATCH_TEMPLATE@)] };
    let c: Seq<(Seq<char>, Seq<char>)> = if workspace_exists { Seq::empty() } else {
        seq![(PROFILE_PNPM_WORKSPACE_FILENAME@, PROFILE_PNPM_WORKSPACE@)] };
    assert(plan == a + b + c);
    assert forall|i: int| 0 <= i < plan.len() implies {
        let file = #[trigger] plan[i];
        &&& file.0 == PROFILE_MANIFEST_FILENAME@ ==> file.1 == manifest_text(dir_name)
        &&& file.0 == PROFILE_PATCH_FILENAME@ ==> file.1 == PROFILE_PATCH_TEMPLATE@
        &&& file.0 == PROFILE_PNPM_WORKSPACE_FILENAME@ ==> file.1 == PROFILE_PNPM_WORKSPACE@
    } by {
        if i < a.len() {
            assert(plan[i] == a[i]);
        } else if i < a.len() + b.len() {
            assert(plan[i] == b[i - a.len()]);
        } else {
            assert(plan[i] == c[i - a.len() - b.len()]);
        }
    }
    assert(profile_plan(dir_name, false, false, false) =~= seq![
        (PROFILE_MANIFEST_FILENAME@, manifest_text(dir_name)),
        (PROFILE_PATCH_FILENAME@, PROFILE_PATCH_TEMPLATE@),
        (PROFILE_PNPM_WORKSPACE_FILENAME@, PROFILE_PNPM_WORKSPACE@),
    ]);
}

} // verus!
