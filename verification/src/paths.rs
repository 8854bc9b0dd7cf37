//! Where the shell keeps its data: the Harness data root and the desktop
//! profile inside it, resolved as the upstream `resolveDshHome` and
//! `resolveDesktopPaths` do.
use vstd::prelude::*;
use crate::text::{
    is_plain_base, is_plain_component, is_white_space, join_path, joined_with_separator, lemma_blank_trims_to_nothing,
    path_join, trim_text, trimmed,
};

verus! {

/// Name of the environment variable that overrides the data root.
pub const DSH_HOME_ENV: &'static str = "DSH_HOME";

/// Directory under the user's home used when `DSH_HOME` is not configured.
pub const DSH_HOME_DIR_NAME: &'static str = ".dsh";

/// Directory of the data root that holds the profiles.
pub const PROFILES_DIR_NAME: &'static str = "profiles";

/// Name of the desktop profile.
pub const DESKTOP_PROFILE_NAME: &'static str = "desktop";

/// The separators that may follow a leading `~`.
pub open spec fn is_separator(c: char) -> bool {
    c == '/' || c == '\\'
}

/// `s` without its leading run of separators.
pub open spec fn strip_separators(s: Seq<char>) -> Seq<char>
    decreases s.len(),
{
    if s.len() > 0 && is_separator(s[0]) {
        strip_separators(s.drop_first())
    } else {
        s
    }
}

/// The expansion of a leading `~` for the current user: `~` alone is the home
/// directory, `~/rest` and `~\rest` are `rest` (without its leading
/// separators) under the home directory; every other value, `~user` among
/// them, stays as it is.
pub open spec fn tilde_expansion(value: Seq<char>, home: Seq<char>) -> Seq<char> {
    if value.len() == 0 || value[0] != '~' {
        value
    } else if value.len() == 1 {
        home
    } else if is_separator(value[1]) {
        path_join(home, strip_separators(value.drop_first()))
    } else {
        value
    }
}

/// Whether `c` is one of the separators that may follow a leading `~`.
pub fn separator_char(c: char) -> (r: bool)
    ensures
        r == is_separator(c),
{
    c == '/' || c == '\\'
}

proof fn lemma_strip_separators_suffix(s: Seq<char>, k: int)
    requires
        0 <= k <= s.len(),
        forall|j: int| 0 <= j < k ==> is_separator(#[trigger] s[j]),
    ensures
        strip_separators(s) == strip_separators(s.subrange(k, s.len() as int)),
    decreases k,
{
    if k > 0 {
        assert(is_separator(s[0]));
        assert forall|j: int| 0 <= j < k - 1 implies is_separator(#[trigger] s.drop_first()[j]) by {
            assert(is_separator(s[j + 1]));
        }
        assert(s.drop_first() =~= s.subrange(1, s.len() as int));
        lemma_strip_separators_suffix(s.drop_first(), k - 1);
        assert(s.drop_first().subrange(k - 1, s.drop_first().len() as int) =~= s.subrange(k, s.len() as int));
    } else {
        assert(s.subrange(0, s.len() as int) =~= s);
    }
}

/// Expands the current user's `~` prefix; every other form is returned as it
/// is. Only `~` alone and `~/`, `~\` are expanded; `~user` is left alone.
pub fn expand_tilde(value: &str, home: &str) -> (r: String)
    ensures
        r@ == tilde_expansion(value@, home@),
        value@.len() > 1 && value@[0] == '~' && is_separator(value@[1]) && is_plain_base(home@)
            && is_plain_component(strip_separators(value@.drop_first()))
            ==> joined_with_separator(home@, strip_separators(value@.drop_first()), r@),
{
    let n = value.unicode_len();
    if n == 0 || value.get_char(0) != '~' {
        return value.to_owned();
    }
    if n == 1 {
        return home.to_owned();
    }
    if !separator_char(value.get_char(1)) {
        return value.to_owned();
    }
    let mut k: usize = 1;
    while k < n && separator_char(value.get_char(k))
        invariant
            1 <= k <= n,
            n == value@.len(),
            forall|j: int| 1 <= j < k ==> is_separator(#[trigger] value@[j]),
        decreases n - k,
    {
        k = k + 1;
    }
    let rest = value.substring_char(k, n);
    proof {
        let tail = value@.drop_first();
        lemma_strip_separators_suffix(tail, k - 1);
        assert(tail.subrange(k - 1, tail.len() as int) =~= value@.subrange(k as int, n as int));
        let t = value@.subrange(k as int, n as int);
        if t.len() > 0 {
            assert(!is_separator(t[0]));
        }
        assert(strip_separators(t) == t);
    }
    join_path(home, rest)
}

/// The data root chosen before it is made absolute: a configured `DSH_HOME`
/// that is not blank, with its `~` expanded; otherwise `.dsh` under the home
/// directory.
pub open spec fn dsh_home_choice(configured: Option<Seq<char>>, home: Seq<char>) -> Seq<char> {
    match configured {
        Some(c) => if trimmed(c).len() > 0 {
            tilde_expansion(c, home)
        } else {
            path_join(home, DSH_HOME_DIR_NAME@)
        },
        None => path_join(home, DSH_HOME_DIR_NAME@),
    }
}

/// Chooses the Harness data root from the value of `DSH_HOME` (`None` when it
/// is unset or not Unicode) and the user's home directory. A blank value
/// counts as unset. The caller makes the result absolute against the working
/// directory.
pub fn select_dsh_home(configured: Option<&str>, home: &str) -> (r: String)
    ensures
        r@ == dsh_home_choice(
            match configured { Some(c) => Some(c@), None => None },
            home@,
        ),
        is_plain_base(home@) && (configured is None || trimmed(configured->0@).len() == 0)
            ==> joined_with_separator(home@, DSH_HOME_DIR_NAME@, r@),
{
    proof { lemma_names_are_plain(); }
    match configured {
        Some(c) => {
            if !trim_text(c).is_empty() {
                expand_tilde(c, home)
            } else {
                join_path(home, DSH_HOME_DIR_NAME)
            }
        },
        None => join_path(home, DSH_HOME_DIR_NAME),
    }
}

/// How `~` expands, for every home directory: `~` alone is the home; `~`
/// followed by one or more separators and then `rest` (which does not start
/// with a separator, and may hold several components) is `rest` joined under
/// the home; a value that does not start with `~`, or whose `~` is followed
/// by anything but a separator (`~user`), stays as it is.
pub proof fn lemma_tilde_expansion_cases(separators: Seq<char>, rest: Seq<char>, other: Seq<char>, home: Seq<char>)
    requires
        separators.len() > 0,
        forall|i: int| 0 <= i < separators.len() ==> is_separator(#[trigger] separators[i]),
        rest.len() == 0 || !is_separator(rest[0]),
    ensures
        tilde_expansion(seq!['~'] + separators + rest, home) == path_join(home, rest),
        tilde_expansion(seq!['~'], home) == home,
        (other.len() == 0 || other[0] != '~') ==> tilde_expansion(other, home) == other,
        (other.len() > 1 && other[0] == '~' && !is_separator(other[1])) ==> tilde_expansion(other, home) == other,
{
    let value = seq!['~'] + separators + rest;
    let tail = separators + rest;
    assert(value.drop_first() =~= tail);
    assert(value[1] == separators[0]);
    lemma_strip_separators_suffix(tail, separators.len() as int);
    assert(tail.subrange(separators.len() as int, tail.len() as int) =~= rest);
    if rest.len() > 0 {
        assert(!is_separator(rest[0]));
    }
    assert(strip_separators(rest) == rest);
}

/// The names that the shell adjoins to its directories are single plain
/// components.
proof fn lemma_names_are_plain()
    ensures
        is_plain_component(DSH_HOME_DIR_NAME@),
        is_plain_component(PROFILES_DIR_NAME@),
        is_plain_component(DESKTOP_PROFILE_NAME@),
        is_plain_component(BRIDGE_SCRIPT_NAME@),
{
    reveal_strlit(".dsh");
    reveal_strlit("profiles");
    reveal_strlit("desktop");
    reveal_strlit("host-bridge.cjs");
}

/// A plain base with a plain component adjoined is again a plain base.
proof fn lemma_join_keeps_plain(base: Seq<char>, rest: Seq<char>, r: Seq<char>)
    requires
        is_plain_base(base),
        is_plain_component(rest),
        joined_with_separator(base, rest, r),
    ensures
        is_plain_base(r),
{
    assert(r.last() == rest.last());
    assert forall|i: int| 0 <= i < r.len() implies #[trigger] r[i] != ':' by {
        if i < base.len() {
            assert(r[i] == base[i]);
        } else if i > base.len() {
            assert(r[i] == rest[i - base.len() - 1]);
        }
    }
    if r.len() >= 2 && base.len() >= 2 {
        assert(r[0] == base[0] && r[1] == base[1]);
    }
    if base.len() == 1 {
        assert(r[0] == base[0]);
        assert(base.last() == base[0]);
    }
}

/// A `DSH_HOME` made only of white space counts as unset.
pub proof fn lemma_blank_dsh_home_is_unset(configured: Seq<char>, home: Seq<char>)
    requires
        forall|j: int| 0 <= j < configured.len() ==> is_white_space(#[trigger] configured[j]),
    ensures
        dsh_home_choice(Some(configured), home) == dsh_home_choice(None, home),
{
    lemma_blank_trims_to_nothing(configured);
}

/// The desktop profile directory under a data root: `profiles/desktop`.
pub open spec fn desktop_profile_path(dsh_home: Seq<char>) -> Seq<char> {
    path_join(path_join(dsh_home, PROFILES_DIR_NAME@), DESKTOP_PROFILE_NAME@)
}

/// The desktop profile directory, shared with the Electron shell; it is also
/// the Host's project directory.
pub fn desktop_profile_dir(dsh_home: &str) -> (r: String)
    ensures
        r@ == desktop_profile_path(dsh_home@),
        is_plain_base(dsh_home@) ==> exists|profiles: Seq<char>|
            joined_with_separator(dsh_home@, PROFILES_DIR_NAME@, profiles)
            && #[trigger] joined_with_separator(profiles, DESKTOP_PROFILE_NAME@, r@),
{
    proof { lemma_names_are_plain(); }
    let profiles = join_path(dsh_home, PROFILES_DIR_NAME);
    proof {
        if is_plain_base(dsh_home@) {
            lemma_join_keeps_plain(dsh_home@, PROFILES_DIR_NAME@, profiles@);
        }
    }
    join_path(profiles.as_str(), DESKTOP_PROFILE_NAME)
}

/// File name of the bridge script written into the cache directory.
pub const BRIDGE_SCRIPT_NAME: &'static str = "host-bridge.cjs";

/// Where the bridge script is written: under the application's cache
/// directory, so development and packaged runs use the same script.
pub fn bridge_script_path(cache_dir: &str) -> (r: String)
    ensures
        r@ == path_join(cache_dir@, BRIDGE_SCRIPT_NAME@),
        is_plain_base(cache_dir@) ==> joined_with_separator(cache_dir@, BRIDGE_SCRIPT_NAME@, r@),
{
    proof { lemma_names_are_plain(); }
    join_path(cache_dir, BRIDGE_SCRIPT_NAME)
}

} // verus!
