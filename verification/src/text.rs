//! Text operations that the shell takes from std and from serde_json.
use vstd::prelude::*;

verus! {

/// The texts of a sequence of strings.
pub open spec fn texts(v: Seq<String>) -> Seq<Seq<char>> {
    v.map_values(|s: String| s@)
}

/// What `format!("{:?}", s)` writes for a string `s`: the Rust `Debug`
/// rendering, a double-quoted and escaped string literal.
pub uninterp spec fn debug_str_literal(s: Seq<char>) -> Seq<char>;

/// Renders `s` as std's `Debug` implementation for `str` does.
///
/// Trusted: the result is claimed to be `debug_str_literal(s@)`, that is, a
/// function of the text alone; std's escaping rules are not restated here.
#[verifier::external_body]
pub fn debug_quoted(s: &str) -> (r: String)
    ensures
        r@ == debug_str_literal(s@),
{
    format!("{:?}", s)
}

} // verus!

verus! {

/// Whether `c` has the Unicode `White_Space` property, which is what
/// `char::is_whitespace` tests: U+0009..U+000D, U+0020, U+0085, U+00A0,
/// U+1680, U+2000..U+200A, U+2028, U+2029, U+202F, U+205F and U+3000.
pub open spec fn is_white_space(c: char) -> bool {
    let n = c as int;
    ||| 0x9 <= n <= 0xd
    ||| n == 0x20
    ||| n == 0x85
    ||| n == 0xa0
    ||| n == 0x1680
    ||| 0x2000 <= n <= 0x200a
    ||| n == 0x2028
    ||| n == 0x2029
    ||| n == 0x202f
    ||| n == 0x205f
    ||| n == 0x3000
}

/// The words of `s` after the word `current` already begun: each maximal run
/// of characters that are not white space, in order.
pub open spec fn split_words(s: Seq<char>, current: Seq<char>) -> Seq<Seq<char>>
    decreases s.len(),
{
    if s.len() == 0 {
        if current.len() > 0 { seq![current] } else { Seq::empty() }
    } else if is_white_space(s[0]) {
        (if current.len() > 0 { seq![current] } else { Seq::empty() }) + split_words(s.drop_first(), Seq::empty())
    } else {
        split_words(s.drop_first(), current.push(s[0]))
    }
}

/// The words of `s` as `str::split_whitespace` yields them: the maximal runs
/// of characters that are not Unicode white space.
pub open spec fn whitespace_split(s: Seq<char>) -> Seq<Seq<char>> {
    split_words(s, Seq::empty())
}

/// Every word is non-empty and holds no white space.
pub open spec fn words_are_clean(words: Seq<Seq<char>>) -> bool {
    forall|i: int| 0 <= i < words.len() ==> {
        &&& (#[trigger] words[i]).len() > 0
        &&& forall|j: int| 0 <= j < words[i].len() ==> !is_white_space(#[trigger] words[i][j])
    }
}

proof fn lemma_split_words_clean(s: Seq<char>, current: Seq<char>)
    requires
        forall|j: int| 0 <= j < current.len() ==> !is_white_space(#[trigger] current[j]),
    ensures
        words_are_clean(split_words(s, current)),
    decreases s.len(),
{
    if s.len() == 0 {
    } else if is_white_space(s[0]) {
        lemma_split_words_clean(s.drop_first(), Seq::empty());
        let head: Seq<Seq<char>> = if current.len() > 0 { seq![current] } else { Seq::empty() };
        let rest = split_words(s.drop_first(), Seq::empty());
        assert forall|i: int| 0 <= i < (head + rest).len() implies {
            &&& (#[trigger] (head + rest)[i]).len() > 0
            &&& forall|j: int| 0 <= j < (head + rest)[i].len() ==> !is_white_space(#[trigger] (head + rest)[i][j])
        } by {
            if i < head.len() {
                assert((head + rest)[i] == current);
            } else {
                assert((head + rest)[i] == rest[i - head.len()]);
            }
        }
    } else {
        let next = current.push(s[0]);
        assert forall|j: int| 0 <= j < next.len() implies !is_white_space(#[trigger] next[j]) by {
            if j < current.len() {
                assert(next[j] == current[j]);
            }
        }
        lemma_split_words_clean(s.drop_first(), next);
    }
}

/// The words of a text are non-empty and hold no white space.
pub proof fn lemma_whitespace_split_clean(s: Seq<char>)
    ensures
        words_are_clean(whitespace_split(s)),
{
    lemma_split_words_clean(s, Seq::empty());
}

/// A text made only of white space has no words.
pub proof fn lemma_blank_has_no_words(s: Seq<char>)
    requires
        forall|j: int| 0 <= j < s.len() ==> is_white_space(#[trigger] s[j]),
    ensures
        whitespace_split(s).len() == 0,
{
    lemma_blank_split_empty(s);
}

proof fn lemma_blank_split_empty(s: Seq<char>)
    requires
        forall|j: int| 0 <= j < s.len() ==> is_white_space(#[trigger] s[j]),
    ensures
        split_words(s, Seq::empty()).len() == 0,
    decreases s.len(),
{
    if s.len() > 0 {
        assert(is_white_space(s[0]));
        assert forall|j: int| 0 <= j < s.drop_first().len() implies is_white_space(#[trigger] s.drop_first()[j]) by {
            assert(is_white_space(s[j + 1]));
        }
        lemma_blank_split_empty(s.drop_first());
        assert(split_words(s, Seq::empty()) =~= Seq::<Seq<char>>::empty() + split_words(s.drop_first(), Seq::empty()));
    }
}

/// Splits `s` at Unicode white space with `str::split_whitespace` and owns
/// each word.
///
/// Trusted: std documents the words as the sub-slices of `s` separated by any
/// amount of `White_Space`; they are claimed to be `whitespace_split(s@)`.
#[verifier::external_body]
pub fn split_whitespace_words(s: &str) -> (words: Vec<String>)
    ensures
        texts(words@) == whitespace_split(s@),
{
    s.split_whitespace().map(|w| w.to_string()).collect()
}

} // verus!

verus! {

/// The path that `Path::join` gives for `base` and `rest`, rendered as text,
/// on the platform the crate is built for.
pub uninterp spec fn path_join(base: Seq<char>, rest: Seq<char>) -> Seq<char>;

/// A single relative path component: non-empty, with no separator (`/` or
/// `\`) and no drive colon.
pub open spec fn is_plain_component(s: Seq<char>) -> bool {
    &&& s.len() > 0
    &&& forall|i: int| 0 <= i < s.len() ==> #[trigger] s[i] != '/' && s[i] != '\\' && s[i] != ':'
}

/// A base path that joins by plain concatenation on every platform: non-empty,
/// not ending in a separator, with no drive colon and no `\\` prefix (so no
/// Windows prefix or verbatim path).
pub open spec fn is_plain_base(s: Seq<char>) -> bool {
    &&& s.len() > 0
    &&& s.last() != '/'
    &&& s.last() != '\\'
    &&& forall|i: int| 0 <= i < s.len() ==> #[trigger] s[i] != ':'
    &&& !(s.len() >= 2 && s[0] == '\\' && s[1] == '\\')
}

/// `r` is `rest` adjoined to `base` with one separator of either kind between
/// them: `/` where it is the main separator, `\` on Windows.
pub open spec fn joined_with_separator(base: Seq<char>, rest: Seq<char>, r: Seq<char>) -> bool {
    r == base + seq!['/'] + rest || r == base + seq!['\\'] + rest
}

/// Adjoins `rest` to `base` with `std::path::Path::join` and renders the
/// result as text.
///
/// Trusted: the result is claimed to be `path_join(base@, rest@)`, a function
/// of the two texts alone for a given build target. Where the base is plain
/// and `rest` a single relative component, `join` appends the platform's main
/// separator and the component to the base (std's documentation shows
/// `Path::new("/etc").join("passwd")` giving `/etc/passwd`); the general rules
/// for absolute `rest`, trailing separators and Windows prefixes are std's and
/// are not restated here. Both arguments come from Unicode text, so the
/// rendering loses nothing.
#[verifier::external_body]
pub fn join_path(base: &str, rest: &str) -> (r: String)
    ensures
        r@ == path_join(base@, rest@),
        is_plain_base(base@) && is_plain_component(rest@) ==> joined_with_separator(base@, rest@, r@),
{
    std::path::Path::new(base).join(rest).to_string_lossy().into_owned()
}

/// `s` without its leading white space.
pub open spec fn trim_start_white_space(s: Seq<char>) -> Seq<char>
    decreases s.len(),
{
    if s.len() > 0 && is_white_space(s[0]) {
        trim_start_white_space(s.drop_first())
    } else {
        s
    }
}

/// `s` without its trailing white space.
pub open spec fn trim_end_white_space(s: Seq<char>) -> Seq<char>
    decreases s.len(),
{
    if s.len() > 0 && is_white_space(s.last()) {
        trim_end_white_space(s.drop_last())
    } else {
        s
    }
}

/// `s` with leading and trailing Unicode white space removed, as `str::trim`
/// returns it.
pub open spec fn trimmed(s: Seq<char>) -> Seq<char> {
    trim_end_white_space(trim_start_white_space(s))
}

/// A text made only of white space trims to nothing.
pub proof fn lemma_blank_trims_to_nothing(s: Seq<char>)
    requires
        forall|j: int| 0 <= j < s.len() ==> is_white_space(#[trigger] s[j]),
    ensures
        trimmed(s).len() == 0,
    decreases s.len(),
{
    if s.len() > 0 {
        assert(is_white_space(s[0]));
        assert forall|j: int| 0 <= j < s.drop_first().len() implies is_white_space(#[trigger] s.drop_first()[j]) by {
            assert(is_white_space(s[j + 1]));
        }
        lemma_blank_trims_to_nothing(s.drop_first());
    }
}

/// Removes leading and trailing white space with `str::trim`.
///
/// Trusted: std documents the result as `s` without its leading and trailing
/// `White_Space`; it is claimed to be `trimmed(s@)`.
#[verifier::external_body]
pub fn trim_text(s: &str) -> (r: &str)
    ensures
        r@ == trimmed(s@),
{
    s.trim()
}

} // verus!

verus! {

#[verifier::external_type_specification]
#[verifier::external_body]
pub struct ExJsonError(serde_json::Error);

/// A hexadecimal digit in lower case, as serde_json writes them.
pub open spec fn lower_hex_digit(n: int) -> char {
    seq!['0', '1', '2', '3', '4', '5', '6', '7', '8', '9', 'a', 'b', 'c', 'd', 'e', 'f'][n]
}

/// How serde_json writes one character inside a JSON string: the quote and
/// the backslash are escaped, the control characters below U+0020 take their
/// short escape where JSON has one and `\u00XX` otherwise, and every other
/// character is written as it is.
pub open spec fn json_escape_char(c: char) -> Seq<char> {
    if c == '"' {
        seq!['\\', '"']
    } else if c == '\\' {
        seq!['\\', '\\']
    } else if c == '\u{8}' {
        seq!['\\', 'b']
    } else if c == '\t' {
        seq!['\\', 't']
    } else if c == '\n' {
        seq!['\\', 'n']
    } else if c == '\u{c}' {
        seq!['\\', 'f']
    } else if c == '\r' {
        seq!['\\', 'r']
    } else if (c as int) < 0x20 {
        seq!['\\', 'u', '0', '0', lower_hex_digit((c as int) / 16), lower_hex_digit((c as int) % 16)]
    } else {
        seq![c]
    }
}

/// The escaped characters of a JSON string.
pub open spec fn json_escape(s: Seq<char>) -> Seq<char>
    decreases s.len(),
{
    if s.len() == 0 {
        Seq::empty()
    } else {
        json_escape_char(s[0]) + json_escape(s.drop_first())
    }
}

/// A JSON string literal: the escaped characters between double quotes.
pub open spec fn json_string_literal(s: Seq<char>) -> Seq<char> {
    seq!['"'] + json_escape(s) + seq!['"']
}

/// Writes `s` as a JSON string with `serde_json::to_string`.
///
/// Trusted: serde_json writes a string as its escaped characters between
/// double quotes (`format_escaped_str`, escape table `ESCAPE`), and writing
/// into the in-memory buffer of `to_string` cannot fail, so the result is
/// claimed to be `Ok` with `json_string_literal(s@)`.
#[verifier::external_body]
pub fn json_quote(s: &str) -> (r: Result<String, serde_json::Error>)
    ensures
        r is Ok,
        r->Ok_0@ == json_string_literal(s@),
{
    serde_json::to_string(s)
}

} // verus!

verus! {

/// The characters of `s`.
pub fn text_chars(s: &str) -> (r: Vec<char>)
    ensures
        r@ == s@,
{
    broadcast use vstd::string::group_string_axioms;
    let mut r: Vec<char> = Vec::new();
    for c in it: s.chars()
        invariant
            it.seq() == s@,
            r@ == s@.take(it.index()),
    {
        r.push(c);
    }
    assert(s@.take(s@.len() as int) =~= s@);
    r
}

/// Whether `pattern` occurs in `s`.
pub open spec fn contains_text(s: Seq<char>, pattern: Seq<char>) -> bool {
    exists|i: int| 0 <= i && i + pattern.len() <= s.len() && #[trigger] s.subrange(i, i + pattern.len()) == pattern
}

/// Whether `pattern` occurs in `s` at position `at`.
fn matches_at(s: &Vec<char>, pattern: &Vec<char>, at: usize) -> (r: bool)
    requires
        at + pattern@.len() <= s@.len(),
    ensures
        r == (s@.subrange(at as int, at + pattern@.len()) == pattern@),
{
    let mut j: usize = 0;
    while j < pattern.len()
        invariant
            j <= pattern@.len(),
            at + pattern@.len() <= s@.len(),
            s@.len() == s.len(),
            forall|k: int| 0 <= k < j ==> s@[at + k] == pattern@[k],
        decreases pattern@.len() - j,
    {
        if s[at + j] != pattern[j] {
            assert(s@.subrange(at as int, at + pattern@.len())[j as int] != pattern@[j as int]);
            return false;
        }
        j = j + 1;
    }
    assert(s@.subrange(at as int, at + pattern@.len()) =~= pattern@);
    true
}

/// Whether `pattern` occurs in `s`.
pub fn text_contains(s: &str, pattern: &str) -> (r: bool)
    ensures
        r == contains_text(s@, pattern@),
{
    let chars = text_chars(s);
    let wanted = text_chars(pattern);
    if wanted.len() > chars.len() {
        return false;
    }
    let last = chars.len() - wanted.len();
    let mut at: usize = 0;
    loop
        invariant
            chars@ == s@,
            wanted@ == pattern@,
            last == chars@.len() - wanted@.len(),
            at <= last,
            forall|i: int| 0 <= i < at ==> #[trigger] s@.subrange(i, i + pattern@.len()) != pattern@,
        decreases last - at,
    {
        if matches_at(&chars, &wanted, at) {
            assert(s@.subrange(at as int, at + pattern@.len()) == pattern@);
            return true;
        }
        if at == last {
            return false;
        }
        at = at + 1;
    }
}

} // verus!
