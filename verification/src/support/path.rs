//! Home-relative paths, generated file names and default locations.
use crate::error::ResipError;
use crate::support::dirs::{
    adjoins, ends_with, is_plain_name, is_relative_text, is_verbatim, joins, may_be_absolute,
    path_is_absolute, path_is_file, path_join, path_parent, path_strip_prefix, user_dirs,
    user_download_dir,
    user_home_dir,
};
use crate::support::text::{
    ascii_alnum, chars_of, is_ascii_alnum, is_ascii_upper, is_lower_stem_char, is_white_space, lowercase, push_char, string_of_range,
    to_lowercase, trim_char, trim_char_end, trim_char_spec, trim_char_start, white_space,
};
use vstd::prelude::*;

verus! {

/// What a character contributes to a file stem: safe ASCII characters
/// stay, whitespace becomes `-`, everything else is dropped.
pub open spec fn stem_char(c: char) -> Seq<char> {
    if is_ascii_alnum(c) || c == '-' || c == '_' {
        seq![c]
    } else if is_white_space(c) {
        seq!['-']
    } else {
        Seq::empty()
    }
}

/// The characters kept from `s`, in order.
pub open spec fn stem_chars(s: Seq<char>) -> Seq<char>
    decreases s.len(),
{
    if s.len() == 0 {
        Seq::empty()
    } else {
        stem_chars(s.drop_last()) + stem_char(s.last())
    }
}

/// The file stem made from an already lowercased name: its safe characters
/// without leading or trailing `-`, or `server` when nothing is left.
pub open spec fn file_stem_spec(lowered: Seq<char>) -> Seq<char> {
    let trimmed = trim_char_spec(stem_chars(lowered), '-');
    if trimmed.len() == 0 {
        seq!['s', 'e', 'r', 'v', 'e', 'r']
    } else {
        trimmed
    }
}

/// A character that may appear in a generated file stem.
pub open spec fn is_stem_safe(c: char) -> bool {
    is_ascii_alnum(c) || c == '-' || c == '_'
}

/// The file stem made from a name that is already lowercase.
pub fn file_stem_of_lowercase(lowered: &str) -> (r: String)
    ensures
        r@ == file_stem_spec(lowered@),
{
    let v = chars_of(lowered);
    let mut kept = String::new();
    let mut i: usize = 0;
    while i < v.len()
        invariant
            v@ == lowered@,
            i <= v@.len(),
            kept@ == stem_chars(lowered@.subrange(0, i as int)),
        decreases v.len() - i,
    {
        let c = v[i];
        if ascii_alnum(c) || c == '-' || c == '_' {
            push_char(&mut kept, c);
        } else if white_space(c) {
            push_char(&mut kept, '-');
        }
        let ghost prefix = lowered@.subrange(0, i + 1);
        assert(prefix.drop_last() =~= lowered@.subrange(0, i as int));
        assert(kept@ =~= stem_chars(prefix));
        i = i + 1;
    }
    assert(lowered@.subrange(0, v@.len() as int) =~= lowered@);
    let trimmed = trim_char(kept.as_str(), '-');
    if trimmed.unicode_len() == 0 {
        proof {
            reveal_strlit("server");
        }
        assert("server"@ =~= seq!['s', 'e', 'r', 'v', 'e', 'r']);
        String::from_str("server")
    } else {
        trimmed
    }
}

/// The shape of every generated file stem: not empty, made of ASCII
/// lowercase letters, digits, `-` and `_`, not starting or ending with `-`.
pub open spec fn is_generated_stem(s: Seq<char>) -> bool {
    &&& s.len() > 0
    &&& forall|i: int| 0 <= i < s.len() ==> is_lower_stem_char(#[trigger] s[i])
    &&& s[0] != '-'
    &&& s.last() != '-'
}

/// Turns a server name into a file stem that is simple and portable across
/// common file systems: never empty, made of ASCII lowercase letters,
/// digits, `-` and `_`, and neither starting nor ending with `-`. A stem of
/// that shape is its own stem, so sanitising twice changes nothing.
pub fn sanitize_file_stem(value: &str) -> (r: String)
    ensures
        r@ == file_stem_spec(lowercase(value@)),
        is_generated_stem(r@),
        is_generated_stem(value@) ==> r@ == value@,
{
    let lowered = to_lowercase(value);
    let r = file_stem_of_lowercase(lowered.as_str());
    proof {
        lemma_file_stem_is_portable(lowercase(value@));
        lemma_file_stem_keeps_lowercase(lowercase(value@));
        if is_generated_stem(value@) {
            assert forall|i: int| 0 <= i < value@.len() implies is_stem_safe(#[trigger] value@[i]) by {
                assert(is_lower_stem_char(value@[i]));
            }
            lemma_stem_chars_fixed(value@);
            lemma_trim_char_fixed(value@, '-');
        }
    }
    r
}

/// No ASCII capital enters `stem_chars` that was not in its input.
proof fn lemma_stem_chars_no_upper(s: Seq<char>)
    requires
        forall|i: int| 0 <= i < s.len() ==> !is_ascii_upper(#[trigger] s[i]),
    ensures
        forall|i: int| 0 <= i < stem_chars(s).len() ==> !is_ascii_upper(#[trigger] stem_chars(s)[i]),
    decreases s.len(),
{
    if s.len() > 0 {
        assert(!is_ascii_upper(s[s.len() - 1]));
        lemma_stem_chars_no_upper(s.drop_last());
        let front = stem_chars(s.drop_last());
        assert(stem_chars(s) == front + stem_char(s.last()));
        assert forall|i: int| 0 <= i < stem_chars(s).len() implies !is_ascii_upper(
            #[trigger] stem_chars(s)[i],
        ) by {
            if i < front.len() {
                assert(stem_chars(s)[i] == front[i]);
            }
        }
    }
}

/// A stem made from text without ASCII capitals is made of ASCII lowercase
/// letters, digits, `-` and `_`.
proof fn lemma_file_stem_keeps_lowercase(lowered: Seq<char>)
    requires
        forall|i: int| 0 <= i < lowered.len() ==> !is_ascii_upper(#[trigger] lowered[i]),
    ensures
        forall|i: int|
            0 <= i < file_stem_spec(lowered).len() ==> is_lower_stem_char(
                #[trigger] file_stem_spec(lowered)[i],
            ),
{
    let k = stem_chars(lowered);
    lemma_stem_chars_no_upper(lowered);
    lemma_stem_chars_safe(lowered);
    lemma_trim_char_start(k, '-');
    let a = trim_char_start(k, '-');
    lemma_trim_char_end(a, '-');
    let t = trim_char_end(a, '-');
    lemma_file_stem_is_portable(lowered);
    let f = file_stem_spec(lowered);
    assert forall|i: int| 0 <= i < f.len() implies is_lower_stem_char(#[trigger] f[i]) by {
        if t.len() == 0 {
            assert(f == seq!['s', 'e', 'r', 'v', 'e', 'r']);
        } else {
            assert(f == t);
            assert(t[i] == a[i]);
            assert(a[i] == k[k.len() - a.len() + i]);
            assert(is_stem_safe(k[k.len() - a.len() + i]));
            assert(!is_ascii_upper(k[k.len() - a.len() + i]));
        }
    }
}

/// Every character kept by `stem_chars` is safe.
proof fn lemma_stem_chars_safe(s: Seq<char>)
    ensures
        forall|i: int| 0 <= i < stem_chars(s).len() ==> is_stem_safe(#[trigger] stem_chars(s)[i]),
    decreases s.len(),
{
    if s.len() > 0 {
        lemma_stem_chars_safe(s.drop_last());
        let front = stem_chars(s.drop_last());
        assert(stem_chars(s) == front + stem_char(s.last()));
        assert forall|i: int| 0 <= i < stem_chars(s).len() implies is_stem_safe(
            #[trigger] stem_chars(s)[i],
        ) by {
            if i < front.len() {
                assert(stem_chars(s)[i] == front[i]);
            }
        }
    }
}

/// A sequence of safe characters is its own `stem_chars`.
proof fn lemma_stem_chars_fixed(s: Seq<char>)
    requires
        forall|i: int| 0 <= i < s.len() ==> is_stem_safe(#[trigger] s[i]),
    ensures
        stem_chars(s) == s,
    decreases s.len(),
{
    if s.len() > 0 {
        assert(is_stem_safe(s[s.len() - 1]));
        lemma_stem_chars_fixed(s.drop_last());
        assert(stem_chars(s) =~= s.drop_last().push(s.last()));
        assert(s.drop_last().push(s.last()) =~= s);
    }
}

/// Trimming the front leaves a suffix that does not start with `c`.
proof fn lemma_trim_char_start(s: Seq<char>, c: char)
    ensures
        trim_char_start(s, c).len() <= s.len(),
        trim_char_start(s, c) == s.subrange(
            s.len() - trim_char_start(s, c).len(),
            s.len() as int,
        ),
        trim_char_start(s, c).len() > 0 ==> trim_char_start(s, c)[0] != c,
    decreases s.len(),
{
    if s.len() > 0 && s[0] == c {
        lemma_trim_char_start(s.drop_first(), c);
        let r = trim_char_start(s, c);
        assert(s.drop_first().subrange(
            s.drop_first().len() - r.len(),
            s.drop_first().len() as int,
        ) =~= s.subrange(s.len() - r.len(), s.len() as int));
    } else {
        assert(s.subrange(0, s.len() as int) =~= s);
    }
}

/// Trimming the back leaves a prefix that does not end with `c`, and keeps
/// a first character that is not `c`.
proof fn lemma_trim_char_end(s: Seq<char>, c: char)
    ensures
        trim_char_end(s, c).len() <= s.len(),
        trim_char_end(s, c) == s.subrange(0, trim_char_end(s, c).len() as int),
        trim_char_end(s, c).len() > 0 ==> trim_char_end(s, c).last() != c,
        s.len() > 0 && s[0] != c ==> trim_char_end(s, c).len() > 0,
    decreases s.len(),
{
    if s.len() > 0 && s.last() == c {
        lemma_trim_char_end(s.drop_last(), c);
        let r = trim_char_end(s, c);
        assert(s.drop_last().subrange(0, r.len() as int) =~= s.subrange(0, r.len() as int));
        if s[0] != c {
            assert(s.len() > 1);
            assert(s.drop_last()[0] == s[0]);
        }
    } else {
        assert(s.subrange(0, s.len() as int) =~= s);
    }
}

/// `trim_char_spec` leaves a non-empty sequence that starts and ends with
/// another character unchanged.
proof fn lemma_trim_char_fixed(s: Seq<char>, c: char)
    requires
        s.len() > 0,
        s[0] != c,
        s.last() != c,
    ensures
        trim_char_spec(s, c) == s,
{
}

/// The shape of a trimmed stem: built from safe characters, not starting or
/// ending with `-`.
proof fn lemma_trimmed_stem(lowered: Seq<char>)
    ensures
        ({
            let t = trim_char_spec(stem_chars(lowered), '-');
            &&& forall|i: int| 0 <= i < t.len() ==> is_stem_safe(#[trigger] t[i])
            &&& t.len() > 0 ==> t[0] != '-' && t.last() != '-'
        }),
{
    let k = stem_chars(lowered);
    lemma_stem_chars_safe(lowered);
    lemma_trim_char_start(k, '-');
    let a = trim_char_start(k, '-');
    lemma_trim_char_end(a, '-');
    let t = trim_char_end(a, '-');
    assert forall|i: int| 0 <= i < t.len() implies is_stem_safe(#[trigger] t[i]) by {
        assert(t[i] == a[i]);
        assert(a[i] == k[k.len() - a.len() + i]);
    }
    if t.len() > 0 {
        assert(t[0] == a[0]);
    }
}

/// Law: a generated file stem is never empty, consists only of ASCII
/// letters, digits, `-` and `_`, and neither starts nor ends with `-`.
pub proof fn lemma_file_stem_is_portable(lowered: Seq<char>)
    ensures
        file_stem_spec(lowered).len() > 0,
        forall|i: int|
            0 <= i < file_stem_spec(lowered).len() ==> is_stem_safe(
                #[trigger] file_stem_spec(lowered)[i],
            ),
        file_stem_spec(lowered)[0] != '-',
        file_stem_spec(lowered).last() != '-',
{
    lemma_trimmed_stem(lowered);
    let t = trim_char_spec(stem_chars(lowered), '-');
    if t.len() == 0 {
        let f = file_stem_spec(lowered);
        assert(f == seq!['s', 'e', 'r', 'v', 'e', 'r']);
        assert forall|i: int| 0 <= i < f.len() implies is_stem_safe(#[trigger] f[i]) by {
            assert(is_ascii_alnum(f[i]));
        }
    }
}

/// Law: sanitising is idempotent: a generated stem is its own stem.
pub proof fn lemma_file_stem_idempotent(lowered: Seq<char>)
    ensures
        file_stem_spec(file_stem_spec(lowered)) == file_stem_spec(lowered),
{
    let f = file_stem_spec(lowered);
    lemma_file_stem_is_portable(lowered);
    lemma_stem_chars_fixed(f);
    lemma_trim_char_fixed(f, '-');
}

/// `~` alone: the home directory itself.
pub open spec fn is_home_alias(path: Seq<char>) -> bool {
    path == seq!['~']
}

/// For `~/rest` or `~\rest`, the part below the home directory.
pub open spec fn below_home(path: Seq<char>) -> Option<Seq<char>> {
    if path.len() >= 2 && path[0] == '~' && (path[1] == '/' || path[1] == '\\') {
        Some(path.subrange(2, path.len() as int))
    } else {
        None
    }
}

/// `s` with every `\` turned into `/`.
pub open spec fn forward_slashes(s: Seq<char>) -> Seq<char> {
    s.map_values(|c: char| if c == '\\' { '/' } else { c })
}

/// How a path below the home directory is written with `~`.
pub open spec fn home_relative_spec(rest: Seq<char>) -> Seq<char> {
    if rest.len() == 0 {
        seq!['~']
    } else {
        seq!['~', '/'] + forward_slashes(rest)
    }
}

/// The name of the generated Clash file for a server name.
pub open spec fn clash_file_name_spec(name: Seq<char>) -> Seq<char> {
    "resip-"@ + file_stem_spec(lowercase(name)) + ".yaml"@
}

/// The private keys looked for in `~/.ssh`, in order of preference.
pub open spec fn identity_candidates() -> Seq<Seq<char>> {
    seq!["~/.ssh/id_ed25519"@, "~/.ssh/id_rsa"@, "~/.ssh/id_ecdsa"@, "~/.ssh/id_dsa"@]
}

/// The user's home directory, as the system reports it: never empty.
pub fn home_dir() -> (r: Result<String, ResipError>)
    ensures
        r is Err ==> r->Err_0 == ResipError::HomeDirUnavailable,
        r is Ok ==> r->Ok_0@.len() > 0,
{
    match user_dirs() {
        Some(dirs) => Ok(user_home_dir(&dirs)),
        None => Err(ResipError::HomeDirUnavailable),
    }
}

/// What expanding `path` gives when the home directory is `home`: `home`
/// for `~`, `home` joined with `rest` for `~/rest` or `~\\rest`, and
/// `path` itself otherwise.
pub open spec fn expands_to(path: Seq<char>, home: Seq<char>, r: Seq<char>) -> bool {
    if is_home_alias(path) {
        r == home
    } else {
        match below_home(path) {
            Some(rest) => joins(home, rest, r),
            None => r == path,
        }
    }
}

/// `r` is what expanding `path` gives for some home directory, which is
/// not empty.
pub open spec fn expands_from_some_home(path: Seq<char>, r: Seq<char>) -> bool {
    exists|home: Seq<char>| home.len() > 0 && #[trigger] expands_to(path, home, r)
}

/// `path` names a place in the home directory (`~`, `~/rest`, `~\\rest`).
pub open spec fn needs_home(path: Seq<char>) -> bool {
    is_home_alias(path) || below_home(path) is Some
}

/// Expands a leading `~` of `path`, the home directory being `home`.
pub fn expand_tilde_with_home(path: &str, home: &str) -> (r: String)
    ensures
        expands_to(path@, home@, r@),
{
    let v = chars_of(path);
    let n = v.len();
    if n == 1 && v[0] == '~' {
        assert(path@ =~= seq!['~']);
        return String::from_str(home);
    }
    if n >= 2 && v[0] == '~' && (v[1] == '/' || v[1] == '\\') {
        let rest = string_of_range(&v, 2, n);
        return path_join(home, rest.as_str());
    }
    String::from_str(path)
}

/// Expands a leading `~` to the home directory. Other paths come back
/// unchanged, without consulting the home directory.
pub fn expand_tilde(path: &str) -> (r: Result<String, ResipError>)
    ensures
        r is Err ==> r->Err_0 == ResipError::HomeDirUnavailable && needs_home(path@),
        !needs_home(path@) ==> r is Ok && r->Ok_0@ == path@,
        r is Ok ==> expands_from_some_home(path@, r->Ok_0@),
        below_home(path@) matches Some(rest) ==> (is_plain_name(rest) && r is Ok ==> ends_with(
            r->Ok_0@,
            rest,
        )),
{
    if needs_home_text(path) {
        let home = match home_dir() {
            Ok(home) => home,
            Err(error) => return Err(error),
        };
        let expanded = expand_tilde_with_home(path, home.as_str());
        assert(home@.len() > 0 && expands_to(path@, home@, expanded@));
        return Ok(expanded);
    }
    let same = String::from_str(path);
    assert(seq!['/'].len() > 0 && expands_to(path@, seq!['/'], same@));
    Ok(same)
}

/// Whether `path` starts with the home directory's `~`.
fn needs_home_text(path: &str) -> (r: bool)
    ensures
        r == needs_home(path@),
{
    let v = chars_of(path);
    let n = v.len();
    if n == 1 && v[0] == '~' {
        assert(path@ =~= seq!['~']);
        return true;
    }
    n >= 2 && v[0] == '~' && (v[1] == '/' || v[1] == '\\')
}

/// Writes a path below the home directory with `~`: `~` for the home
/// directory itself, otherwise `~/` and the rest with `/` separators.
pub fn home_relative(rest: &str) -> (r: String)
    ensures
        r@ == home_relative_spec(rest@),
{
    let v = chars_of(rest);
    let mut r = String::new();
    push_char(&mut r, '~');
    if v.len() == 0 {
        assert(r@ =~= seq!['~']);
        return r;
    }
    push_char(&mut r, '/');
    let mut i: usize = 0;
    while i < v.len()
        invariant
            v@ == rest@,
            i <= v@.len(),
            r@ == seq!['~', '/'] + forward_slashes(rest@.subrange(0, i as int)),
        decreases v.len() - i,
    {
        let c = if v[i] == '\\' {
            '/'
        } else {
            v[i]
        };
        push_char(&mut r, c);
        i = i + 1;
        assert(r@ =~= seq!['~', '/'] + forward_slashes(rest@.subrange(0, i as int)));
    }
    assert(rest@.subrange(0, v@.len() as int) =~= rest@);
    r
}

/// How `collapse_home` writes `path`, given whether the platform reads it as
/// absolute and the part of it below the home directory, if any.
pub open spec fn collapse_spec(path: Seq<char>, absolute: bool, below: Option<Seq<char>>) -> Seq<
    char,
> {
    match below {
        Some(rest) => if absolute {
            home_relative_spec(rest)
        } else {
            path
        },
        None => path,
    }
}

/// `r` is `path` written with `~` by the rule of `collapse_spec`, applied
/// to the platform's answers for `path`: whether it is absolute (which only
/// text starting with a separator or a drive prefix can be) and its part
/// below the home directory, if any.
pub open spec fn collapses(path: Seq<char>, r: Seq<char>) -> bool {
    exists|absolute: bool, below: Option<Seq<char>>|
        (absolute ==> may_be_absolute(path)) && r == #[trigger] collapse_spec(path, absolute, below)
}

/// What a collapsed path looks like: `path` unchanged or a `~` form, and
/// unchanged when no platform reads `path` as absolute.
pub proof fn lemma_collapses_shape(path: Seq<char>, r: Seq<char>)
    requires
        collapses(path, r),
    ensures
        r == path || (exists|rest: Seq<char>| r == #[trigger] home_relative_spec(rest)),
        !may_be_absolute(path) ==> r == path,
{
    let (absolute, below) = choose|absolute: bool, below: Option<Seq<char>>|
        (absolute ==> may_be_absolute(path)) && r == #[trigger] collapse_spec(path, absolute, below);
    if absolute && below is Some {
        assert(r == home_relative_spec(below->Some_0));
    }
}

/// The view of an optional string.
pub open spec fn opt_string_view(s: Option<String>) -> Option<Seq<char>> {
    match s {
        Some(v) => Some(v@),
        None => None,
    }
}

/// Writes `path` with `~` given the platform's answers: whether `path` is
/// absolute, and the part of it below the home directory (`None` when it
/// is not below it).
pub fn collapse_below_home(path: &str, absolute: bool, below: Option<String>) -> (r: String)
    ensures
        r@ == collapse_spec(path@, absolute, opt_string_view(below)),
{
    match below {
        Some(rest) => if absolute {
            home_relative(rest.as_str())
        } else {
            String::from_str(path)
        },
        None => String::from_str(path),
    }
}

/// Writes `path` with `~` when the platform reads it as an absolute path
/// below `home`; otherwise `path` comes back unchanged.
pub fn collapse_home_with(path: &str, home: &str) -> (r: String)
    ensures
        collapses(path@, r@),
{
    let absolute = path_is_absolute(path);
    let below = if absolute {
        path_strip_prefix(path, home)
    } else {
        None
    };
    let r = collapse_below_home(path, absolute, below);
    assert((absolute ==> may_be_absolute(path@)) && r@ == collapse_spec(
        path@,
        absolute,
        opt_string_view(below),
    ));
    r
}

/// Writes an absolute path below the home directory with `~`; other paths
/// come back unchanged. Fails only when there is no home directory.
pub fn collapse_home(path: &str) -> (r: Result<String, ResipError>)
    ensures
        r is Err ==> r->Err_0 == ResipError::HomeDirUnavailable,
        r is Ok ==> collapses(path@, r->Ok_0@),
{
    let home = home_dir()?;
    Ok(collapse_home_with(path, home.as_str()))
}

/// Law: a path that `collapse_home` writes with `~` is read back by
/// `expand_tilde` as a path below the home directory, so a saved `~` form
/// is expanded again when it is used.
pub proof fn lemma_collapsed_paths_expand_from_home(rest: Seq<char>)
    ensures
        rest.len() == 0 ==> is_home_alias(home_relative_spec(rest)),
        rest.len() > 0 ==> below_home(home_relative_spec(rest)) == Some(forward_slashes(rest)),
{
    if rest.len() > 0 {
        let h = home_relative_spec(rest);
        assert(h.subrange(2, h.len() as int) =~= forward_slashes(rest));
    }
}

/// Law: the configuration keeps the `~` form and expanding it gives the
/// path back. When the platform reads `path` as absolute with `rest` below
/// the home directory `home`, `collapse_below_home` writes it with `~`, and
/// `expand_tilde_with_home` turns that form into `home` itself (for an
/// empty `rest`) or `home` extended by `rest`, which is how the platform
/// rebuilds `path` from its part below `home`. (A `rest` holding `\\`
/// comes back with `/` there; one holding `:` is left to the platform.)
pub proof fn lemma_collapse_then_expand(
    path: Seq<char>,
    home: Seq<char>,
    rest: Seq<char>,
    expanded: Seq<char>,
)
    requires
        expands_to(collapse_spec(path, true, Some(rest)), home, expanded),
        is_relative_text(rest),
        forall|i: int| 0 <= i < rest.len() ==> #[trigger] rest[i] != '\\',
        !is_verbatim(home),
    ensures
        rest.len() == 0 ==> expanded == home,
        rest.len() > 0 ==> adjoins(home, rest, expanded),
{
    lemma_collapsed_paths_expand_from_home(rest);
    if rest.len() > 0 {
        assert(forward_slashes(rest) =~= rest);
        let h = home_relative_spec(rest);
        assert(h.len() >= 3);
        assert(!is_home_alias(h));
    }
}

/// The name of the generated Clash file: `resip-{stem}.yaml`.
pub fn clash_file_name(name: &str) -> (r: String)
    ensures
        r@ == clash_file_name_spec(name@),
{
    let mut r = String::from_str("resip-");
    let stem = sanitize_file_stem(name);
    r.append(stem.as_str());
    r.append(".yaml");
    r
}

/// A generated Clash file name is a single plain path component.
pub proof fn lemma_clash_file_name_is_plain(name: Seq<char>)
    ensures
        is_plain_name(clash_file_name_spec(name)),
{
    reveal_strlit("resip-");
    reveal_strlit(".yaml");
    let stem = file_stem_spec(lowercase(name));
    lemma_file_stem_is_portable(lowercase(name));
    let f = clash_file_name_spec(name);
    assert(f == "resip-"@ + stem + ".yaml"@);
    assert forall|i: int| 0 <= i < f.len() implies #[trigger] f[i] != '/' && f[i] != '\\' by {
        if 6 <= i < 6 + stem.len() {
            assert(f[i] == stem[i - 6]);
            assert(is_stem_safe(stem[i - 6]));
        }
    }
    assert(f.len() > 2);
}

/// The directory that the generated Clash file goes in: the Downloads
/// directory when there is one, else the home directory.
pub open spec fn output_base(download: Option<Seq<char>>, home: Seq<char>) -> Seq<char> {
    match download {
        Some(dir) => dir,
        None => home,
    }
}

/// `r` is the default output path for `name` under the environment's
/// answers: a Downloads directory or none, and a home directory that is not
/// empty. The output base extended by `resip-{stem}.yaml` is written with
/// `~` by the rule of `collapses`.
pub open spec fn default_output_rule(name: Seq<char>, r: Seq<char>) -> bool {
    exists|download: Option<Seq<char>>, home: Seq<char>, joined: Seq<char>|
        home.len() > 0 && #[trigger] joins(output_base(download, home), clash_file_name_spec(name), joined)
            && collapses(joined, r)
}

/// Where the generated Clash file goes before it is written with `~`: the
/// Downloads directory `download` if there is one, else `home`, extended by
/// `resip-{stem}.yaml`.
pub fn clash_output_location(name: &str, download: Option<String>, home: &str) -> (r: String)
    ensures
        joins(output_base(opt_string_view(download), home@), clash_file_name_spec(name@), r@),
{
    let file_name = clash_file_name(name);
    match download {
        Some(dir) => path_join(dir.as_str(), file_name.as_str()),
        None => path_join(home, file_name.as_str()),
    }
}

/// The default location of the generated Clash file: the Downloads
/// directory, or the home directory where there is none, extended by
/// `resip-{stem}.yaml` and written with `~` where it lies below home.
pub fn default_clash_output_path(name: &str) -> (r: Result<String, ResipError>)
    ensures
        r is Err ==> r->Err_0 == ResipError::HomeDirUnavailable,
        r is Ok ==> default_output_rule(name@, r->Ok_0@),
        r is Ok ==> (ends_with(r->Ok_0@, clash_file_name_spec(name@)) || (exists|rest: Seq<char>|
            r->Ok_0@ == home_relative_spec(rest))),
{
    let download = match user_dirs() {
        Some(dirs) => user_download_dir(&dirs),
        None => None,
    };
    let ghost download_view = opt_string_view(download);
    let home = home_dir()?;
    let joined = clash_output_location(name, download, home.as_str());
    proof {
        lemma_clash_file_name_is_plain(name@);
    }
    let collapsed = collapse_home_with(joined.as_str(), home.as_str());
    assert(home@.len() > 0 && joins(
        output_base(download_view, home@),
        clash_file_name_spec(name@),
        joined@,
    ) && collapses(joined@, collapsed@));
    proof {
        lemma_collapses_shape(joined@, collapsed@);
    }
    Ok(collapsed)
}

/// The private key at position `i` of the preference order.
fn identity_candidate(i: usize) -> (r: &'static str)
    requires
        i < 4,
    ensures
        r@ == identity_candidates()[i as int],
{
    if i == 0 {
        "~/.ssh/id_ed25519"
    } else if i == 1 {
        "~/.ssh/id_rsa"
    } else if i == 2 {
        "~/.ssh/id_ecdsa"
    } else {
        "~/.ssh/id_dsa"
    }
}

/// Which candidate is preferred when `present[i]` says whether candidate
/// `i` exists: the first one that does, or the first candidate when none
/// does (or nothing is known).
pub open spec fn preferred_identity_index(present: Seq<bool>) -> int {
    if present.len() > 0 && present[0] {
        0
    } else if present.len() > 1 && present[1] {
        1
    } else if present.len() > 2 && present[2] {
        2
    } else if present.len() > 3 && present[3] {
        3
    } else {
        0
    }
}

/// The preferred private key, given which candidates exist (in the order
/// of `identity_candidates`): the first present one, else `~/.ssh/id_ed25519`.
pub fn preferred_identity_file(present: &[bool]) -> (r: String)
    ensures
        r@ == identity_candidates()[preferred_identity_index(present@)],
{
    let mut i: usize = 0;
    while i < 4 && i < present.len()
        invariant
            i <= 4,
            forall|j: int| 0 <= j < i && j < present@.len() ==> !present@[j],
        decreases 4 - i,
    {
        if present[i] {
            assert(preferred_identity_index(present@) == i);
            return String::from_str(identity_candidate(i));
        }
        i = i + 1;
    }
    assert(preferred_identity_index(present@) == 0);
    String::from_str(identity_candidate(0))
}

/// Whether the private key at `candidate` exists as a file. The answer is
/// the file system's, so nothing is stated about it.
fn identity_file_present(candidate: &str) -> bool {
    match expand_tilde(candidate) {
        Ok(path) => path_is_file(path.as_str()),
        Err(_) => false,
    }
}

/// `probe` answered `answer` when it was asked about candidate `j`.
pub open spec fn probed<F: Fn(&str) -> bool>(probe: F, j: int, answer: bool) -> bool {
    exists|x: &str| x@ == identity_candidates()[j] && #[trigger] call_ensures(probe, (x,), answer)
}

/// The key that `probe` finds: the candidates are asked about in the order
/// ed25519, RSA, ECDSA, DSA, and the first one that `probe` accepts is the
/// answer, every one before it having been refused; when all are refused,
/// the answer is `~/.ssh/id_ed25519`.
pub open spec fn finds_first<F: Fn(&str) -> bool>(probe: F, r: Seq<char>) -> bool {
    ||| exists|k: int|
        0 <= k < 4 && r == identity_candidates()[k] && #[trigger] probed(probe, k, true) && (
        forall|j: int| 0 <= j < k ==> probed(probe, j, false))
    ||| r == identity_candidates()[0] && (forall|j: int| 0 <= j < 4 ==> probed(probe, j, false))
}

/// Asks `probe` about the candidate keys in order of preference and returns
/// the first one it accepts, or `~/.ssh/id_ed25519` when it accepts none.
pub fn first_present_identity<F: Fn(&str) -> bool>(probe: F) -> (r: String)
    requires
        forall|x: &str| #[trigger] probe.requires((x,)),
    ensures
        finds_first(probe, r@),
        identity_candidates().contains(r@),
{
    let mut i: usize = 0;
    while i < 4
        invariant
            i <= 4,
            forall|x: &str| #[trigger] probe.requires((x,)),
            forall|j: int| 0 <= j < i ==> probed(probe, j, false),
        decreases 4 - i,
    {
        let candidate = identity_candidate(i);
        let found = probe(candidate);
        assert(candidate@ == identity_candidates()[i as int] && call_ensures(
            probe,
            (candidate,),
            found,
        ));
        if found {
            assert(probed(probe, i as int, true));
            assert(identity_candidates()[i as int] == candidate@);
            return String::from_str(candidate);
        }
        assert(probed(probe, i as int, false));
        i = i + 1;
    }
    let fallback = identity_candidate(0);
    assert(identity_candidates()[0] == fallback@);
    String::from_str(fallback)
}

/// Law: when the probe answers each candidate as `present` says (candidate
/// `j` exists exactly when `present[j]`), the key it finds is the first
/// candidate that exists, or `~/.ssh/id_ed25519` when none does: the same
/// choice that `preferred_identity_file` makes from `present`.
pub proof fn lemma_probe_finds_first_present<F: Fn(&str) -> bool>(
    probe: F,
    present: Seq<bool>,
    r: Seq<char>,
)
    requires
        present.len() == 4,
        forall|j: int, b: bool| 0 <= j < 4 && #[trigger] probed(probe, j, b) ==> b == present[j],
        finds_first(probe, r),
    ensures
        r == identity_candidates()[preferred_identity_index(present)],
{
    if exists|k: int|
        0 <= k < 4 && r == identity_candidates()[k] && #[trigger] probed(probe, k, true) && (
        forall|j: int| 0 <= j < k ==> probed(probe, j, false)) {
        let k = choose|k: int|
            0 <= k < 4 && r == identity_candidates()[k] && #[trigger] probed(probe, k, true) && (
            forall|j: int| 0 <= j < k ==> probed(probe, j, false));
        assert(present[k]);
        assert forall|j: int| 0 <= j < k implies !present[j] by {
            assert(probed(probe, j, false));
        }
        assert(preferred_identity_index(present) == k);
    } else {
        assert forall|j: int| 0 <= j < 4 implies !present[j] by {
            assert(probed(probe, j, false));
        }
        assert(preferred_identity_index(present) == 0);
    }
}

/// The first private key in `~/.ssh` that exists, in the order ed25519,
/// RSA, ECDSA, DSA; `~/.ssh/id_ed25519` when none does. Which keys exist is
/// asked of the file system, one at a time; `first_present_identity` makes
/// the choice.
pub fn detect_default_identity_file() -> (r: String)
    ensures
        identity_candidates().contains(r@),
{
    first_present_identity(|candidate: &str| identity_file_present(candidate))
}

/// The directory to open for a file, given the parent that the platform
/// reports for its path: that parent unless there is none or it is empty
/// (a bare file name), in which case `None` asks for the current directory.
pub fn usable_parent(parent: Option<String>) -> (r: Option<String>)
    ensures
        r == (match parent {
            Some(p) => if p@.len() > 0 {
                Some(p)
            } else {
                None
            },
            None => None,
        }),
{
    match parent {
        Some(p) => if p.unicode_len() > 0 {
            Some(p)
        } else {
            None
        },
        None => None,
    }
}

/// The directory that holds `path`, when its text names one; `None` means
/// the current directory. A directory found is a non-empty part of `path`'s
/// text before its final component.
pub fn directory_to_open(path: &str) -> (r: Option<String>)
    ensures
        r matches Some(dir) ==> dir@.len() > 0 && dir@.len() < path@.len() && path@.subrange(
            0,
            dir@.len() as int,
        ) == dir@,
        path@.len() == 0 ==> r is None,
{
    usable_parent(path_parent(path))
}

/// `dir` made absolute: as it is where the platform reads it as absolute,
/// else below the current directory `cwd`; `None` when that is needed but
/// the current directory is unknown.
pub fn absolute_dir_in(dir: &str, cwd: Option<String>) -> (r: Option<String>)
    ensures
        r matches Some(p) ==> p@ == dir@ || (cwd matches Some(c) && joins(c@, dir@, p@)),
        !may_be_absolute(dir@) ==> (match cwd {
            Some(c) => r matches Some(p) && joins(c@, dir@, p@),
            None => r is None,
        }),
{
    if path_is_absolute(dir) {
        Some(String::from_str(dir))
    } else {
        match cwd {
            Some(c) => Some(path_join(c.as_str(), dir)),
            None => None,
        }
    }
}

} // verus!
