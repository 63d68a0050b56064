//! How answers typed at the interactive prompts are read.
use crate::support::text::{chars_of, lowercase, to_lowercase, trim, trim_spec};
use vstd::prelude::*;

verus! {

/// The meaning of a lowercased yes/no answer: empty takes the default,
/// `y`/`yes` and `n`/`no` decide, anything else asks again (`None`).
pub open spec fn yes_no_spec(lowered: Seq<char>, default: bool) -> Option<bool> {
    if lowered.len() == 0 {
        Some(default)
    } else if lowered == seq!['y'] || lowered == seq!['y', 'e', 's'] {
        Some(true)
    } else if lowered == seq!['n'] || lowered == seq!['n', 'o'] {
        Some(false)
    } else {
        None
    }
}

/// An answer to a prompt with a default: the trimmed input, or the default
/// when nothing but whitespace was typed.
pub open spec fn default_answer_spec(input: Seq<char>, default: Seq<char>) -> Seq<char> {
    if trim_spec(input).len() == 0 {
        default
    } else {
        trim_spec(input)
    }
}

/// Reads a lowercased yes/no answer.
pub fn yes_no_answer(lowered: &str, default: bool) -> (r: Option<bool>)
    ensures
        r == yes_no_spec(lowered@, default),
{
    let v = chars_of(lowered);
    if v.len() == 0 {
        return Some(default);
    }
    if (v.len() == 1 && v[0] == 'y') || (v.len() == 3 && v[0] == 'y' && v[1] == 'e' && v[2]
        == 's') {
        assert(lowered@ =~= seq!['y'] || lowered@ =~= seq!['y', 'e', 's']);
        return Some(true);
    }
    if (v.len() == 1 && v[0] == 'n') || (v.len() == 2 && v[0] == 'n' && v[1] == 'o') {
        assert(lowered@ =~= seq!['n'] || lowered@ =~= seq!['n', 'o']);
        return Some(false);
    }
    assert(lowered@ != seq!['y']);
    assert(lowered@ != seq!['y', 'e', 's']);
    assert(lowered@ != seq!['n']);
    assert(lowered@ != seq!['n', 'o']);
    None
}

/// Reads a line typed at a yes/no prompt: it is trimmed and lowercased,
/// then read as by `yes_no_answer`.
pub fn resolve_yes_no(input: &str, default: bool) -> (r: Option<bool>)
    ensures
        r == yes_no_spec(lowercase(trim_spec(input@)), default),
        trim_spec(input@).len() == 0 ==> r == Some(default),
{
    let trimmed = trim(input);
    let lowered = to_lowercase(trimmed.as_str());
    yes_no_answer(lowered.as_str(), default)
}

/// Reads a line typed at a prompt with a default.
pub fn resolve_default(input: &str, default: &str) -> (r: String)
    ensures
        r@ == default_answer_spec(input@, default@),
{
    let trimmed = trim(input);
    if trimmed.unicode_len() == 0 {
        String::from_str(default)
    } else {
        trimmed
    }
}

/// Reads a line typed at a prompt that needs an answer: `None` (ask again)
/// when nothing but whitespace was typed.
pub fn resolve_required(input: &str) -> (r: Option<String>)
    ensures
        trim_spec(input@).len() == 0 ==> r is None,
        trim_spec(input@).len() > 0 ==> r is Some && r->Some_0@ == trim_spec(input@),
{
    let trimmed = trim(input);
    if trimmed.unicode_len() == 0 {
        None
    } else {
        Some(trimmed)
    }
}

} // verus!
