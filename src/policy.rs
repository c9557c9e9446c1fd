//! The command whitelist: the only gate in front of the one-shot executor.
//!
//! Only the program name is looked at: the first run of non-space characters
//! of the command string. Arguments are never inspected here.
use vstd::prelude::*;

verus! {

/// Whether `c` is a white-space character in the sense of Unicode's
/// `White_Space` property (what `char::is_whitespace` tests).
pub open spec fn is_space_spec(c: char) -> bool {
    ('\u{9}' <= c && c <= '\u{d}') || c == ' ' || c == '\u{85}' || c == '\u{a0}'
        || c == '\u{1680}' || ('\u{2000}' <= c && c <= '\u{200a}') || c == '\u{2028}'
        || c == '\u{2029}' || c == '\u{202f}' || c == '\u{205f}' || c == '\u{3000}'
}

/// Executable counterpart of `is_space_spec`.
pub fn is_space(c: char) -> (r: bool)
    ensures
        r == is_space_spec(c),
{
    ('\u{9}' <= c && c <= '\u{d}') || c == ' ' || c == '\u{85}' || c == '\u{a0}'
        || c == '\u{1680}' || ('\u{2000}' <= c && c <= '\u{200a}') || c == '\u{2028}'
        || c == '\u{2029}' || c == '\u{202f}' || c == '\u{205f}' || c == '\u{3000}'
}

/// The first index at or after `i` that does not hold a space (or the length).
pub open spec fn skip_spaces(s: Seq<char>, i: int) -> int
    decreases s.len() - i,
{
    if 0 <= i < s.len() && is_space_spec(s[i]) {
        skip_spaces(s, i + 1)
    } else {
        i
    }
}

/// The first index at or after `i` that holds a space (or the length).
pub open spec fn skip_word(s: Seq<char>, i: int) -> int
    decreases s.len() - i,
{
    if 0 <= i < s.len() && !is_space_spec(s[i]) {
        skip_word(s, i + 1)
    } else {
        i
    }
}

/// The first white-space delimited token of `s`; empty when `s` holds only spaces.
pub open spec fn first_token(s: Seq<char>) -> Seq<char> {
    s.subrange(skip_spaces(s, 0), skip_word(s, skip_spaces(s, 0)))
}

/// The fixed set of program names that may be run: build tools, version
/// control, listing, copying, moving and text filtering. No shell, no
/// interpreter, no deletion.
pub open spec fn is_allowed_spec(name: Seq<char>) -> bool {
    name == "cargo"@ || name == "rustc"@ || name == "rustup"@ || name == "git"@
        || name == "echo"@ || name == "pwd"@ || name == "ls"@ || name == "cat"@
        || name == "mkdir"@ || name == "cp"@ || name == "mv"@ || name == "touch"@
        || name == "head"@ || name == "tail"@ || name == "grep"@
}

/// Character-wise equality of two strings.
pub fn str_equal(a: &str, b: &str) -> (r: bool)
    ensures
        r == (a@ == b@),
{
    let n = a.unicode_len();
    let m = b.unicode_len();
    if n != m {
        return false;
    }
    let mut i: usize = 0;
    while i < n
        invariant
            n == a@.len(),
            m == b@.len(),
            n == m,
            i <= n,
            a@.subrange(0, i as int) == b@.subrange(0, i as int),
        decreases n - i,
    {
        if a.get_char(i) != b.get_char(i) {
            assert(a@[i as int] != b@[i as int]);
            return false;
        }
        assert(a@.subrange(0, i + 1) == a@.subrange(0, i as int).push(a@[i as int]));
        assert(b@.subrange(0, i + 1) == b@.subrange(0, i as int).push(b@[i as int]));
        i = i + 1;
    }
    assert(a@ == a@.subrange(0, n as int));
    assert(b@ == b@.subrange(0, n as int));
    true
}

/// The program name of a command string: its first white-space delimited token.
pub fn command_name(command: &str) -> (r: &str)
    ensures
        r@ == first_token(command@),
{
    let n = command.unicode_len();
    let mut start: usize = 0;
    while start < n && is_space(command.get_char(start))
        invariant
            n == command@.len(),
            start <= n,
            skip_spaces(command@, start as int) == skip_spaces(command@, 0),
        decreases n - start,
    {
        start = start + 1;
    }
    let mut end: usize = start;
    while end < n && !is_space(command.get_char(end))
        invariant
            n == command@.len(),
            start <= end <= n,
            skip_spaces(command@, 0) == start,
            skip_word(command@, end as int) == skip_word(command@, start as int),
        decreases n - end,
    {
        end = end + 1;
    }
    command.substring_char(start, end)
}

/// Whether `name` is one of the whitelisted program names.
pub fn is_allowed(name: &str) -> (r: bool)
    ensures
        r == is_allowed_spec(name@),
{
    str_equal(name, "cargo") || str_equal(name, "rustc") || str_equal(name, "rustup")
        || str_equal(name, "git") || str_equal(name, "echo") || str_equal(name, "pwd")
        || str_equal(name, "ls") || str_equal(name, "cat") || str_equal(name, "mkdir")
        || str_equal(name, "cp") || str_equal(name, "mv") || str_equal(name, "touch")
        || str_equal(name, "head") || str_equal(name, "tail") || str_equal(name, "grep")
}

} // verus!
