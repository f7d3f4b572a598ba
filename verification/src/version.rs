//! The version of the command-line program: reading it from what the program
//! prints, and holding it against the least version that is supported.

use vstd::prelude::*;
use vstd::string::StringExecFns;
use vstd::string::StrSliceExecFns;

verus! {

/// The version of this SDK.
pub const VERSION: &'static str = "0.1.0";

/// The least version of the command-line program that is supported.
pub const MIN_CLI_VERSION: &'static str = "2.0.0";

/// `semver`'s version type, carried from the parse to the comparison.
#[verifier::external_type_specification]
#[verifier::external_body]
pub struct ExVersion(semver::Version);

/// What a `semver::Version` holds, as the text that it shows: the three
/// numbers, then the pre-release and the build metadata where it has any.
pub uninterp spec fn version_text(v: semver::Version) -> Seq<char>;

/// The version that `semver::Version::parse` reads from a text, as the text
/// that it shows; nothing where the text is refused.
pub uninterp spec fn version_parsed(text: Seq<char>) -> Option<Seq<char>>;

/// Whether the first of two versions, each given as the text that it shows,
/// is less than the second in the order of `semver::Version`.
pub uninterp spec fn version_less(a: Seq<char>, b: Seq<char>) -> bool;

/// `semver::Version::parse`: the version read from the text, nothing where
/// the text is refused. The outcome depends on the text alone.
#[verifier::external_body]
fn semver_parse(text: &str) -> (r: Option<semver::Version>)
    ensures
        match r {
            Some(v) => version_parsed(text@) == Some(version_text(v)),
            None => version_parsed(text@) is None,
        },
{
    semver::Version::parse(text).ok()
}

/// `<` on `semver::Version`: whether the first is less than the second. The
/// order is that of the fields, which the shown text determines.
#[verifier::external_body]
fn semver_less(a: &semver::Version, b: &semver::Version) -> (r: bool)
    ensures
        r == version_less(version_text(*a), version_text(*b)),
{
    a < b
}

/// Whether the first text, read as a semantic version, precedes the second;
/// not so where one of them is no semantic version.
pub open spec fn precedes(found: Seq<char>, required: Seq<char>) -> bool {
    match (version_parsed(found), version_parsed(required)) {
        (Some(a), Some(b)) => version_less(a, b),
        _ => false,
    }
}

/// Whether the version read from `found`, if there is one, is less than
/// `required`: the comparison that follows the parse.
pub fn is_older(found: &Option<semver::Version>, required: &Option<semver::Version>) -> (r: bool)
    ensures
        r == match (*found, *required) {
            (Some(a), Some(b)) => version_less(version_text(a), version_text(b)),
            _ => false,
        },
{
    match (found, required) {
        (Some(a), Some(b)) => semver_less(a, b),
        _ => false,
    }
}

/// Whether a version of the program is older than the least supported one.
/// A text that is no semantic version is not held to be older.
pub fn is_below_minimum(version: &str) -> (r: bool)
    ensures
        r == precedes(version@, MIN_CLI_VERSION@),
{
    let found = semver_parse(version);
    let required = semver_parse(MIN_CLI_VERSION);
    is_older(&found, &required)
}

/// Whether a character is white space.
pub open spec fn is_whitespace(c: char) -> bool {
    let n = c as u32;
    (9 <= n <= 13) || n == 32 || n == 133 || n == 160 || n == 5760 || (8192 <= n <= 8202) || n
        == 8232 || n == 8233 || n == 8239 || n == 8287 || n == 12288
}

/// The first line of a text, without its line ending.
pub open spec fn first_line(text: Seq<char>) -> Seq<char> {
    let end = line_end(text, 0);
    if 0 < end < text.len() && text[end - 1] == '\r' {
        text.subrange(0, end - 1)
    } else {
        text.subrange(0, end)
    }
}

/// Where the line that holds the place `from` ends: at the first line feed
/// at or after that place, or at the end of the text.
pub open spec fn line_end(text: Seq<char>, from: int) -> int
    decreases text.len() - from,
{
    if from < 0 || from >= text.len() {
        text.len() as int
    } else if text[from] == '\n' {
        from
    } else {
        line_end(text, from + 1)
    }
}

/// How much of a line is left once the white space at its end is taken off.
pub open spec fn trimmed_len(line: Seq<char>) -> int
    decreases line.len(),
{
    if line.len() == 0 || !is_whitespace(line.last()) {
        line.len() as int
    } else {
        trimmed_len(line.drop_last())
    }
}

/// Where the run of characters without white space that ends a text begins.
pub open spec fn last_run_start(line: Seq<char>) -> int
    decreases line.len(),
{
    if line.len() == 0 || is_whitespace(line.last()) {
        line.len() as int
    } else {
        last_run_start(line.drop_last())
    }
}

/// The last word of a line: the longest run of characters without white
/// space that nothing but white space follows. Nothing where the line holds
/// no word.
pub open spec fn last_word(line: Seq<char>) -> Option<Seq<char>> {
    let end = trimmed_len(line);
    if end == 0 {
        None
    } else {
        Some(line.subrange(last_run_start(line.subrange(0, end)), end))
    }
}

/// The version that the program's output names: the last word of its first
/// line, or `unknown` where that line holds no word.
pub open spec fn version_of_output(output: Seq<char>) -> Seq<char> {
    match last_word(first_line(output)) {
        Some(word) => word,
        None => "unknown"@,
    }
}

fn char_is_whitespace(c: char) -> (r: bool)
    ensures
        r == is_whitespace(c),
{
    let n = c as u32;
    (9 <= n && n <= 13) || n == 32 || n == 133 || n == 160 || n == 5760 || (8192 <= n && n <= 8202)
        || n == 8232 || n == 8233 || n == 8239 || n == 8287 || n == 12288
}

proof fn lemma_line_end_bounds(text: Seq<char>, from: int)
    requires
        0 <= from <= text.len(),
    ensures
        from <= line_end(text, from) <= text.len(),
    decreases text.len() - from,
{
    if from < text.len() && text[from] != '\n' {
        lemma_line_end_bounds(text, from + 1);
    }
}

proof fn lemma_trimmed_len_bounds(line: Seq<char>)
    ensures
        0 <= trimmed_len(line) <= line.len(),
    decreases line.len(),
{
    if line.len() > 0 && is_whitespace(line.last()) {
        lemma_trimmed_len_bounds(line.drop_last());
    }
}

proof fn lemma_last_run_start_bounds(line: Seq<char>)
    ensures
        0 <= last_run_start(line) <= line.len(),
    decreases line.len(),
{
    if line.len() > 0 && !is_whitespace(line.last()) {
        lemma_last_run_start_bounds(line.drop_last());
    }
}

/// The version that the program's output names.
pub fn version_from_output(output: &str) -> (r: String)
    ensures
        r@ == version_of_output(output@),
{
    let n = output.unicode_len();
    // the end of the first line
    let mut end: usize = 0;
    while end < n && output.get_char(end) != '\n'
        invariant
            0 <= end <= n,
            n == output@.len(),
            line_end(output@, 0) == line_end(output@, end as int),
        decreases n - end,
    {
        end += 1;
    }
    let mut stop = end;
    if 0 < end && end < n && output.get_char(end - 1) == '\r' {
        stop = end - 1;
    }
    let ghost line = first_line(output@);
    proof {
        lemma_line_end_bounds(output@, 0);
        assert(line == output@.subrange(0, stop as int));
    }
    // the white space at the end of the line
    let mut word_end = stop;
    proof {
        assert(line.subrange(0, word_end as int) =~= line);
    }
    while word_end > 0 && char_is_whitespace(output.get_char(word_end - 1))
        invariant
            0 <= word_end <= stop <= n,
            n == output@.len(),
            line == output@.subrange(0, stop as int),
            trimmed_len(line) == trimmed_len(line.subrange(0, word_end as int)),
        decreases word_end,
    {
        proof {
            let t = line.subrange(0, word_end as int);
            assert(t.last() == output@[word_end - 1]);
            assert(t.drop_last() =~= line.subrange(0, word_end as int - 1));
        }
        word_end -= 1;
    }
    proof {
        let t = line.subrange(0, word_end as int);
        if word_end > 0 {
            assert(t.last() == output@[word_end - 1]);
        }
        assert(trimmed_len(line) == word_end);
    }
    if word_end == 0 {
        return String::from_str("unknown");
    }
    // the word before it
    let ghost trimmed = line.subrange(0, word_end as int);
    let mut word_start = word_end;
    proof {
        assert(trimmed.subrange(0, word_start as int) =~= trimmed);
    }
    while word_start > 0 && !char_is_whitespace(output.get_char(word_start - 1))
        invariant
            0 <= word_start <= word_end <= stop <= n,
            n == output@.len(),
            line == output@.subrange(0, stop as int),
            trimmed == line.subrange(0, word_end as int),
            last_run_start(trimmed) == last_run_start(trimmed.subrange(0, word_start as int)),
        decreases word_start,
    {
        proof {
            let t = trimmed.subrange(0, word_start as int);
            assert(t.last() == output@[word_start - 1]);
            assert(t.drop_last() =~= trimmed.subrange(0, word_start as int - 1));
        }
        word_start -= 1;
    }
    proof {
        let t = trimmed.subrange(0, word_start as int);
        if word_start > 0 {
            assert(t.last() == output@[word_start - 1]);
        }
        assert(last_run_start(trimmed) == word_start);
        assert(output@.subrange(word_start as int, word_end as int) =~= line.subrange(
            word_start as int,
            word_end as int,
        ));
    }
    String::from_str(output.substring_char(word_start, word_end))
}

} // verus!
