//! What the program says of itself: version, author and description, read
//! off the text of its package manifest.

use crate::facts::UNKNOWN;
use crate::text::{
    begins_with, from_chars, lines, lines_of, split, split_chars, starts_with, strip, strip_chars,
    to_chars, trim, views, CharClass,
};
use vstd::prelude::*;
use vstd::string::*;

verus! {

/// The description that is used where the manifest gives none.
pub const DEFAULT_DESCRIPTION: &'static str = "A cat-themed system information tool";

/// What follows the version in the version text of the program.
pub const CREDITS: &'static str =
    "\nRepository: https://github.com/ryawaa/nekofetch\nSpecial thanks to Joan G. Stark for ASCII art inspiration";

/// The first of `lines` that begins with `prefix`.
pub open spec fn first_starting(lines: Seq<Seq<char>>, prefix: Seq<char>) -> Option<Seq<char>>
    decreases lines.len(),
{
    if lines.len() == 0 {
        None
    } else if starts_with(lines[0], prefix) {
        Some(lines[0])
    } else {
        first_starting(lines.drop_first(), prefix)
    }
}

/// The value that `line` assigns: what stands between its first and its
/// second `=` (or its end), without white space and then without double
/// quotes at either end; `default` where the line holds no `=`.
pub open spec fn assigned(line: Seq<char>, default: Seq<char>) -> Seq<char> {
    let parts = split(line, CharClass::Is('='));
    if parts.len() >= 2 {
        strip(trim(parts[1]), CharClass::Is('"'))
    } else {
        default
    }
}

/// Version, author and description as the manifest `contents` gives them:
/// each from the first line that begins with `version`, `authors` and
/// `description`. There is none where one of the three lines is missing.
pub open spec fn metadata(contents: Seq<char>) -> Option<(Seq<char>, Seq<char>, Seq<char>)> {
    let all = lines(contents);
    if first_starting(all, "version"@) is Some && first_starting(all, "authors"@) is Some
        && first_starting(all, "description"@) is Some {
        Some(
            (
                assigned(first_starting(all, "version"@)->0, UNKNOWN@),
                assigned(first_starting(all, "authors"@)->0, UNKNOWN@),
                assigned(first_starting(all, "description"@)->0, DEFAULT_DESCRIPTION@),
            ),
        )
    } else {
        None
    }
}

/// The metadata that was found, or the values that stand in for it.
pub open spec fn metadata_or_default(found: Option<(String, String, String)>) -> (
    Seq<char>,
    Seq<char>,
    Seq<char>,
) {
    match found {
        Some((version, author, description)) => (version@, author@, description@),
        None => (UNKNOWN@, UNKNOWN@, DEFAULT_DESCRIPTION@),
    }
}

fn find_starting(all: &Vec<Vec<char>>, prefix: &str) -> (found: Option<usize>)
    ensures
        match found {
            Some(i) => i < all@.len() && first_starting(views(all@), prefix@) == Some(all@[i as int]@),
            None => first_starting(views(all@), prefix@) is None,
        },
{
    let mark = to_chars(prefix);
    let ghost spec_lines = views(all@);
    let mut i: usize = 0;
    assert(spec_lines.skip(0) == spec_lines);
    while i < all.len()
        invariant
            i <= all.len(),
            spec_lines == views(all@),
            mark@ == prefix@,
            first_starting(spec_lines, prefix@) == first_starting(
                spec_lines.skip(i as int),
                prefix@,
            ),
        decreases all.len() - i,
    {
        assert(spec_lines.skip(i as int)[0] == all@[i as int]@) by {
            assert(views(all@)[i as int] == all@[i as int]@);
        }
        assert(spec_lines.skip(i as int).drop_first() == spec_lines.skip(i + 1));
        if begins_with(all[i].as_slice(), mark.as_slice()) {
            return Some(i);
        }
        i = i + 1;
    }
    None
}

fn assigned_text(line: &[char], default: &str) -> (text: String)
    ensures
        text@ == assigned(line@, default@),
{
    let parts = split_chars(line, CharClass::Is('='));
    assert(views(parts@).len() == parts@.len());
    if parts.len() >= 2 {
        assert(views(parts@)[1] == parts@[1]@);
        let trimmed = strip_chars(parts[1].as_slice(), CharClass::Space);
        let bare = strip_chars(trimmed.as_slice(), CharClass::Is('"'));
        from_chars(bare.as_slice())
    } else {
        default.to_owned()
    }
}

/// Version, author and description as the manifest `contents` gives them.
pub fn get_metadata_from_cargo_toml(contents: &str) -> (found: Option<(String, String, String)>)
    ensures
        match found {
            Some((version, author, description)) => metadata(contents@) == Some(
                (version@, author@, description@),
            ),
            None => metadata(contents@) is None,
        },
{
    let chars = to_chars(contents);
    let all = lines_of(chars.as_slice());
    let version = match find_starting(&all, "version") {
        Some(i) => assigned_text(all[i].as_slice(), UNKNOWN),
        None => {
            return None;
        },
    };
    let author = match find_starting(&all, "authors") {
        Some(i) => assigned_text(all[i].as_slice(), UNKNOWN),
        None => {
            return None;
        },
    };
    let description = match find_starting(&all, "description") {
        Some(i) => assigned_text(all[i].as_slice(), DEFAULT_DESCRIPTION),
        None => {
            return None;
        },
    };
    Some((version, author, description))
}

/// The metadata that was found, or the values that stand in for it.
pub fn get_metadata_or_default(found: Option<(String, String, String)>) -> (meta: (
    String,
    String,
    String,
))
    ensures
        (meta.0@, meta.1@, meta.2@) == metadata_or_default(found),
{
    match found {
        Some(meta) => meta,
        None => (UNKNOWN.to_owned(), UNKNOWN.to_owned(), DEFAULT_DESCRIPTION.to_owned()),
    }
}

/// The version text of the program: the version, then the repository and
/// the thanks.
pub fn version_text(version: &str) -> (text: String)
    ensures
        text@ == version@ + CREDITS@,
{
    let mut text = version.to_owned();
    text.append(CREDITS);
    text
}

} // verus!
