//! Track titles made from file names: a leading track number goes, underscores
//! become spaces, and the first letter is capitalised.
use vstd::prelude::*;
use vstd::string::StrSliceExecFns;

use crate::text::{ascii_upper, push_char, trim, trimmed};

verus! {

/// What removing the first match of `pattern` from `text` gives, or `None` where
/// `pattern` is not a regular expression that `regex` compiles.
pub uninterp spec fn spec_regex_remove_first(pattern: Seq<char>, text: Seq<char>) -> Option<Seq<char>>;

/// Compiles `pattern` with `regex::Regex::new` and removes the leftmost match
/// in `text` with `Regex::replace` and an empty replacement. The result is
/// named, not stated: it is the same for the same pattern and text; `None`
/// stands for a pattern that does not compile.
#[verifier::external_body]
fn regex_remove_first(pattern: &str, text: &str) -> (r: Option<String>)
    ensures
        r matches Some(s) ==> spec_regex_remove_first(pattern@, text@) == Some(s@),
        r is None ==> spec_regex_remove_first(pattern@, text@) is None,
{
    match regex::Regex::new(pattern) {
        Ok(re) => Some(re.replace(text, "").into_owned()),
        Err(_) => None,
    }
}

/// A leading track number with its separator: "01 - ", "01_", "1.".
pub open spec fn number_prefix_pattern() -> Seq<char> {
    "^\\d{1,2}[\\s._-]+"@
}

/// A leading "Track" with its number and separator: "Track 01 - ".
pub open spec fn track_prefix_pattern() -> Seq<char> {
    "^Track\\s*\\d{1,2}[\\s._-]*"@
}

/// `text` with the first match of `pattern` removed, or `text` unchanged where
/// the pattern does not compile.
pub open spec fn without_first_match(pattern: Seq<char>, text: Seq<char>) -> Seq<char> {
    match spec_regex_remove_first(pattern, text) {
        Some(t) => t,
        None => text,
    }
}

/// `s` with every underscore turned into a space.
pub open spec fn underscores_to_spaces(s: Seq<char>) -> Seq<char> {
    Seq::new(s.len(), |i: int| if s[i] == '_' { ' ' } else { s[i] })
}

/// Whether `c` is an ASCII lowercase letter.
pub open spec fn is_ascii_lower(c: char) -> bool {
    'a' <= c <= 'z'
}

/// `s` with its first character in uppercase where it is an ASCII lowercase letter.
pub open spec fn capitalize_first(s: Seq<char>) -> Seq<char> {
    if s.len() > 0 && is_ascii_lower(s[0]) {
        s.update(0, ascii_upper(s[0]))
    } else {
        s
    }
}

/// The title for a name whose track-number prefixes are already removed.
pub open spec fn finished_title(stripped: Seq<char>) -> Seq<char> {
    capitalize_first(trim(underscores_to_spaces(stripped)))
}

/// The title for a file name: prefixes removed, then finished.
pub open spec fn track_title(filename: Seq<char>) -> Seq<char> {
    finished_title(
        without_first_match(track_prefix_pattern(), without_first_match(number_prefix_pattern(), filename)),
    )
}

/// A copy of `s` with every underscore turned into a space.
fn replace_underscores(s: &str) -> (r: String)
    ensures
        r@ == underscores_to_spaces(s@),
{
    let n = s.unicode_len();
    let mut r = String::new();
    let mut i: usize = 0;
    while i < n
        invariant
            n == s@.len(),
            i <= n,
            r@ == underscores_to_spaces(s@).take(i as int),
        decreases n - i,
    {
        let c = s.get_char(i);
        if c == '_' {
            push_char(&mut r, ' ');
        } else {
            push_char(&mut r, c);
        }
        assert(underscores_to_spaces(s@).take(i + 1) =~= underscores_to_spaces(s@).take(i as int).push(
            underscores_to_spaces(s@)[i as int],
        ));
        i = i + 1;
    }
    assert(underscores_to_spaces(s@).take(n as int) =~= underscores_to_spaces(s@));
    r
}

/// A copy of `s` with its first character in uppercase where it is an ASCII
/// lowercase letter.
fn capitalized(s: &str) -> (r: String)
    ensures
        r@ == capitalize_first(s@),
{
    let n = s.unicode_len();
    let mut r = String::new();
    let mut i: usize = 0;
    while i < n
        invariant
            n == s@.len(),
            i <= n,
            r@ == capitalize_first(s@).take(i as int),
        decreases n - i,
    {
        let c = s.get_char(i);
        if i == 0 && 'a' <= c && c <= 'z' {
            let b: u8 = c as u8;
            assert(b == c as int);
            let up: char = (b - 32) as char;
            push_char(&mut r, up);
        } else {
            push_char(&mut r, c);
        }
        assert(capitalize_first(s@).take(i + 1) =~= capitalize_first(s@).take(i as int).push(
            capitalize_first(s@)[i as int],
        ));
        i = i + 1;
    }
    assert(capitalize_first(s@).take(n as int) =~= capitalize_first(s@));
    r
}

/// The title for a name whose track-number prefixes are already removed:
/// underscores become spaces, surrounding whitespace goes, and a lowercase
/// ASCII first letter is capitalised.
pub fn finish_track_title(stripped: &str) -> (t: String)
    ensures
        t@ == finished_title(stripped@),
{
    let spaced = replace_underscores(stripped);
    let trimmed_title = trimmed(spaced.as_str());
    capitalized(trimmed_title.as_str())
}

/// Clean up a filename to use as track title: a leading "01 - " or "Track 01 - "
/// goes, underscores become spaces, and the first letter is capitalised.
pub fn clean_track_title(filename: &str) -> (t: String)
    ensures
        t@ == track_title(filename@),
{
    let mut title = String::from_str(filename);
    match regex_remove_first("^\\d{1,2}[\\s._-]+", title.as_str()) {
        Some(s) => {
            title = s;
        },
        None => {},
    }
    assert(title@ == without_first_match(number_prefix_pattern(), filename@));
    let ghost first = title@;
    match regex_remove_first("^Track\\s*\\d{1,2}[\\s._-]*", title.as_str()) {
        Some(s) => {
            title = s;
        },
        None => {},
    }
    assert(title@ == without_first_match(track_prefix_pattern(), first));
    finish_track_title(title.as_str())
}

/// The prefixes a title drops, as regular expressions for `regex`: first a
/// track number of one or two digits (`\d{1,2}`, so "1" as well as "01")
/// followed by at least one space, dot, underscore or dash; then "Track" with
/// optional spaces, a number of one or two digits and optional separators.
/// Each is anchored at the start, and for any file name the title is what is
/// left after removing the first, then the second, finished (underscores to
/// spaces, trimmed, first letter capitalised). How `regex` matches is not
/// stated here, only which expressions are matched.
pub proof fn law_title_prefixes(filename: Seq<char>)
    ensures
        number_prefix_pattern() == "^"@ + "\\d{1,2}"@ + "[\\s._-]+"@,
        track_prefix_pattern() == "^"@ + "Track"@ + "\\s*"@ + "\\d{1,2}"@ + "[\\s._-]*"@,
        track_title(filename) == finished_title(
            without_first_match(
                "^Track\\s*\\d{1,2}[\\s._-]*"@,
                without_first_match("^\\d{1,2}[\\s._-]+"@, filename),
            ),
        ),
        track_title(filename).len() > 0 ==> !is_ascii_lower(track_title(filename)[0]),
{
    reveal_strlit("^");
    reveal_strlit("Track");
    reveal_strlit("\\s*");
    reveal_strlit("\\d{1,2}");
    reveal_strlit("[\\s._-]+");
    reveal_strlit("[\\s._-]*");
    reveal_strlit("^\\d{1,2}[\\s._-]+");
    reveal_strlit("^Track\\s*\\d{1,2}[\\s._-]*");
    assert(number_prefix_pattern() =~= "^"@ + "\\d{1,2}"@ + "[\\s._-]+"@);
    assert(track_prefix_pattern() =~= "^"@ + "Track"@ + "\\s*"@ + "\\d{1,2}"@ + "[\\s._-]*"@);
}

} // verus!
