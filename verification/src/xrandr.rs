//! Reading the current rotation out of an X server's status text.
//!
//! The status text has one line per output. The line of a connected output
//! starts with the output's name and the word `connected`, goes on with its
//! geometry, names the rotation unless it is the normal one, and then lists
//! the rotations and reflections that the output supports:
//!
//! ```text
//! eDP-1 connected primary 1800x3200+0+0 left (normal left inverted right x axis y axis) 294mm x 165mm
//! ```
//!
//! Lines are tried in order against a regular expression made from the
//! display's name; the first one that matches tells the rotation.

use vstd::prelude::*;
use vstd::string::{StrSliceExecFns, StringExecFns};
use crate::error::QueryError;
use crate::text::chars_of;

verus! {

/// `regex::Error`, which tells why a pattern was refused. It is handed
/// through unread.
#[verifier::external_type_specification]
#[verifier::external_body]
pub struct ExRegexError(regex::Error);

/// What follows the display's name in the pattern of a status line: the
/// word `connected`, two fields, the rotation keyword and its blank as an
/// optional group, the list of what the output supports, and a rest.
pub const STATUS_LINE_TAIL: &'static str =
    " connected .+? .+? (normal |inverted |left |right )?\\(normal left inverted right x axis y axis\\) .+$";

/// Whether `c` has a meaning of its own in a regular expression.
pub open spec fn is_meta_character(c: char) -> bool {
    c == '\\' || c == '.' || c == '+' || c == '*' || c == '?' || c == '(' || c == ')' || c == '|'
        || c == '[' || c == ']' || c == '{' || c == '}' || c == '^' || c == '$' || c == '#' || c
        == '&' || c == '-' || c == '~'
}

/// `text` with a backslash in front of each of its meta characters.
pub open spec fn escaped(text: Seq<char>) -> Seq<char>
    decreases text.len(),
{
    if text.len() == 0 {
        Seq::empty()
    } else if is_meta_character(text.last()) {
        escaped(text.drop_last()).push('\\').push(text.last())
    } else {
        escaped(text.drop_last()).push(text.last())
    }
}

/// What the regular expression `pattern` captures in `haystack`.
///
/// `None` where the expression matches nowhere in `haystack`. Otherwise the
/// part of the leftmost match that its first group took, or `None` inside
/// where that group took no part in the match.
pub uninterp spec fn first_group(pattern: Seq<char>, haystack: Seq<char>) -> Option<
    Option<Seq<char>>,
>;

/// Whether `regex::Regex::new` accepts `pattern`.
///
/// It refuses a pattern that it cannot parse and one whose compiled form
/// is larger than the limit that the regex crate has built in. Both depend
/// on the text of the pattern and on nothing else.
pub uninterp spec fn pattern_compiles(pattern: Seq<char>) -> bool;

/// Calls `regex::escape`, which copies `text` and puts a backslash in front
/// of every character for which `regex_syntax::is_meta_character` holds.
#[verifier::external_body]
fn escape(text: &str) -> (r: String)
    ensures
        r@ == escaped(text@),
{
    regex::escape(text)
}

/// Compiles `pattern` with `regex::Regex::new` and searches `haystack` with
/// `Regex::captures`, handing back the text of group 1.
///
/// An error comes from the compilation alone, and exactly where the
/// pattern is one that does not compile; the search itself cannot fail. Of
/// a search that took place the contract says that its outcome is
/// `first_group` of the two texts.
#[verifier::external_body]
fn capture_first_group(pattern: &str, haystack: &str) -> (r: Result<
    Option<Option<String>>,
    regex::Error,
>)
    ensures
        r is Ok <==> pattern_compiles(pattern@),
        r matches Ok(found) ==> found.deep_view() == first_group(pattern@, haystack@),
{
    let expression = regex::Regex::new(pattern)?;
    Ok(expression.captures(haystack).map(|found| found.get(1).map(|m| m.as_str().to_owned())))
}

/// The regular expression that the status line of `display` matches.
pub open spec fn output_pattern_of(display: Seq<char>) -> Seq<char> {
    "^"@ + escaped(display) + STATUS_LINE_TAIL@
}

/// Builds the regular expression for the status line of `display`.
pub fn output_pattern(display: &str) -> (pattern: String)
    ensures
        pattern@ == output_pattern_of(display@),
{
    let mut pattern = "^".to_owned();
    let name = escape(display);
    pattern.append(name.as_str());
    pattern.append(STATUS_LINE_TAIL);
    pattern
}

/// The rotation keyword that a captured group stands for.
///
/// The group holds the keyword and the blank after it. A status line
/// without a keyword describes an output in its normal rotation.
pub open spec fn keyword_of_capture(group: Option<Seq<char>>) -> Seq<char> {
    match group {
        None => "normal"@,
        Some(text) => if text.len() > 0 && text.last() == ' ' {
            text.drop_last()
        } else {
            text
        },
    }
}

/// Turns the group captured in a status line into a rotation keyword.
pub fn keyword_from_capture(group: Option<String>) -> (keyword: String)
    ensures
        keyword@ == keyword_of_capture(group.deep_view()),
{
    match group {
        None => "normal".to_owned(),
        Some(text) => {
            let chars = chars_of(text.as_str());
            let n = chars.len();
            if n > 0 && chars[n - 1] == ' ' {
                assert(text@.subrange(0, n - 1) =~= text@.drop_last());
                text.as_str().substring_char(0, n - 1).to_owned()
            } else {
                text
            }
        },
    }
}

/// The length of the first line of `text`: the number of characters in
/// front of its first newline, or all of them.
pub open spec fn first_line_len(text: Seq<char>) -> int
    decreases text.len(),
{
    if text.len() == 0 || text[0] == '\n' {
        0
    } else {
        1 + first_line_len(text.skip(1))
    }
}

/// The lines of `text`: the pieces between its newlines, of which there is
/// one more than there are newlines.
pub open spec fn lines_of(text: Seq<char>) -> Seq<Seq<char>>
    decreases text.len(),
{
    let n = first_line_len(text);
    if 0 <= n < text.len() {
        seq![text.take(n)] + lines_of(text.skip(n + 1))
    } else {
        seq![text]
    }
}

/// What `pattern` captures in the first of `lines` that it matches, or
/// `None` where it matches none of them.
pub open spec fn first_match(pattern: Seq<char>, lines: Seq<Seq<char>>) -> Option<
    Option<Seq<char>>,
>
    decreases lines.len(),
{
    if lines.len() == 0 {
        None
    } else {
        match first_group(pattern, lines[0]) {
            Some(group) => Some(group),
            None => first_match(pattern, lines.skip(1)),
        }
    }
}

/// The rotation keyword that `status` gives for `display`: that of the
/// first line which the display's pattern matches, or `None` where it
/// matches no line.
pub open spec fn rotation_in(status: Seq<char>, display: Seq<char>) -> Option<Seq<char>> {
    match first_match(output_pattern_of(display), lines_of(status)) {
        Some(group) => Some(keyword_of_capture(group)),
        None => None,
    }
}

/// What asking `status` for the rotation of `display` comes to: the
/// keyword, `NoMatch` where no line describes the display, and
/// `InvalidPattern` where the display's name makes a pattern that does not
/// compile, whatever the status text holds.
pub open spec fn rotation_query(status: Seq<char>, display: Seq<char>) -> Result<
    Seq<char>,
    QueryError,
> {
    if !pattern_compiles(output_pattern_of(display)) {
        Err(QueryError::InvalidPattern)
    } else {
        match rotation_in(status, display) {
            Some(keyword) => Ok(keyword),
            None => Err(QueryError::NoMatch),
        }
    }
}

/// `lines` put together again, with a newline between each two.
pub open spec fn joined(lines: Seq<Seq<char>>) -> Seq<char>
    decreases lines.len(),
{
    if lines.len() == 0 {
        Seq::empty()
    } else if lines.len() == 1 {
        lines[0]
    } else {
        lines[0] + seq!['\n'] + joined(lines.skip(1))
    }
}

/// The first line ends at the first newline, or with the text.
pub proof fn lemma_first_line(text: Seq<char>)
    ensures
        0 <= first_line_len(text) <= text.len(),
        forall|j: int| 0 <= j < first_line_len(text) ==> text[j] != '\n',
        first_line_len(text) == text.len() || text[first_line_len(text)] == '\n',
    decreases text.len(),
{
    if text.len() > 0 && text[0] != '\n' {
        let rest = text.skip(1);
        lemma_first_line(rest);
        assert forall|j: int| 0 <= j < first_line_len(text) implies text[j] != '\n' by {
            if j > 0 {
                assert(text[j] == rest[j - 1]);
            }
        }
    }
}

/// No line holds a newline, and the lines joined by newlines are the text
/// they were taken from.
pub proof fn lemma_lines_partition(text: Seq<char>)
    ensures
        lines_of(text).len() >= 1,
        forall|i: int, j: int|
            0 <= i < lines_of(text).len() && 0 <= j < lines_of(text)[i].len() ==> lines_of(
                text,
            )[i][j] != '\n',
        joined(lines_of(text)) == text,
    decreases text.len(),
{
    let n = first_line_len(text);
    lemma_first_line(text);
    if n < text.len() {
        let head = text.take(n);
        let rest = text.skip(n + 1);
        let tail = lines_of(rest);
        lemma_lines_partition(rest);
        let lines = lines_of(text);
        assert(lines =~= seq![head] + tail);
        assert(lines.skip(1) =~= tail);
        assert(joined(lines) == head + seq!['\n'] + joined(tail));
        assert(head + seq!['\n'] + rest =~= text);
        assert forall|i: int, j: int|
            0 <= i < lines.len() && 0 <= j < lines[i].len() implies lines[i][j] != '\n' by {
            if i > 0 {
                assert(lines[i] == tail[i - 1]);
            }
        }
    }
}

/// A run of `k` characters without a newline that ends the text or stands
/// in front of a newline is the first line.
proof fn lemma_first_line_len(text: Seq<char>, k: int)
    requires
        0 <= k <= text.len(),
        forall|j: int| 0 <= j < k ==> text[j] != '\n',
        k == text.len() || text[k] == '\n',
    ensures
        first_line_len(text) == k,
    decreases k,
{
    if k > 0 {
        let rest = text.skip(1);
        assert forall|j: int| 0 <= j < k - 1 implies rest[j] != '\n' by {
            assert(rest[j] == text[j + 1]);
        }
        lemma_first_line_len(rest, k - 1);
    }
}

/// The end of the line that starts at `start`.
fn line_end(chars: &Vec<char>, start: usize) -> (end: usize)
    requires
        start <= chars.len(),
    ensures
        start <= end <= chars.len(),
        first_line_len(chars@.skip(start as int)) == end - start,
{
    let mut end: usize = start;
    while end < chars.len() && chars[end] != '\n'
        invariant
            start <= end <= chars.len(),
            forall|j: int| start <= j < end ==> chars@[j] != '\n',
        decreases chars.len() - end,
    {
        end += 1;
    }
    proof {
        lemma_first_line_len(chars@.skip(start as int), end - start);
    }
    end
}

/// The rotation keyword of `display` according to the status text.
///
/// Succeeds if and only if the display's pattern compiles and matches a
/// line of `status`, with the keyword of the first such line. Fails with
/// `NoMatch` if and only if the pattern compiles and matches no line, and
/// with `InvalidPattern` if and only if the pattern does not compile, which
/// happens to names of extraordinary length only.
pub fn current_rotation(status: &str, display: &str) -> (r: Result<String, QueryError>)
    ensures
        match r {
            Ok(keyword) => rotation_query(status@, display@) == Ok::<Seq<char>, QueryError>(
                keyword@,
            ),
            Err(e) => rotation_query(status@, display@) == Err::<Seq<char>, QueryError>(e),
        },
{
    let pattern = output_pattern(display);
    let chars = chars_of(status);
    let mut start: usize = 0;
    assert(status@.skip(0) =~= status@);
    loop
        invariant
            start <= chars.len(),
            chars@ == status@,
            pattern@ == output_pattern_of(display@),
            first_match(pattern@, lines_of(status@)) == first_match(
                pattern@,
                lines_of(status@.skip(start as int)),
            ),
        decreases chars.len() - start,
    {
        let end = line_end(&chars, start);
        let line = status.substring_char(start, end);
        let ghost rest = status@.skip(start as int);
        proof {
            assert(line@ =~= rest.take(end - start));
            if end < chars.len() {
                assert(rest.skip(end - start + 1) =~= status@.skip(end + 1));
                assert(lines_of(rest).skip(1) =~= lines_of(status@.skip(end + 1)));
            } else {
                assert(rest =~= line@);
                assert(lines_of(rest).skip(1).len() == 0);
                assert(first_match(pattern@, lines_of(rest).skip(1)) is None);
            }
            assert(lines_of(rest)[0] == line@);
        }
        match capture_first_group(pattern.as_str(), line) {
            Err(_) => {
                return Err(QueryError::InvalidPattern);
            },
            Ok(Some(group)) => {
                return Ok(keyword_from_capture(group));
            },
            Ok(None) => {},
        }
        if end == chars.len() {
            return Err(QueryError::NoMatch);
        }
        start = end + 1;
    }
}

} // verus!
