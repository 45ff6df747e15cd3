//! Merge proposals as they are written into notes.

use crate::text::{decimal, digits_of, signed_digits, signed_text};
use std::fmt::Write;
use vstd::prelude::*;
use vstd::string::*;

verus! {

/// What heads a proposal.
#[derive(Debug, PartialEq, Eq)]
pub struct Metadata {
    pub title: String,
}

/// A proposal to merge: a title and a description.
#[derive(Debug, PartialEq, Eq)]
pub struct Proposal {
    pub meta: Metadata,
    pub description: String,
}

/// The text of a note for a proposal: an empty line, the title between
/// rules of three dashes, and the description.
pub open spec fn note_text(title: Seq<char>, description: Seq<char>) -> Seq<char> {
    "\n---\ntitle: '"@ + title + "'\n---\n"@ + description
}

/// `text` with every match of the regular expression `pattern` taken out;
/// nothing where `pattern` is no regular expression.
pub uninterp spec fn without_matches(text: Seq<char>, pattern: Seq<char>) -> Option<Seq<char>>;

/// Takes the matches of `pattern` out of `text`, with `regex::Regex::new`
/// for the pattern and `regex::Regex::replace_all` with an empty
/// replacement.
///
/// Trusted: the result is the text named by [`without_matches`], and there
/// is none exactly where `Regex::new` refuses the pattern.
#[verifier::external_body]
pub(crate) fn strip_matches(text: &str, pattern: &str) -> (stripped: Option<String>)
    ensures
        match stripped {
            Some(stripped) => without_matches(text@, pattern@) == Some(stripped@),
            None => without_matches(text@, pattern@) is None,
        },
{
    let matcher = regex::Regex::new(pattern).ok()?;
    Some(matcher.replace_all(text, "").to_string())
}

/// The second `timestamp` of Unix time, written as `format` says in the
/// notation of `strftime`; nothing for a time that the calendar does not
/// reach, and for a format that cannot be followed.
pub uninterp spec fn formatted_time(timestamp: i64, format: Seq<char>) -> Option<Seq<char>>;

/// Writes the second `timestamp` of Unix time as `format` says, with
/// `chrono::DateTime::from_timestamp` and `chrono::DateTime::format`.
///
/// Trusted: the result is the text named by [`formatted_time`], and there
/// is none exactly where `from_timestamp` gives no time or the formatting
/// fails.
#[verifier::external_body]
pub(crate) fn format_time(timestamp: i64, format: &str) -> (text: Option<String>)
    ensures
        match text {
            Some(text) => formatted_time(timestamp, format@) == Some(text@),
            None => formatted_time(timestamp, format@) is None,
        },
{
    let when = chrono::DateTime::from_timestamp(timestamp, 0)?;
    let mut text = String::new();
    write!(text, "{}", when.format(format)).ok()?;
    Some(text)
}

/// The pattern of a comment: what stands between `<!--` and the next `-->`
/// on the same line, with these marks.
pub open spec fn comment_pattern() -> Seq<char> {
    "<!--(.*?)-->"@
}

/// `text` without its comments.
pub open spec fn without_comments(text: Seq<char>) -> Seq<char> {
    match without_matches(text, comment_pattern()) {
        Some(stripped) => stripped,
        None => text,
    }
}

/// The format of the day of a proposal: the month in words and the day of
/// the month, such as `October 28`.
pub open spec fn day_format() -> Seq<char> {
    "%B %d"@
}

/// The day on which the second `timestamp` of Unix time lies, as month and
/// day of the month. Nothing for a time that the calendar does not reach.
pub open spec fn month_and_day(timestamp: i64) -> Option<Seq<char>> {
    formatted_time(timestamp, day_format())
}

/// The day on which the second `timestamp` of Unix time lies.
pub fn day_of(timestamp: i64) -> (day: Option<String>)
    ensures
        match day {
            Some(day) => month_and_day(timestamp) == Some(day@),
            None => month_and_day(timestamp) is None,
        },
{
    format_time(timestamp, "%B %d")
}

impl Proposal {
    /// Puts `stripped` in the place of the description, if there is such a
    /// text; else the description stays.
    pub fn describe(&mut self, stripped: Option<String>)
        ensures
            final(self).description@ == match stripped {
                Some(text) => text@,
                None => old(self).description@,
            },
            final(self).meta == old(self).meta,
    {
        if let Some(text) = stripped {
            self.description = text;
        }
    }

    /// Takes the comments out of the description.
    pub fn remove_comment(&mut self)
        ensures
            final(self).description@ == without_comments(old(self).description@),
            final(self).meta == old(self).meta,
    {
        let stripped = strip_matches(self.description.as_str(), "<!--(.*?)-->");
        self.describe(stripped);
    }

    /// The proposal as the text of a note.
    pub fn to_string(&self) -> (text: String)
        ensures
            text@ == note_text(self.meta.title@, self.description@),
    {
        let mut text = String::from_str("\n---\ntitle: '");
        text.append(self.meta.title.as_str());
        text.append("'\n---\n");
        text.append(self.description.as_str());
        assert(text@ =~= note_text(self.meta.title@, self.description@));
        text
    }
}

impl Default for Proposal {
    /// The proposal without title and description.
    fn default() -> (proposal: Proposal)
        ensures
            proposal.meta.title@ == Seq::<char>::empty(),
            proposal.description@ == Seq::<char>::empty(),
    {
        Proposal { meta: Metadata { title: String::new() }, description: String::new() }
    }
}

/// The reference under which the notes of the project `id` are kept.
pub fn notes_ref(id: &str) -> (reference: String)
    ensures
        reference@ == "refs/namespaces/"@ + id@ + "/refs/notes/commits"@,
{
    let mut reference = String::from_str("refs/namespaces/");
    reference.append(id);
    reference.append("/refs/notes/commits");
    assert(reference@ =~= "refs/namespaces/"@ + id@ + "/refs/notes/commits"@);
    reference
}

/// The name of the tag that marks the patch made from `branch`.
pub fn patch_tag_name(branch: &str) -> (name: String)
    ensures
        name@ == "radicle-patch/"@ + branch@,
{
    let mut name = String::from_str("radicle-patch/");
    name.append(branch);
    name
}

/// `value` divided by `by`, rounded towards zero.
pub open spec fn truncated(value: int, by: int) -> int {
    if value >= 0 {
        value / by
    } else {
        -((-value) / by)
    }
}

/// When a proposal was opened, in words, given the seconds since then and
/// the date: within the first day the hours, else the minutes, else the
/// seconds that have gone by; then `yesterday`; up to four days the number
/// of days; and the date otherwise, also for a proposal from the future that
/// is a day or more ahead.
pub open spec fn opened(since: int, date: Seq<char>) -> Seq<char> {
    let days = truncated(since, 86400);
    let hours = truncated(since, 3600);
    let minutes = truncated(since, 60);
    if days == 0 {
        if hours == 0 {
            if minutes == 0 {
                signed_digits(since) + " seconds ago"@
            } else {
                signed_digits(minutes) + " minutes ago"@
            }
        } else {
            signed_digits(hours) + " hours ago"@
        }
    } else if days == 1 {
        "yesterday"@
    } else if days == 2 {
        "2 days ago"@
    } else if days == 3 {
        "3 days ago"@
    } else if days == 4 {
        "4 days ago"@
    } else {
        "on "@ + date
    }
}

/// A number of units gone by, in words.
fn gone_by(negative: bool, count: u64, unit: &str) -> (words: String)
    ensures
        words@ == signed_digits(
            if negative {
                -(count as int)
            } else {
                count as int
            },
        ) + unit@,
{
    let mut words = signed_text(negative, count);
    words.append(unit);
    words
}

/// When a proposal was opened, in words, given the seconds from then to now
/// and the date on which it was opened.
pub fn opened_words(since: i64, date: &str) -> (words: String)
    ensures
        words@ == opened(since as int, date@),
{
    let negative = since < 0;
    let magnitude: u64 = if negative {
        (-(since + 1)) as u64 + 1
    } else {
        since as u64
    };
    let days = magnitude / 86400;
    let hours = magnitude / 3600;
    let minutes = magnitude / 60;
    if days == 0 {
        if hours == 0 {
            if minutes == 0 {
                gone_by(negative, magnitude, " seconds ago")
            } else {
                gone_by(negative, minutes, " minutes ago")
            }
        } else {
            gone_by(negative, hours, " hours ago")
        }
    } else if !negative && days == 1 {
        String::from_str("yesterday")
    } else if !negative && days == 2 {
        String::from_str("2 days ago")
    } else if !negative && days == 3 {
        String::from_str("3 days ago")
    } else if !negative && days == 4 {
        String::from_str("4 days ago")
    } else {
        let mut words = String::from_str("on ");
        words.append(date);
        words
    }
}

/// The two lines that list a proposal: the short identifier of its commit,
/// the mark of its direction and its title; and below, when it was opened
/// and by whom.
pub open spec fn listed(
    commit: Seq<char>,
    prefix: Seq<char>,
    title: Seq<char>,
    opened: Seq<char>,
    author: Seq<char>,
) -> (Seq<char>, Seq<char>) {
    (
        crate::git::short(commit) + seq![' '] + prefix + seq![' '] + title,
        seq!['\u{2514}', '\u{2500}', '\u{2500}', ' '] + "opened "@ + opened + " by "@ + author,
    )
}

/// The two lines that list a proposal, given in words when it was opened.
pub fn list_entry(commit: &str, prefix: &str, title: &str, opened: &str, author: &str) -> (lines: (
    String,
    String,
))
    ensures
        (lines.0@, lines.1@) == listed(commit@, prefix@, title@, opened@, author@),
{
    let mut head = crate::git::short_id(commit);
    crate::text::push_char(&mut head, ' ');
    head.append(prefix);
    crate::text::push_char(&mut head, ' ');
    head.append(title);
    let mut below = String::new();
    crate::text::push_char(&mut below, '\u{2514}');
    crate::text::push_char(&mut below, '\u{2500}');
    crate::text::push_char(&mut below, '\u{2500}');
    crate::text::push_char(&mut below, ' ');
    below.append("opened ");
    below.append(opened);
    below.append(" by ");
    below.append(author);
    proof {
        let expected = listed(commit@, prefix@, title@, opened@, author@);
        assert(head@ =~= expected.0);
        assert(below@ =~= expected.1);
    }
    (head, below)
}

/// When a proposal was opened, in words, given the time of its note and
/// the time now, both in seconds of Unix time. Nothing for a time of the
/// note that the calendar does not reach.
pub fn opened_at(timestamp: i64, now: i64) -> (words: Option<String>)
    ensures
        match words {
            Some(words) => month_and_day(timestamp) matches Some(day) && words@ == opened(
                now - timestamp,
                day,
            ) && i64::MIN <= now - timestamp <= i64::MAX,
            None => month_and_day(timestamp) is None || !(i64::MIN <= now - timestamp <= i64::MAX),
        },
{
    let since = match now.checked_sub(timestamp) {
        Some(since) => since,
        None => return None,
    };
    match day_of(timestamp) {
        Some(day) => Some(opened_words(since, day.as_str())),
        None => None,
    }
}

/// The mark of the proposals that go out.
pub fn outgoing_mark() -> (mark: String)
    ensures
        mark@ == seq!['[', '\u{2191}', ']'],
{
    let mut mark = String::new();
    crate::text::push_char(&mut mark, '[');
    crate::text::push_char(&mut mark, '\u{2191}');
    crate::text::push_char(&mut mark, ']');
    assert(mark@ =~= seq!['[', '\u{2191}', ']']);
    mark
}

/// The mark of the proposals that come in.
pub fn incoming_mark() -> (mark: String)
    ensures
        mark@ == seq!['[', '\u{2193}', ']'],
{
    let mut mark = String::new();
    crate::text::push_char(&mut mark, '[');
    crate::text::push_char(&mut mark, '\u{2193}');
    crate::text::push_char(&mut mark, ']');
    assert(mark@ =~= seq!['[', '\u{2193}', ']']);
    mark
}

} // verus!
