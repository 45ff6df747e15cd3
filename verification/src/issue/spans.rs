//! The line below a comment: who wrote it, how long ago, and the reactions.

use crate::issue::model::{Comment, CommentView, Reaction};
use crate::paint::{line_view, Line, Span, SpanView, Style};
use crate::template::{blanks, whitespaces};
use crate::text::push_char;
use crate::theme::Theme;
use vstd::prelude::*;
use vstd::string::*;

verus! {

/// How a span of `seconds` is put in words, such as `2 hours ago`.
pub uninterp spec fn time_ago(seconds: u64) -> Seq<char>;

/// Puts a span of time in words with `timeago::Formatter::convert`, on a
/// formatter as `timeago::Formatter::new` makes it.
///
/// Trusted: the result is the wording named by [`time_ago`].
#[verifier::external_body]
pub(crate) fn ago(seconds: u64) -> (words: String)
    ensures
        words@ == time_ago(seconds),
{
    timeago::Formatter::new().convert(std::time::Duration::from_secs(seconds))
}

/// The seconds from `timestamp` to `now`; 0 for a timestamp that lies
/// ahead.
pub open spec fn age(now: u64, timestamp: u64) -> u64 {
    if timestamp > now {
        0
    } else {
        (now - timestamp) as u64
    }
}

/// The reactions as text: each emoji with a blank behind it.
pub open spec fn reactions_text(reactions: Seq<Reaction>) -> Seq<char>
    decreases reactions.len(),
{
    if reactions.len() == 0 {
        Seq::empty()
    } else {
        reactions_text(reactions.drop_last()) + seq![reactions.last().emoji, ' ']
    }
}

/// A line below a comment: `indent` blanks, the author, the age of the
/// comment in words and the reactions, with blanks between them.
pub open spec fn meta_spans(
    indent: u16,
    author: Seq<char>,
    age: Seq<char>,
    reactions: Seq<char>,
    theme: Theme,
) -> Seq<SpanView> {
    seq![
        SpanView { content: blanks(indent as nat), style: Style::plain() },
        SpanView { content: author, style: theme.secondary },
        SpanView { content: blanks(1), style: Style::plain() },
        SpanView { content: age, style: theme.secondary },
        SpanView { content: blanks(1), style: Style::plain() },
        SpanView { content: reactions, style: Style::plain() },
    ]
}

/// The line below `comment` at the time `now`.
pub open spec fn meta_line(comment: CommentView, theme: Theme, indent: u16, now: u64) -> Seq<SpanView> {
    meta_spans(
        indent,
        comment.author.shown(),
        time_ago(age(now, comment.timestamp)),
        reactions_text(comment.reactions),
        theme,
    )
}

/// The age at the time `now` of something written at `timestamp`, in
/// words.
pub fn age_words(now: u64, timestamp: u64) -> (words: String)
    ensures
        words@ == time_ago(age(now, timestamp)),
{
    ago(now.saturating_sub(timestamp))
}

/// A line below a comment, given the age of the comment in words.
pub fn meta(indent: u16, author: String, age: String, reactions: String, theme: &Theme) -> (line: Line)
    ensures
        line_view(line@) == meta_spans(indent, author@, age@, reactions@, *theme),
{
    let mut line: Line = Vec::new();
    line.push(Span { content: whitespaces(indent), style: Style::new() });
    line.push(Span { content: author, style: theme.secondary });
    line.push(Span { content: whitespaces(1), style: Style::new() });
    line.push(Span { content: age, style: theme.secondary });
    line.push(Span { content: whitespaces(1), style: Style::new() });
    line.push(Span { content: reactions, style: Style::new() });
    assert(line_view(line@) =~= meta_spans(indent, author@, age@, reactions@, *theme));
    line
}

/// The reactions as text.
pub fn reaction_text(reactions: &Vec<Reaction>) -> (text: String)
    ensures
        text@ == reactions_text(reactions@),
{
    let mut text = String::new();
    let mut i: usize = 0;
    while i < reactions.len()
        invariant
            i <= reactions.len(),
            text@ == reactions_text(reactions@.subrange(0, i as int)),
        decreases reactions.len() - i,
    {
        proof {
            let done = reactions@.subrange(0, i + 1);
            assert(done.drop_last() =~= reactions@.subrange(0, i as int));
        }
        push_char(&mut text, reactions[i].emoji);
        push_char(&mut text, ' ');
        i += 1;
        assert(text@ =~= reactions_text(reactions@.subrange(0, i as int)));
    }
    assert(reactions@.subrange(0, reactions.len() as int) =~= reactions@);
    text
}

/// The line below `comment`, as it is at the time `now`.
pub fn comment_meta(comment: &Comment, theme: &Theme, indent: u16, now: u64) -> (line: Line)
    ensures
        line_view(line@) == meta_line(comment@, *theme, indent, now),
{
    meta(
        indent,
        comment.author.name(),
        age_words(now, comment.timestamp),
        reaction_text(&comment.reactions),
        theme,
    )
}

} // verus!
