//! Text primitives shared by the editor model and the widgets.

use unicode_segmentation::UnicodeSegmentation;
use vstd::prelude::*;
use vstd::std_specs::iter::IteratorSpec;
use vstd::string::*;

verus! {

/// The contents of a sequence of strings, one entry per string.
pub open spec fn texts(parts: Seq<String>) -> Seq<Seq<char>> {
    Seq::new(parts.len(), |i: int| parts[i]@)
}

/// The extended grapheme clusters of `text`, in the order in which they occur.
pub uninterp spec fn grapheme_clusters(text: Seq<char>) -> Seq<Seq<char>>;

/// Splits `text` into its extended grapheme clusters with
/// `unicode_segmentation::UnicodeSegmentation::graphemes`.
///
/// Trusted: the result is the segmentation named by [`grapheme_clusters`]. The
/// clusters are consecutive, non-empty slices of `text` that cover it from its
/// first to its last character.
#[verifier::external_body]
pub(crate) fn graphemes(text: &str) -> (parts: Vec<String>)
    ensures
        texts(parts@) == grapheme_clusters(text@),
        texts(parts@).flatten() == text@,
        forall|i: int| 0 <= i < parts@.len() ==> (#[trigger] parts@[i])@.len() > 0,
{
    text.graphemes(true).map(String::from).collect()
}

/// Appends one character to `text` with `String::push`.
///
/// Trusted: the text afterwards is the text before followed by `c`.
#[verifier::external_body]
pub(crate) fn push_char(text: &mut String, c: char)
    ensures
        final(text)@ == old(text)@.push(c),
{
    text.push(c);
}

/// The characters of `text`.
pub fn chars_of(text: &str) -> (chars: Vec<char>)
    ensures
        chars@ == text@,
{
    let mut rest = text.chars();
    let mut chars: Vec<char> = Vec::new();
    assert(chars@ + rest.remaining() =~= text@);
    loop
        invariant_except_break
            chars@ + rest.remaining() == text@,
            rest.obeys_prophetic_iter_laws(),
            rest.decrease() is Some,
        ensures
            chars@ == text@,
        decreases rest.decrease()->0,
    {
        let ghost before = rest.remaining();
        match rest.next() {
            Some(c) => {
                chars.push(c);
                assert(chars@ + rest.remaining() =~= text@);
            },
            None => {
                assert(chars@ + before =~= chars@);
                break ;
            },
        }
    }
    chars
}

/// The string made of the characters with indices in `from..to`.
pub(crate) fn string_of(chars: &Vec<char>, from: usize, to: usize) -> (text: String)
    requires
        from <= to <= chars.len(),
    ensures
        text@ == chars@.subrange(from as int, to as int),
{
    let mut text = String::new();
    let mut i: usize = from;
    while i < to
        invariant
            from <= i <= to <= chars.len(),
            text@ == chars@.subrange(from as int, i as int),
        decreases to - i,
    {
        push_char(&mut text, chars[i]);
        i += 1;
        assert(text@ =~= chars@.subrange(from as int, i as int));
    }
    text
}

/// The index of the first `target` in `text` at or after `from`; the length
/// of `text` where there is none.
pub open spec fn find_from(text: Seq<char>, target: char, from: int) -> int
    decreases text.len() - from,
{
    if from < 0 || from >= text.len() {
        text.len() as int
    } else if text[from] == target {
        from
    } else {
        find_from(text, target, from + 1)
    }
}

/// What [`find_from`] finds lies at or after `from`, holds `target`, and no
/// `target` stands before it.
pub proof fn lemma_find_from(text: Seq<char>, target: char, from: int)
    requires
        0 <= from <= text.len(),
    ensures
        from <= find_from(text, target, from) <= text.len(),
        find_from(text, target, from) < text.len() ==> text[find_from(text, target, from)] == target,
        forall|i: int| from <= i < find_from(text, target, from) ==> text[i] != target,
    decreases text.len() - from,
{
    if from < text.len() && text[from] != target {
        lemma_find_from(text, target, from + 1);
    }
}

/// Finds the first `target` at or after `from`.
pub(crate) fn find_char(chars: &Vec<char>, target: char, from: usize) -> (at: usize)
    requires
        from <= chars.len(),
    ensures
        at == find_from(chars@, target, from as int),
        from <= at <= chars.len(),
{
    let mut at: usize = from;
    while at < chars.len() && chars[at] != target
        invariant
            from <= at <= chars.len(),
            find_from(chars@, target, at as int) == find_from(chars@, target, from as int),
        decreases chars.len() - at,
    {
        at += 1;
    }
    at
}

/// The index of the first line feed of `text` at or after `from`; the length
/// of `text` where there is none.
pub open spec fn line_end(text: Seq<char>, from: int) -> int {
    find_from(text, '\n', from)
}

/// The line that starts at `from`. It reaches to the next line feed; a
/// carriage return directly before that line feed belongs to the line ending.
pub open spec fn line_at(text: Seq<char>, from: int) -> Seq<char> {
    let end = line_end(text, from);
    if end < text.len() && from < end && text[end - 1] == '\r' {
        text.subrange(from, end - 1)
    } else {
        text.subrange(from, end)
    }
}

/// The lines of `text` from index `from` on.
pub open spec fn lines_from(text: Seq<char>, from: int) -> Seq<Seq<char>>
    decreases text.len() - from,
    via lines_from_decreases
{
    if from < 0 || from >= text.len() {
        Seq::empty()
    } else if line_end(text, from) >= text.len() {
        seq![line_at(text, from)]
    } else {
        seq![line_at(text, from)] + lines_from(text, line_end(text, from) + 1)
    }
}

#[via_fn]
proof fn lines_from_decreases(text: Seq<char>, from: int) {
    if 0 <= from < text.len() {
        lemma_find_from(text, '\n', from);
    }
}

/// The lines of `text`. A line ends at a line feed, or at a carriage return
/// followed by a line feed; the line ending is not part of the line. The last
/// line needs no line ending, and a text that ends with one has no empty line
/// after it.
pub open spec fn lines(text: Seq<char>) -> Seq<Seq<char>> {
    lines_from(text, 0)
}

/// Splits `text` into its lines.
pub fn split_lines(text: &str) -> (rows: Vec<String>)
    ensures
        texts(rows@) == lines(text@),
{
    let chars = chars_of(text);
    let n = chars.len();
    let mut rows: Vec<String> = Vec::new();
    let mut from: usize = 0;
    while from < n
        invariant
            n == chars.len(),
            from <= n,
            texts(rows@) + lines_from(chars@, from as int) == lines(chars@),
        decreases n - from,
    {
        let end = find_char(&chars, '\n', from);
        let stop = if end < n && from < end && chars[end - 1] == '\r' {
            end - 1
        } else {
            end
        };
        let line = string_of(&chars, from, stop);
        proof {
            assert(line@ == line_at(chars@, from as int));
            assert(texts(rows@.push(line)) =~= texts(rows@) + seq![line@]);
            assert(lines_from(chars@, from as int) =~= seq![line@] + lines_from(
                chars@,
                if end == n { n as int } else { end as int + 1 },
            ));
        }
        rows.push(line);
        from = if end == n {
            n
        } else {
            end + 1
        };
    }
    assert(texts(rows@) + Seq::<Seq<char>>::empty() =~= texts(rows@));
    rows
}

/// The character for a digit.
pub open spec fn digit_char(d: nat) -> char {
    (('0' as u8) + d) as char
}

/// The decimal digits of `n`.
pub open spec fn digits_of(n: nat) -> Seq<char>
    decreases n,
{
    if n < 10 {
        seq![digit_char(n)]
    } else {
        digits_of(n / 10).push(digit_char(n % 10))
    }
}

/// `n` in decimal digits.
pub fn decimal_text(n: usize) -> (text: String)
    ensures
        text@ == digits_of(n as nat),
{
    decimal(n as u64)
}

/// The decimal digits of `value`, behind a minus sign where it is negative.
pub open spec fn signed_digits(value: int) -> Seq<char> {
    if value < 0 {
        seq!['-'] + digits_of((-value) as nat)
    } else {
        digits_of(value as nat)
    }
}

/// The number with the given magnitude, negative or not, in decimal digits.
/// Zero has no sign.
pub fn signed_text(negative: bool, magnitude: u64) -> (text: String)
    ensures
        text@ == signed_digits(
            if negative {
                -(magnitude as int)
            } else {
                magnitude as int
            },
        ),
{
    if negative && magnitude > 0 {
        let mut text = String::new();
        push_char(&mut text, '-');
        text.append(decimal(magnitude).as_str());
        text
    } else {
        decimal(magnitude)
    }
}

/// `n` in decimal digits.
pub fn decimal(n: u64) -> (text: String)
    ensures
        text@ == digits_of(n as nat),
{
    let mut rest: u64 = n;
    let mut low: Vec<char> = Vec::new();
    assert(digits_of(rest as nat) + low@.reverse() =~= digits_of(n as nat));
    while rest >= 10
        invariant
            digits_of(n as nat) == digits_of(rest as nat) + low@.reverse(),
        decreases rest,
    {
        let digit = (48u8 + (rest % 10) as u8) as char;
        proof {
            assert(digit == digit_char((rest % 10) as nat));
            assert(low@.push(digit).reverse() =~= seq![digit] + low@.reverse());
            assert(digits_of((rest / 10) as nat).push(digit) + low@.reverse() =~= digits_of(
                (rest / 10) as nat,
            ) + (seq![digit] + low@.reverse()));
        }
        low.push(digit);
        rest = rest / 10;
    }
    let mut text = String::new();
    push_char(&mut text, (48u8 + rest as u8) as char);
    let mut i: usize = low.len();
    while i > 0
        invariant
            i <= low.len(),
            text@ == digits_of(rest as nat) + low@.reverse().subrange(0, low.len() - i),
        decreases i,
    {
        i -= 1;
        push_char(&mut text, low[i]);
        assert(text@ =~= digits_of(rest as nat) + low@.reverse().subrange(0, low.len() - i));
    }
    assert(low@.reverse().subrange(0, low.len() as int) =~= low@.reverse());
    text
}

/// Whether `text` starts with `prefix`.
pub open spec fn has_prefix(text: Seq<char>, prefix: Seq<char>) -> bool {
    prefix.len() <= text.len() && text.subrange(0, prefix.len() as int) == prefix
}

/// Whether `text` ends with `suffix`.
pub open spec fn has_suffix(text: Seq<char>, suffix: Seq<char>) -> bool {
    suffix.len() <= text.len() && text.subrange(text.len() - suffix.len(), text.len() as int) == suffix
}

/// Whether the characters of `chars` from index `at` on start with `part`.
fn holds_at(chars: &Vec<char>, at: usize, part: &Vec<char>) -> (found: bool)
    requires
        at <= chars.len(),
    ensures
        found == has_prefix(chars@.subrange(at as int, chars@.len() as int), part@),
{
    let ghost rest = chars@.subrange(at as int, chars@.len() as int);
    if part.len() > chars.len() - at {
        return false;
    }
    let mut i: usize = 0;
    while i < part.len()
        invariant
            i <= part.len(),
            at + part.len() <= chars.len(),
            rest == chars@.subrange(at as int, chars@.len() as int),
            forall|j: int| 0 <= j < i ==> chars@[at + j] == part@[j],
        decreases part.len() - i,
    {
        if chars[at + i] != part[i] {
            assert(rest.subrange(0, part.len() as int)[i as int] != part@[i as int]);
            return false;
        }
        i += 1;
    }
    assert(rest.subrange(0, part.len() as int) =~= part@);
    true
}

/// Whether `chars` starts with `prefix`.
pub fn starts_with(chars: &Vec<char>, prefix: &Vec<char>) -> (found: bool)
    ensures
        found == has_prefix(chars@, prefix@),
{
    assert(chars@.subrange(0, chars@.len() as int) =~= chars@);
    holds_at(chars, 0, prefix)
}

/// Whether `chars` ends with `suffix`.
pub fn ends_with(chars: &Vec<char>, suffix: &Vec<char>) -> (found: bool)
    ensures
        found == has_suffix(chars@, suffix@),
{
    if suffix.len() > chars.len() {
        return false;
    }
    let at = chars.len() - suffix.len();
    let found = holds_at(chars, at, suffix);
    proof {
        let rest = chars@.subrange(at as int, chars@.len() as int);
        assert(rest.subrange(0, suffix@.len() as int) =~= rest);
    }
    found
}

} // verus!
