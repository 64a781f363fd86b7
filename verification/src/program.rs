//! The text of a program, cut into lines.
//!
//! A line ends at a line feed. The line feed is not part of the line, and
//! neither is a carriage return directly in front of it. What follows the
//! last line feed is a line of its own unless it is empty.
use crate::text::{chars_of, string_of};
use vstd::prelude::*;

verus! {

/// Where the first line feed at or behind `i` stands, or the length.
pub open spec fn line_feed_from(s: Seq<char>, i: int) -> int
    decreases s.len() - i,
{
    if 0 <= i < s.len() && s[i] != '\n' {
        line_feed_from(s, i + 1)
    } else {
        i
    }
}

/// The line without the carriage return at its end, if it has one.
pub open spec fn without_return(line: Seq<char>) -> Seq<char> {
    if line.len() > 0 && line.last() == '\r' {
        line.drop_last()
    } else {
        line
    }
}

/// The lines of the text from `i` on. The search for a line feed never ends
/// in front of `i` ([`lemma_line_feed_from`]).
pub open spec fn lines_from(s: Seq<char>, i: int) -> Seq<Seq<char>>
    decreases s.len() - i,
{
    if 0 <= i < s.len() {
        let feed = line_feed_from(s, i);
        if i <= feed < s.len() {
            seq![without_return(s.subrange(i, feed))] + lines_from(s, feed + 1)
        } else {
            seq![s.subrange(i, s.len() as int)]
        }
    } else {
        Seq::empty()
    }
}

/// The lines of a text.
pub open spec fn lines_of(s: Seq<char>) -> Seq<Seq<char>> {
    lines_from(s, 0)
}

/// The texts of a list of strings.
pub open spec fn texts_of(lines: Seq<String>) -> Seq<Seq<char>> {
    lines.map_values(|line: String| line@)
}

/// The search for a line feed ends at or behind its start, inside the text,
/// on a line feed if inside, and passes no line feed.
pub proof fn lemma_line_feed_from(s: Seq<char>, i: int)
    requires
        0 <= i <= s.len(),
    ensures
        i <= line_feed_from(s, i) <= s.len(),
        line_feed_from(s, i) < s.len() ==> s[line_feed_from(s, i)] == '\n',
        forall|k: int| i <= k < line_feed_from(s, i) ==> #[trigger] s[k] != '\n',
    decreases s.len() - i,
{
    if i < s.len() && s[i] != '\n' {
        lemma_line_feed_from(s, i + 1);
    }
}

/// No line holds a line feed.
pub proof fn lemma_lines_hold_no_feed(s: Seq<char>, i: int, k: int, n: int)
    requires
        0 <= i <= s.len(),
        0 <= k < lines_from(s, i).len(),
        0 <= n < lines_from(s, i)[k].len(),
    ensures
        lines_from(s, i)[k][n] != '\n',
    decreases s.len() - i,
{
    if i < s.len() {
        lemma_line_feed_from(s, i);
        let feed = line_feed_from(s, i);
        if feed < s.len() {
            if k == 0 {
                assert(s.subrange(i, feed)[n] == s[i + n]);
            } else {
                lemma_lines_hold_no_feed(s, feed + 1, k - 1, n);
            }
        } else {
            assert(s.subrange(i, s.len() as int)[n] == s[i + n]);
        }
    }
}

/// Cuts a text into its lines.
pub fn split_lines(content: &str) -> (lines: Vec<String>)
    ensures
        texts_of(lines@) == lines_of(content@),
{
    let chars = chars_of(content);
    let mut lines: Vec<String> = Vec::new();
    let mut start: usize = 0;
    while start < chars.len()
        invariant
            start <= chars.len(),
            chars@ == content@,
            texts_of(lines@) + lines_from(chars@, start as int) == lines_of(chars@),
        decreases chars.len() - start,
    {
        let mut feed: usize = start;
        while feed < chars.len() && chars[feed] != '\n'
            invariant
                start <= feed <= chars.len(),
                line_feed_from(chars@, start as int) == line_feed_from(chars@, feed as int),
            decreases chars.len() - feed,
        {
            feed += 1;
        }
        let ghost before = texts_of(lines@);
        if feed < chars.len() {
            let end: usize = if feed > start && chars[feed - 1] == '\r' {
                feed - 1
            } else {
                feed
            };
            let line = string_of(&chars, start, end);
            proof {
                let raw = chars@.subrange(start as int, feed as int);
                if feed > start {
                    assert(raw.last() == chars@[feed - 1]);
                }
                assert(line@ =~= without_return(raw));
            }
            lines.push(line);
            proof {
                assert(texts_of(lines@) =~= before.push(line@));
                assert(before.push(line@) + lines_from(chars@, feed + 1) =~= before + (seq![
                    line@,
                ] + lines_from(chars@, feed + 1)));
            }
            start = feed + 1;
        } else {
            let line = string_of(&chars, start, feed);
            lines.push(line);
            proof {
                assert(texts_of(lines@) =~= before.push(line@));
                assert(before.push(line@) + lines_from(chars@, feed as int) =~= before + seq![
                    line@,
                ]);
            }
            start = feed;
        }
    }
    proof {
        assert(texts_of(lines@) + Seq::<Seq<char>>::empty() =~= texts_of(lines@));
    }
    lines
}

} // verus!
