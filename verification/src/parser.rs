//! The line parser.
//!
//! A line is a command word, a letter with a whole number behind it, followed
//! by parameter words, each a letter with a decimal number behind it. What
//! follows the first semicolon is a comment. White space round the line, round
//! the code and round the comment does not count, and between the words
//! anything may stand that is not itself a word.
//!
//! A number is an optional minus sign, digits, and optionally a point with
//! digits behind it; the digits in front of the point may be missing where
//! there are digits behind it. Its value is kept in millionths: digits behind
//! the sixth decimal place are dropped, and a number beyond
//! [`COORDINATE_LIMIT`](crate::command::COORDINATE_LIMIT) is held to that
//! limit, with its sign. A command number beyond the range of `i32` cannot be
//! read and counts as zero.
use crate::command::{in_reach, words_in_reach, CommandView, GCodeCommand, COORDINATE_LIMIT, MICRO};
use crate::text::{
    all_space, chars_of, digit, digit_value, is_digit, is_letter, is_space, lemma_trim_end_ends,
    lemma_trim_end_prefix, lemma_trim_idempotent, lemma_trim_ignores_surroundings,
    lemma_trim_start_first, letter, string_of, to_upper, trim, trim_bounds, trim_start, upper,
    value_of_digit,
};
use vstd::prelude::*;

verus! {

/// The number that a row of digits writes.
pub open spec fn decimal(digits: Seq<char>) -> nat
    decreases digits.len(),
{
    if digits.len() == 0 {
        0
    } else {
        (decimal(digits.drop_last()) * 10 + digit_value(digits.last())) as nat
    }
}

/// The number of a command word: what its digits write, or zero where that is
/// beyond the range of `i32`.
pub open spec fn command_number(digits: Seq<char>) -> int {
    if decimal(digits) > i32::MAX {
        0
    } else {
        decimal(digits) as int
    }
}

/// The digit at place `k` behind the point, zero where nothing is written.
pub open spec fn fraction_digit(fraction: Seq<char>, k: int) -> int {
    if 0 <= k < fraction.len() {
        digit_value(fraction[k])
    } else {
        0
    }
}

/// The millionths that the digits behind the point write.
pub open spec fn micro_fraction(fraction: Seq<char>) -> int {
    fraction_digit(fraction, 0) * 100_000 + fraction_digit(fraction, 1) * 10_000 + fraction_digit(
        fraction,
        2,
    ) * 1_000 + fraction_digit(fraction, 3) * 100 + fraction_digit(fraction, 4) * 10
        + fraction_digit(fraction, 5)
}

/// The value of a number, from its sign, the digits in front of the point and
/// the digits behind it: what they write, in millionths, held to
/// [`COORDINATE_LIMIT`].
pub open spec fn word_value(negative: bool, whole: Seq<char>, fraction: Seq<char>) -> i64 {
    let written = decimal(whole) * MICRO + micro_fraction(fraction);
    let magnitude = if written > COORDINATE_LIMIT {
        COORDINATE_LIMIT as int
    } else {
        written
    };
    if negative {
        (-magnitude) as i64
    } else {
        magnitude as i64
    }
}

/// Where the row of digits that starts at `i` ends.
pub open spec fn digits_end(s: Seq<char>, i: int) -> int
    decreases s.len() - i,
{
    if 0 <= i < s.len() && is_digit(s[i]) {
        digits_end(s, i + 1)
    } else {
        i
    }
}

/// The parameter word that starts at `i`, if one does: its value and where
/// it ends.
pub open spec fn word_at(s: Seq<char>, i: int) -> Option<(i64, int)> {
    if 0 <= i < s.len() && is_letter(s[i]) {
        let negative = i + 1 < s.len() && s[i + 1] == '-';
        let a = if negative {
            i + 2
        } else {
            i + 1
        };
        let b = digits_end(s, a);
        if b + 1 < s.len() && s[b] == '.' && is_digit(s[b + 1]) {
            let c = digits_end(s, b + 1);
            Some((word_value(negative, s.subrange(a, b), s.subrange(b + 1, c)), c))
        } else if b > a {
            Some((word_value(negative, s.subrange(a, b), Seq::empty()), b))
        } else {
            None
        }
    } else {
        None
    }
}

/// The parameter words from `i` on, from left to right. Where no word starts,
/// the character is passed over. Every word ends behind its start and inside
/// the sequence ([`lemma_word_at_end`]), so none is left out.
pub open spec fn scan_words(s: Seq<char>, i: int) -> Seq<(char, i64)>
    decreases s.len() - i,
{
    if 0 <= i < s.len() {
        match word_at(s, i) {
            Some((value, end)) => if i < end <= s.len() {
                seq![(s[i], value)] + scan_words(s, end)
            } else {
                Seq::empty()
            },
            None => scan_words(s, i + 1),
        }
    } else {
        Seq::empty()
    }
}

/// Where the first semicolon at or behind `i` stands, or the length.
pub open spec fn semicolon_from(s: Seq<char>, i: int) -> int
    decreases s.len() - i,
{
    if 0 <= i < s.len() && s[i] != ';' {
        semicolon_from(s, i + 1)
    } else {
        i
    }
}

/// The command that trimmed code writes, with the comment that came with it.
pub open spec fn parse_code(code: Seq<char>, comment: Option<Seq<char>>) -> Option<CommandView> {
    if code.len() >= 2 && is_letter(code[0]) && is_digit(code[1]) {
        let end = digits_end(code, 1);
        Some(
            CommandView {
                kind: upper(code[0]),
                number: command_number(code.subrange(1, end)),
                parameters: scan_words(code, end),
                comment,
            },
        )
    } else {
        None
    }
}

/// The command that a line writes; none for a line that is empty, a comment,
/// or does not start with a command word.
pub open spec fn parse_line(s: Seq<char>) -> Option<CommandView> {
    let line = trim(s);
    if line.len() == 0 || line[0] == ';' {
        None
    } else {
        let semicolon = semicolon_from(line, 0);
        let code = trim(line.take(semicolon));
        let comment = if semicolon < line.len() {
            Some(trim(line.skip(semicolon + 1)))
        } else {
            None
        };
        parse_code(code, comment)
    }
}

/// White space round a line does not change what it parses to.
pub proof fn lemma_parse_ignores_surrounding_space(pre: Seq<char>, s: Seq<char>, post: Seq<char>)
    requires
        all_space(pre),
        all_space(post),
    ensures
        parse_line(pre + s + post) == parse_line(s),
{
    lemma_trim_ignores_surroundings(pre, s, post);
}

/// Parsing is idempotent on its input: the line as the parser trims it parses
/// to what the line itself parses to.
pub proof fn lemma_parse_of_trimmed(s: Seq<char>)
    ensures
        parse_line(trim(s)) == parse_line(s),
{
    lemma_trim_idempotent(s);
}

/// A line of white space, and a line whose first character that is not white
/// space is a semicolon, parse to nothing.
pub proof fn lemma_blank_and_comment_lines(s: Seq<char>)
    requires
        trim(s).len() == 0 || trim(s)[0] == ';',
    ensures
        parse_line(s) is None,
{
}

/// The search for a semicolon ends at or behind its start, inside the
/// sequence, and passes no semicolon.
pub proof fn lemma_semicolon_from(s: Seq<char>, i: int)
    requires
        0 <= i <= s.len(),
    ensures
        i <= semicolon_from(s, i) <= s.len(),
        forall|k: int| i <= k < semicolon_from(s, i) ==> #[trigger] s[k] != ';',
    decreases s.len() - i,
{
    if i < s.len() && s[i] != ';' {
        lemma_semicolon_from(s, i + 1);
    }
}

/// A line parses to a command exactly if, the white space at its ends apart,
/// it starts with a letter and a digit. The letter, as a capital, is the kind
/// of the command.
pub proof fn lemma_command_lines_parse(s: Seq<char>)
    ensures
        parse_line(s) is Some <==> trim(s).len() >= 2 && is_letter(trim(s)[0]) && is_digit(
            trim(s)[1],
        ),
        parse_line(s) matches Some(command) ==> command.kind == upper(trim(s)[0]),
{
    let line = trim(s);
    lemma_trim_start_first(s);
    lemma_trim_end_ends(trim_start(s));
    if line.len() > 0 && line[0] != ';' {
        lemma_semicolon_from(line, 1);
        let semicolon = semicolon_from(line, 0);
        assert(semicolon == semicolon_from(line, 1));
        let before = line.take(semicolon);
        assert(before[0] == line[0]);
        let code = trim(before);
        assert(trim_start(before) == before);
        lemma_trim_end_prefix(before);
        assert(code == before.take(code.len() as int));
        if code.len() >= 2 {
            assert(code[0] == line[0] && code[1] == line[1]);
        }
        if line.len() >= 2 && is_letter(line[0]) && is_digit(line[1]) {
            lemma_semicolon_from(line, 2);
            assert(semicolon == semicolon_from(line, 2));
            assert(before[1] == line[1]);
            assert(!is_space(before[1]));
        }
    }
}

/// A row of digits ends at or behind its start, inside the sequence, and
/// holds digits only.
pub proof fn lemma_digits_end(s: Seq<char>, i: int)
    requires
        0 <= i <= s.len(),
    ensures
        i <= digits_end(s, i) <= s.len(),
        forall|k: int| i <= k < digits_end(s, i) ==> is_digit(#[trigger] s[k]),
        digits_end(s, i) < s.len() ==> !is_digit(s[digits_end(s, i)]),
    decreases s.len() - i,
{
    if i < s.len() && is_digit(s[i]) {
        lemma_digits_end(s, i + 1);
    }
}

/// A word ends behind its letter, inside the sequence.
pub proof fn lemma_word_at_end(s: Seq<char>, i: int)
    ensures
        word_at(s, i) matches Some((_, end)) ==> i < end <= s.len(),
{
    if 0 <= i < s.len() && is_letter(s[i]) {
        let negative = i + 1 < s.len() && s[i + 1] == '-';
        let a = if negative {
            i + 2
        } else {
            i + 1
        };
        lemma_digits_end(s, a);
        let b = digits_end(s, a);
        if b + 1 < s.len() {
            lemma_digits_end(s, b + 1);
        }
    }
}

/// Finds [`digits_end`].
fn end_of_digits(code: &Vec<char>, start: usize) -> (end: usize)
    requires
        start <= code.len(),
    ensures
        end == digits_end(code@, start as int),
        start <= end <= code.len(),
        forall|k: int| start <= k < end ==> is_digit(#[trigger] code@[k]),
{
    let mut i: usize = start;
    while i < code.len() && digit(code[i])
        invariant
            start <= i <= code.len(),
            digits_end(code@, start as int) == digits_end(code@, i as int),
            forall|k: int| start <= k < i ==> is_digit(#[trigger] code@[k]),
        decreases code.len() - i,
    {
        i += 1;
    }
    i
}

/// What the digits from `from` up to `to` write, unless that is more than
/// `cap`.
fn decimal_up_to(code: &Vec<char>, from: usize, to: usize, cap: u64) -> (value: Option<u64>)
    requires
        from <= to <= code.len(),
        forall|k: int| from <= k < to ==> is_digit(#[trigger] code@[k]),
        cap <= 1_000_000_000_000_000_000,
    ensures
        match value {
            Some(v) => v == decimal(code@.subrange(from as int, to as int)) && v <= cap,
            None => decimal(code@.subrange(from as int, to as int)) > cap,
        },
{
    let mut acc: u64 = 0;
    let mut over = false;
    let mut i: usize = from;
    while i < to
        invariant
            from <= i <= to <= code.len(),
            forall|k: int| from <= k < to ==> is_digit(#[trigger] code@[k]),
            cap <= 1_000_000_000_000_000_000,
            !over ==> acc == decimal(code@.subrange(from as int, i as int)) && acc <= cap,
            over ==> decimal(code@.subrange(from as int, i as int)) > cap,
        decreases to - i,
    {
        proof {
            let next = code@.subrange(from as int, i + 1);
            assert(next.drop_last() =~= code@.subrange(from as int, i as int));
            assert(next.last() == code@[i as int]);
        }
        if !over {
            let d = value_of_digit(code[i]);
            let next: u64 = acc * 10 + d as u64;
            if next > cap {
                over = true;
            } else {
                acc = next;
            }
        }
        i += 1;
    }
    if over {
        None
    } else {
        Some(acc)
    }
}

/// Computes [`fraction_digit`] for the digits from `from` up to `to`.
fn digit_behind_point(code: &Vec<char>, from: usize, to: usize, k: usize) -> (d: u64)
    requires
        from <= to <= code.len(),
        forall|n: int| from <= n < to ==> is_digit(#[trigger] code@[n]),
        k < 6,
    ensures
        d == fraction_digit(code@.subrange(from as int, to as int), k as int),
        d <= 9,
{
    if k < to - from {
        value_of_digit(code[from + k]) as u64
    } else {
        0
    }
}

/// Computes [`word_value`] for the digits from `a` up to `b` in front of the
/// point and those from `f` up to `c` behind it.
fn value_of_word(
    code: &Vec<char>,
    negative: bool,
    a: usize,
    b: usize,
    f: usize,
    c: usize,
) -> (value: i64)
    requires
        a <= b <= code.len(),
        f <= c <= code.len(),
        forall|n: int| a <= n < b ==> is_digit(#[trigger] code@[n]),
        forall|n: int| f <= n < c ==> is_digit(#[trigger] code@[n]),
    ensures
        value == word_value(
            negative,
            code@.subrange(a as int, b as int),
            code@.subrange(f as int, c as int),
        ),
        in_reach(value),
{
    let fraction: u64 = digit_behind_point(code, f, c, 0) * 100_000 + digit_behind_point(
        code,
        f,
        c,
        1,
    ) * 10_000 + digit_behind_point(code, f, c, 2) * 1_000 + digit_behind_point(code, f, c, 3)
        * 100 + digit_behind_point(code, f, c, 4) * 10 + digit_behind_point(code, f, c, 5);
    let magnitude: u64 = match decimal_up_to(code, a, b, 1_000_000_000) {
        None => 1_000_000_000_000_000,
        Some(whole) => {
            let written: u64 = whole * 1_000_000 + fraction;
            if written > 1_000_000_000_000_000 {
                1_000_000_000_000_000
            } else {
                written
            }
        },
    };
    if negative {
        -(magnitude as i64)
    } else {
        magnitude as i64
    }
}

/// Computes [`word_at`].
fn word_starting_at(code: &Vec<char>, i: usize) -> (word: Option<(i64, usize)>)
    requires
        i < code.len(),
    ensures
        match word {
            Some((value, end)) => word_at(code@, i as int) == Some((value, end as int)) && i < end
                <= code.len() && in_reach(value),
            None => word_at(code@, i as int) is None,
        },
{
    if !letter(code[i]) {
        return None;
    }
    let negative = i + 1 < code.len() && code[i + 1] == '-';
    let a: usize = if negative {
        i + 2
    } else {
        i + 1
    };
    let b = end_of_digits(code, a);
    if b < code.len() && b + 1 < code.len() && code[b] == '.' && digit(code[b + 1]) {
        let c = end_of_digits(code, b + 1);
        Some((value_of_word(code, negative, a, b, b + 1, c), c))
    } else if b > a {
        proof {
            assert(code@.subrange(b as int, b as int) =~= Seq::<char>::empty());
        }
        Some((value_of_word(code, negative, a, b, b, b), b))
    } else {
        None
    }
}

/// Computes [`scan_words`].
fn words_from(code: &Vec<char>, start: usize) -> (words: Vec<(char, i64)>)
    requires
        start <= code.len(),
    ensures
        words@ == scan_words(code@, start as int),
        words_in_reach(words@),
{
    let mut words: Vec<(char, i64)> = Vec::new();
    let mut pos: usize = start;
    while pos < code.len()
        invariant
            start <= pos <= code.len(),
            words@ + scan_words(code@, pos as int) == scan_words(code@, start as int),
            words_in_reach(words@),
        decreases code.len() - pos,
    {
        match word_starting_at(code, pos) {
            Some((value, end)) => {
                proof {
                    let rest = scan_words(code@, end as int);
                    assert(words@.push((code@[pos as int], value)) + rest =~= words@ + (seq![
                        (code@[pos as int], value),
                    ] + rest));
                }
                words.push((code[pos], value));
                pos = end;
            },
            None => {
                pos += 1;
            },
        }
    }
    proof {
        assert(words@ + Seq::<(char, i64)>::empty() =~= words@);
    }
    words
}

/// Copies the characters from `from` up to `to`.
fn copy_of(chars: &Vec<char>, from: usize, to: usize) -> (part: Vec<char>)
    requires
        from <= to <= chars.len(),
    ensures
        part@ == chars@.subrange(from as int, to as int),
{
    let mut part: Vec<char> = Vec::new();
    let mut i: usize = from;
    while i < to
        invariant
            from <= i <= to <= chars.len(),
            part@ == chars@.subrange(from as int, i as int),
        decreases to - i,
    {
        part.push(chars[i]);
        i += 1;
        assert(part@ =~= chars@.subrange(from as int, i as int));
    }
    part
}

/// Parses trimmed code. The comment is handed through.
fn parse_trimmed_code(code: &Vec<char>, comment: Option<String>) -> (command: Option<GCodeCommand>)
    ensures
        match command {
            Some(c) => parse_code(
                code@,
                match comment {
                    Some(text) => Some(text@),
                    None => None,
                },
            ) == Some(c@) && words_in_reach(c.parameters@) && 0 <= c.command_number,
            None => parse_code(
                code@,
                match comment {
                    Some(text) => Some(text@),
                    None => None,
                },
            ) is None,
        },
{
    if code.len() < 2 || !letter(code[0]) || !digit(code[1]) {
        return None;
    }
    let end = end_of_digits(code, 1);
    let number: i32 = match decimal_up_to(code, 1, end, 0x7fff_ffff) {
        Some(v) => v as i32,
        None => 0,
    };
    let parameters = words_from(code, end);
    Some(
        GCodeCommand {
            command_type: to_upper(code[0]),
            command_number: number,
            parameters,
            comment,
        },
    )
}

/// Parses the characters of one line.
pub fn parse_chars(chars: &Vec<char>) -> (command: Option<GCodeCommand>)
    ensures
        match command {
            Some(c) => parse_line(chars@) == Some(c@) && words_in_reach(c.parameters@) && 0
                <= c.command_number,
            None => parse_line(chars@) is None,
        },
{
    let len = chars.len();
    proof {
        assert(chars@.subrange(0, len as int) =~= chars@);
    }
    let (a, b) = trim_bounds(chars, 0, len);
    let ghost line = trim(chars@);
    if a == b {
        return None;
    }
    assert(line[0] == chars@[a as int]) by {
        assert(chars@.subrange(a as int, b as int)[0] == chars@[a as int]);
    }
    if chars[a] == ';' {
        return None;
    }
    let mut semicolon: usize = a;
    while semicolon < b && chars[semicolon] != ';'
        invariant
            a <= semicolon <= b <= chars.len(),
            line == chars@.subrange(a as int, b as int),
            semicolon_from(line, 0) == semicolon_from(line, semicolon - a),
        decreases b - semicolon,
    {
        proof {
            assert(line[semicolon - a] == chars@[semicolon as int]);
        }
        semicolon += 1;
    }
    proof {
        if semicolon < b {
            assert(line[semicolon - a] == chars@[semicolon as int]);
        }
        assert(semicolon_from(line, 0) == semicolon - a);
        assert(line.take(semicolon - a) =~= chars@.subrange(a as int, semicolon as int));
    }
    let (c0, c1) = trim_bounds(chars, a, semicolon);
    let comment = if semicolon < b {
        proof {
            assert(line.skip(semicolon - a + 1) =~= chars@.subrange(semicolon + 1, b as int));
        }
        let (m0, m1) = trim_bounds(chars, semicolon + 1, b);
        Some(string_of(chars, m0, m1))
    } else {
        None
    };
    let code = copy_of(chars, c0, c1);
    parse_trimmed_code(&code, comment)
}

/// Parses one line of a program.
///
/// The result is none for a line that is empty or white space, for a line
/// that is a comment, and for a line that does not start with a command
/// word. No line is an error.
pub fn parse_gcode_line(line: &str) -> (command: Option<GCodeCommand>)
    ensures
        match command {
            Some(c) => parse_line(line@) == Some(c@) && words_in_reach(c.parameters@) && 0
                <= c.command_number,
            None => parse_line(line@) is None,
        },
{
    let chars = chars_of(line);
    parse_chars(&chars)
}

} // verus!
