//! The text form in which policies and chain manifests are kept on disk.
//!
//! A document is a list of lines. Each line ends with a newline. Inside a
//! line a backslash is written as two backslashes and a newline as a
//! backslash and `n`, so that any text can stand on a line. Decoding gives
//! back exactly the lines that were encoded.

use vstd::prelude::*;
use vstd::string::*;

use crate::text::chars_of;
use crate::text::push_char;
use crate::text::spec_strings;

verus! {

/// A line as it is written: backslashes and newlines escaped.
pub open spec fn spec_escape(line: Seq<char>) -> Seq<char>
    decreases line.len(),
{
    if line.len() == 0 {
        Seq::empty()
    } else if line[0] == '\\' {
        seq!['\\', '\\'] + spec_escape(line.skip(1))
    } else if line[0] == '\n' {
        seq!['\\', 'n'] + spec_escape(line.skip(1))
    } else {
        seq![line[0]] + spec_escape(line.skip(1))
    }
}

/// The text of a list of lines: each line escaped and ended by a newline.
pub open spec fn spec_encode_lines(lines: Seq<Seq<char>>) -> Seq<char>
    decreases lines.len(),
{
    if lines.len() == 0 {
        Seq::empty()
    } else {
        spec_escape(lines[0]) + seq!['\n'] + spec_encode_lines(lines.skip(1))
    }
}

/// What is read from the rest of a text, given the lines that are
/// complete and the part of the current line that was read. A text that
/// ends inside a line, or holds a backslash before anything but a
/// backslash or `n`, is no document.
pub open spec fn spec_decode_from(
    text: Seq<char>,
    done: Seq<Seq<char>>,
    current: Seq<char>,
) -> Option<Seq<Seq<char>>>
    decreases text.len(),
{
    if text.len() == 0 {
        if current.len() == 0 {
            Some(done)
        } else {
            None
        }
    } else if text[0] == '\n' {
        spec_decode_from(text.skip(1), done.push(current), Seq::empty())
    } else if text[0] == '\\' {
        if text.len() >= 2 && text[1] == '\\' {
            spec_decode_from(text.skip(2), done, current.push('\\'))
        } else if text.len() >= 2 && text[1] == 'n' {
            spec_decode_from(text.skip(2), done, current.push('\n'))
        } else {
            None
        }
    } else {
        spec_decode_from(text.skip(1), done, current.push(text[0]))
    }
}

/// The lines of a text, if it is a document.
pub open spec fn spec_decode_lines(text: Seq<char>) -> Option<Seq<Seq<char>>> {
    spec_decode_from(text, Seq::empty(), Seq::empty())
}

/// Reading an escaped line and its newline completes that line.
pub proof fn lemma_decode_escaped(
    line: Seq<char>,
    rest: Seq<char>,
    done: Seq<Seq<char>>,
    current: Seq<char>,
)
    ensures
        spec_decode_from(spec_escape(line) + seq!['\n'] + rest, done, current) == spec_decode_from(
            rest,
            done.push(current + line),
            Seq::empty(),
        ),
    decreases line.len(),
{
    let text = spec_escape(line) + seq!['\n'] + rest;
    if line.len() == 0 {
        assert(text.skip(1) =~= rest);
        assert(current + line =~= current);
    } else {
        let tail = spec_escape(line.skip(1)) + seq!['\n'] + rest;
        if line[0] == '\\' {
            assert(text.skip(2) =~= tail);
            lemma_decode_escaped(line.skip(1), rest, done, current.push('\\'));
            assert(current.push('\\') + line.skip(1) =~= current + line);
        } else if line[0] == '\n' {
            assert(text.skip(2) =~= tail);
            lemma_decode_escaped(line.skip(1), rest, done, current.push('\n'));
            assert(current.push('\n') + line.skip(1) =~= current + line);
        } else {
            assert(text.skip(1) =~= tail);
            lemma_decode_escaped(line.skip(1), rest, done, current.push(line[0]));
            assert(current.push(line[0]) + line.skip(1) =~= current + line);
        }
    }
}

/// Reading encoded lines adds them to the lines that are complete.
pub proof fn lemma_decode_encoded(lines: Seq<Seq<char>>, done: Seq<Seq<char>>)
    ensures
        spec_decode_from(spec_encode_lines(lines), done, Seq::empty()) == Some(done + lines),
    decreases lines.len(),
{
    if lines.len() == 0 {
        assert(done + lines =~= done);
    } else {
        lemma_decode_escaped(lines[0], spec_encode_lines(lines.skip(1)), done, Seq::empty());
        assert(Seq::<char>::empty() + lines[0] =~= lines[0]);
        lemma_decode_encoded(lines.skip(1), done.push(lines[0]));
        assert(done.push(lines[0]) + lines.skip(1) =~= done + lines);
    }
}

/// Decoding gives back the lines that were encoded, whatever they hold.
pub proof fn lemma_lines_round_trip(lines: Seq<Seq<char>>)
    ensures
        spec_decode_lines(spec_encode_lines(lines)) == Some(lines),
{
    lemma_decode_encoded(lines, Seq::empty());
    assert(Seq::<Seq<char>>::empty() + lines =~= lines);
}

/// Appends a line to a text, escaped and ended by a newline.
pub fn push_line(text: &mut String, line: &str)
    ensures
        final(text)@ == old(text)@ + spec_escape(line@) + seq!['\n'],
{
    let chars = chars_of(line);
    let mut i: usize = 0;
    assert(chars@.skip(0) == chars@);
    assert(text@ + spec_escape(chars@) =~= old(text)@ + spec_escape(line@));
    while i < chars.len()
        invariant
            i <= chars.len(),
            chars@ == line@,
            text@ + spec_escape(chars@.skip(i as int)) == old(text)@ + spec_escape(line@),
        decreases chars.len() - i,
    {
        let c = chars[i];
        let ghost before = text@;
        let ghost rest = chars@.skip(i as int);
        assert(rest.skip(1) == chars@.skip(i + 1));
        if c == '\\' {
            push_char(text, '\\');
            push_char(text, '\\');
            assert(text@ + spec_escape(rest.skip(1)) =~= before + spec_escape(rest));
        } else if c == '\n' {
            push_char(text, '\\');
            push_char(text, 'n');
            assert(text@ + spec_escape(rest.skip(1)) =~= before + spec_escape(rest));
        } else {
            push_char(text, c);
            assert(text@ + spec_escape(rest.skip(1)) =~= before + spec_escape(rest));
        }
        i += 1;
    }
    assert(text@ =~= old(text)@ + spec_escape(line@));
    push_char(text, '\n');
}

/// The text of a list of lines.
pub fn encode_lines(lines: &Vec<String>) -> (r: String)
    ensures
        r@ == spec_encode_lines(spec_strings(lines@)),
{
    let ghost all = spec_strings(lines@);
    let mut r = String::new();
    let mut i: usize = 0;
    assert(all.skip(0) == all);
    assert(r@ + spec_encode_lines(all) =~= spec_encode_lines(all));
    while i < lines.len()
        invariant
            i <= lines.len(),
            all == spec_strings(lines@),
            r@ + spec_encode_lines(all.skip(i as int)) == spec_encode_lines(all),
        decreases lines.len() - i,
    {
        let ghost before = r@;
        let ghost rest = all.skip(i as int);
        assert(rest.skip(1) == all.skip(i + 1));
        assert(rest[0] == lines@[i as int]@);
        push_line(&mut r, lines[i].as_str());
        assert(r@ + spec_encode_lines(rest.skip(1)) =~= before + spec_encode_lines(rest));
        i += 1;
    }
    assert(r@ + Seq::<char>::empty() =~= r@);
    r
}

/// The lines of a text, if it is a document.
pub fn decode_lines(text: &str) -> (r: Option<Vec<String>>)
    ensures
        match r {
            Some(lines) => spec_decode_lines(text@) == Some(spec_strings(lines@)),
            None => spec_decode_lines(text@) is None,
        },
{
    let chars = chars_of(text);
    let mut done: Vec<String> = Vec::new();
    let mut current = String::new();
    let mut i: usize = 0;
    assert(chars@.skip(0) == chars@);
    assert(spec_strings(done@) =~= Seq::empty());
    while i < chars.len()
        invariant
            i <= chars.len(),
            chars@ == text@,
            spec_decode_lines(text@) == spec_decode_from(
                chars@.skip(i as int),
                spec_strings(done@),
                current@,
            ),
        decreases chars.len() - i,
    {
        let c = chars[i];
        let ghost rest = chars@.skip(i as int);
        let ghost lines = spec_strings(done@);
        assert(rest[0] == c);
        if c == '\n' {
            assert(rest.skip(1) == chars@.skip(i + 1));
            done.push(current);
            assert(spec_strings(done@) =~= lines.push(current@));
            current = String::new();
            i += 1;
        } else if c == '\\' {
            if i + 1 < chars.len() && chars[i + 1] == '\\' {
                assert(rest[1] == chars@[i + 1]);
                assert(rest.skip(2) == chars@.skip(i + 2));
                push_char(&mut current, '\\');
                i += 2;
            } else if i + 1 < chars.len() && chars[i + 1] == 'n' {
                assert(rest[1] == chars@[i + 1]);
                assert(rest.skip(2) == chars@.skip(i + 2));
                push_char(&mut current, '\n');
                i += 2;
            } else {
                assert(rest.len() >= 2 ==> rest[1] == chars@[i + 1]);
                return None;
            }
        } else {
            assert(rest.skip(1) == chars@.skip(i + 1));
            push_char(&mut current, c);
            i += 1;
        }
    }
    assert(chars@.skip(i as int).len() == 0);
    if chars_of(current.as_str()).len() == 0 {
        Some(done)
    } else {
        None
    }
}

} // verus!
