//! Text operations, stated over sequences of characters.

use vstd::prelude::*;
use vstd::string::*;

verus! {

/// `String::push` appends one character to the end of the string.
pub assume_specification[ String::push ](s: &mut String, c: char)
    ensures
        final(s)@ == old(s)@.push(c),
;

/// The characters of a text, one by one.
pub(crate) fn chars_of(s: &str) -> (chars: Vec<char>)
    ensures
        chars@ == s@,
{
    let mut chars: Vec<char> = Vec::new();
    for c in it: s.chars()
        invariant
            it.seq() == s@,
            chars@ == s@.take(it.index()),
    {
        chars.push(c);
        assert(s@.take(it.index() + 1) == s@.take(it.index()).push(c));
    }
    assert(s@.take(s@.len() as int) == s@);
    chars
}

/// The text made of the characters from `from` up to, not including, `to`.
pub(crate) fn text_of(chars: &Vec<char>, from: usize, to: usize) -> (s: String)
    requires
        from <= to <= chars.len(),
    ensures
        s@ == chars@.subrange(from as int, to as int),
{
    let mut s = String::new();
    let mut i: usize = from;
    while i < to
        invariant
            from <= i <= to <= chars.len(),
            s@ == chars@.subrange(from as int, i as int),
        decreases to - i,
    {
        s.push(chars[i]);
        assert(chars@.subrange(from as int, i + 1) == chars@.subrange(from as int, i as int).push(
            chars@[i as int],
        ));
        i += 1;
    }
    s
}

/// Whether `part` stands in `whole` at position `at`.
pub open spec fn stands_at(whole: Seq<char>, part: Seq<char>, at: int) -> bool {
    &&& 0 <= at <= whole.len() - part.len()
    &&& whole.subrange(at, at + part.len()) == part
}

/// Whether `part` stands anywhere in `whole`.
pub open spec fn contains_text(whole: Seq<char>, part: Seq<char>) -> bool {
    exists|at: int| stands_at(whole, part, at)
}

fn stands_here(whole: &Vec<char>, part: &Vec<char>, at: usize) -> (found: bool)
    ensures
        found == stands_at(whole@, part@, at as int),
{
    if at > whole.len() || part.len() > whole.len() - at {
        return false;
    }
    let mut i: usize = 0;
    while i < part.len()
        invariant
            i <= part.len(),
            at <= whole.len(),
            part.len() <= whole.len() - at,
            forall|j: int| 0 <= j < i ==> whole@[at + j] == part@[j],
        decreases part.len() - i,
    {
        if whole[at + i] != part[i] {
            assert(whole@.subrange(at as int, at + part@.len())[i as int] != part@[i as int]);
            return false;
        }
        i += 1;
    }
    assert(whole@.subrange(at as int, at + part@.len()) == part@);
    true
}

/// Whether `part` occurs in `whole`.
pub(crate) fn has_text(whole: &str, part: &str) -> (found: bool)
    ensures
        found == contains_text(whole@, part@),
{
    let whole_chars = chars_of(whole);
    let part_chars = chars_of(part);
    let mut at: usize = 0;
    while at < whole_chars.len()
        invariant
            at <= whole_chars.len(),
            whole_chars@ == whole@,
            part_chars@ == part@,
            forall|j: int| 0 <= j < at ==> !stands_at(whole@, part@, j),
        decreases whole_chars.len() - at,
    {
        if stands_here(&whole_chars, &part_chars, at) {
            return true;
        }
        at += 1;
    }
    stands_here(&whole_chars, &part_chars, at)
}

/// What follows `prefix` at the start of a text; nothing when the text starts otherwise.
pub open spec fn after_prefix(whole: Seq<char>, prefix: Seq<char>) -> Option<Seq<char>> {
    if stands_at(whole, prefix, 0) {
        Some(whole.skip(prefix.len() as int))
    } else {
        None
    }
}

/// The rest of `whole` behind `prefix`, if `whole` starts with it.
pub(crate) fn strip_prefix(whole: &str, prefix: &str) -> (rest: Option<String>)
    ensures
        rest.deep_view() == after_prefix(whole@, prefix@),
{
    let whole_chars = chars_of(whole);
    let prefix_chars = chars_of(prefix);
    if stands_here(&whole_chars, &prefix_chars, 0) {
        let rest = text_of(&whole_chars, prefix_chars.len(), whole_chars.len());
        assert(rest@ == whole@.skip(prefix@.len() as int));
        Some(rest)
    } else {
        None
    }
}

/// Whether two texts are the same.
pub(crate) fn same_text(a: &str, b: &str) -> (same: bool)
    ensures
        same == (a@ == b@),
{
    a.to_string() == b.to_string()
}

/// The decimal digit of a value below ten.
pub open spec fn digit(value: nat) -> char {
    (48 + value) as char
}

/// A natural number in decimal, without leading zeros.
pub open spec fn decimal(n: nat) -> Seq<char>
    decreases n,
{
    if n < 10 {
        seq![digit(n)]
    } else {
        decimal(n / 10).push(digit(n % 10))
    }
}

/// The decimal text of a number.
pub(crate) fn decimal_text(n: u64) -> (text: String)
    ensures
        text@ == decimal(n as nat),
    decreases n,
{
    let last: u8 = (n % 10) as u8;
    let last_digit: char = (48 + last) as char;
    let mut text = if n < 10 {
        String::new()
    } else {
        decimal_text(n / 10)
    };
    text.push(last_digit);
    text
}

/// A line without the carriage return that ended it together with the line feed.
pub open spec fn without_return(line: Seq<char>) -> Seq<char> {
    if line.len() > 0 && line.last() == '\r' {
        line.drop_last()
    } else {
        line
    }
}

/// The position of the first line feed at or behind `from`; the length of the text if there is
/// none.
pub open spec fn line_end(text: Seq<char>, from: nat) -> nat
    decreases text.len() - from,
{
    if from >= text.len() {
        text.len()
    } else if text[from as int] == '\n' {
        from
    } else {
        line_end(text, from + 1)
    }
}

/// The lines of a text. A line feed ends a line, alone or behind a carriage return. What follows
/// the last line feed is a line if it is not empty, and is taken as it stands.
pub open spec fn lines(text: Seq<char>) -> Seq<Seq<char>>
    decreases text.len(),
{
    let end = line_end(text, 0);
    if text.len() == 0 {
        seq![]
    } else if end < text.len() {
        seq![without_return(text.take(end as int))] + lines(text.skip(end + 1int))
    } else {
        seq![text]
    }
}

proof fn lemma_line_end(text: Seq<char>, from: nat, end: nat)
    requires
        from <= end <= text.len(),
        forall|i: int| from <= i < end ==> text[i] != '\n',
        end < text.len() ==> text[end as int] == '\n',
    ensures
        line_end(text, from) == end,
    decreases end - from,
{
    if from < end {
        lemma_line_end(text, from + 1, end);
    }
}

/// The lines of a text, in order.
pub(crate) fn split_lines(text: &str) -> (found: Vec<String>)
    ensures
        found.deep_view() == lines(text@),
{
    let chars = chars_of(text);
    let mut found: Vec<String> = Vec::new();
    let mut start: usize = 0;
    let mut i: usize = 0;
    assert(chars@.skip(0) == chars@);
    while i < chars.len()
        invariant
            start <= i <= chars.len(),
            forall|j: int| start <= j < i ==> chars@[j] != '\n',
            found.deep_view() + lines(chars@.skip(start as int)) == lines(chars@),
        decreases chars.len() - i,
    {
        if chars[i] == '\n' {
            let ghost rest = chars@.skip(start as int);
            let ghost before = found.deep_view();
            let end: usize = if start < i && chars[i - 1] == '\r' {
                i - 1
            } else {
                i
            };
            found.push(text_of(&chars, start, end));
            proof {
                lemma_line_end(rest, 0, (i - start) as nat);
                assert(rest.take(i - start) == chars@.subrange(start as int, i as int));
                assert(without_return(rest.take(i - start)) == chars@.subrange(
                    start as int,
                    end as int,
                ));
                assert(rest.skip(i - start + 1) == chars@.skip(i + 1));
                assert(found.deep_view() == before.push(
                    chars@.subrange(start as int, end as int),
                ));
                assert(found.deep_view() + lines(chars@.skip(i + 1)) == before + lines(rest));
            }
            start = i + 1;
        }
        i += 1;
    }
    let ghost rest = chars@.skip(start as int);
    let ghost before = found.deep_view();
    proof {
        lemma_line_end(rest, 0, rest.len());
    }
    if start < chars.len() {
        found.push(text_of(&chars, start, chars.len()));
        proof {
            assert(rest == chars@.subrange(start as int, chars@.len() as int));
            assert(found.deep_view() == before.push(rest));
        }
    }
    found
}

} // verus!
