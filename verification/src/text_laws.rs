//! What holds of the operations on text, whatever the text.

use crate::text::{after_prefix, contains_text, decimal, lines, stands_at};
use vstd::prelude::*;

verus! {

/// What a prefix and a text behind it give, without the prefix, is that text; a text that does not
/// start with the prefix gives nothing.
pub proof fn law_prefix_is_taken_off(whole: Seq<char>, prefix: Seq<char>, rest: Seq<char>)
    ensures
        after_prefix(prefix + rest, prefix) == Some(rest),
        after_prefix(whole, prefix) matches Some(found) ==> whole == prefix + found,
        after_prefix(whole, prefix) is None ==> whole != prefix + rest,
{
    let both = prefix + rest;
    assert(both.subrange(0, 0 + prefix.len() as int) == prefix);
    assert(both.skip(prefix.len() as int) == rest);
    if let Some(found) = after_prefix(whole, prefix) {
        assert(whole == whole.subrange(0, prefix.len() as int) + whole.skip(prefix.len() as int));
    }
}

/// Three texts, one behind the other.
pub open spec fn whole_of(before: Seq<char>, part: Seq<char>, after: Seq<char>) -> Seq<char> {
    before + part + after
}

/// A text occurs in another exactly where that is the text with something, or nothing, on both
/// sides.
pub proof fn law_text_is_found(whole: Seq<char>, part: Seq<char>)
    ensures
        contains_text(whole, part) <==> exists|before: Seq<char>, after: Seq<char>|
            #[trigger] whole_of(before, part, after) == whole,
{
    if contains_text(whole, part) {
        let at = choose|at: int| stands_at(whole, part, at);
        let before = whole.take(at);
        let after = whole.skip(at + part.len());
        assert(whole_of(before, part, after) == whole);
    }
    if exists|before: Seq<char>, after: Seq<char>| #[trigger] whole_of(before, part, after) == whole {
        let (before, after) = choose|before: Seq<char>, after: Seq<char>|
            #[trigger] whole_of(before, part, after) == whole;
        let at = before.len() as int;
        assert(whole.subrange(at, at + part.len()) == part);
        assert(stands_at(whole, part, at));
    }
}

/// The number that decimal digits stand for.
pub open spec fn number_of(digits: Seq<char>) -> nat {
    digits.fold_left(0nat, |n: nat, c: char| (10 * n + (c as int - '0' as int)) as nat)
}

/// The decimal text of a number is made of digits, starts with a zero only where it is the zero,
/// and stands for the number.
pub proof fn law_decimal_reads_back(n: nat)
    ensures
        decimal(n).len() > 0,
        forall|i: int| 0 <= i < decimal(n).len() ==> '0' <= #[trigger] decimal(n)[i] <= '9',
        decimal(n)[0] == '0' ==> n == 0,
        number_of(decimal(n)) == n,
    decreases n,
{
    let step = |n: nat, c: char| (10 * n + (c as int - '0' as int)) as nat;
    if n < 10 {
        assert(decimal(n).drop_last() == Seq::<char>::empty());
        assert(decimal(n).drop_last().fold_left(0nat, step) == 0nat);
    } else {
        law_decimal_reads_back(n / 10);
        assert(decimal(n).drop_last() == decimal(n / 10));
    }
}

proof fn lemma_first_line(line: Seq<char>, whole: Seq<char>, from: nat)
    requires
        from <= line.len(),
        whole.len() > line.len() ==> whole[line.len() as int] == '\n',
        line.len() <= whole.len(),
        whole.take(line.len() as int) == line,
        !line.contains('\n'),
    ensures
        crate::text::line_end(whole, from) == line.len(),
    decreases line.len() - from,
{
    if from < line.len() {
        assert(whole[from as int] == line[from as int]) by {
            assert(whole.take(line.len() as int)[from as int] == line[from as int]);
        }
        assert(line.contains(line[from as int]));
        lemma_first_line(line, whole, from + 1);
    }
}

/// A line feed ends a line, alone or behind a carriage return; the lines behind it are those of
/// what follows. A text without a line feed is one line, unless it is empty.
pub proof fn law_lines(line: Seq<char>, rest: Seq<char>)
    requires
        !line.contains('\n'),
    ensures
        lines(Seq::empty()) == Seq::<Seq<char>>::empty(),
        line.len() > 0 ==> lines(line) == seq![line],
        lines(line + seq!['\r', '\n'] + rest) == seq![line] + lines(rest),
        line.len() == 0 || line.last() != '\r' ==> lines(line + seq!['\n'] + rest) == seq![line]
            + lines(rest),
{
    assert(line.take(line.len() as int) == line);
    lemma_first_line(line, line, 0);
    let plain = line + seq!['\n'] + rest;
    assert(plain.take(line.len() as int) == line);
    assert(plain.skip(line.len() + 1int) == rest);
    lemma_first_line(line, plain, 0);
    let long = line + seq!['\r'];
    let returned = line + seq!['\r', '\n'] + rest;
    assert(returned.take(long.len() as int) == long);
    assert(returned.skip(long.len() + 1int) == rest);
    assert(!long.contains('\n')) by {
        if long.contains('\n') {
            let i = long.index_of('\n');
            assert(long[i] == '\n');
            assert(line[i] == '\n');
        }
    }
    lemma_first_line(long, returned, 0);
    assert(long.drop_last() == line);
}

} // verus!
