//! Character-level helpers shared by the modules that build and take apart
//! text.

use vstd::prelude::*;
use vstd::string::*;

verus! {

/// `String::push` of the standard library appends the given character to
/// the end of the string and leaves the rest of it as it was.
pub assume_specification[ String::push ](s: &mut String, ch: char)
    ensures
        final(s)@ == old(s)@.push(ch),
;

/// The characters of `text`, in order.
pub fn chars_of(text: &str) -> (res: Vec<char>)
    ensures
        res@ == text@,
{
    let mut res: Vec<char> = Vec::new();
    for c in it: text.chars()
        invariant
            it.seq() == text@,
            res@ == text@.take(it.index() as int),
    {
        res.push(c);
        assert(text@.take(it.index() + 1) =~= text@.take(it.index()).push(c));
    }
    assert(text@.take(text@.len() as int) =~= text@);
    res
}

/// The string made of `chars`, in order.
pub fn string_of(chars: &Vec<char>) -> (res: String)
    ensures
        res@ == chars@,
{
    let mut res = String::new();
    let mut i: usize = 0;
    while i < chars.len()
        invariant
            i <= chars.len(),
            res@ == chars@.take(i as int),
        decreases chars.len() - i,
    {
        res.push(chars[i]);
        i += 1;
        assert(chars@.take(i as int) =~= chars@.take(i - 1).push(chars@[i - 1]));
    }
    assert(chars@.take(i as int) =~= chars@);
    res
}

/// Index of the first `mark` in `text`, or the length of `text` where it
/// holds none.
pub open spec fn position(text: Seq<char>, mark: char) -> int
    decreases text.len(),
{
    if text.len() == 0 || text[0] == mark {
        0
    } else {
        1 + position(text.drop_first(), mark)
    }
}

/// An index that passes over no `mark` and stops on one, or at the end, is
/// the `position` of `mark`.
pub proof fn lemma_position_is(text: Seq<char>, mark: char, at: int)
    requires
        0 <= at <= text.len(),
        forall|j: int| 0 <= j < at ==> text[j] != mark,
        at < text.len() ==> text[at] == mark,
    ensures
        position(text, mark) == at,
    decreases text.len(),
{
    if text.len() != 0 && text[0] != mark {
        let rest = text.drop_first();
        assert forall|j: int| 0 <= j < at - 1 implies rest[j] != mark by {
            assert(rest[j] == text[j + 1]);
        }
        lemma_position_is(rest, mark, at - 1);
    }
}

/// Finds the first `mark` among the characters of `chars` from `from` up to,
/// not including, `to`; the result is `to` where there is none.
pub(crate) fn find(chars: &Vec<char>, from: usize, to: usize, mark: char) -> (at: usize)
    requires
        from <= to <= chars.len(),
    ensures
        from <= at <= to,
        at - from == position(chars@.subrange(from as int, to as int), mark),
{
    let mut at: usize = from;
    while at < to && chars[at] != mark
        invariant
            from <= at <= to <= chars.len(),
            forall|j: int| from <= j < at ==> chars@[j] != mark,
        decreases to - at,
    {
        at += 1;
    }
    proof {
        lemma_position_is(chars@.subrange(from as int, to as int), mark, at - from);
    }
    at
}

/// Appends to `out` the characters of `chars` from `from` up to, not
/// including, `to`.
pub(crate) fn copy_range(out: &mut Vec<char>, chars: &Vec<char>, from: usize, to: usize)
    requires
        from <= to <= chars.len(),
    ensures
        final(out)@ == old(out)@ + chars@.subrange(from as int, to as int),
{
    let mut at: usize = from;
    while at < to
        invariant
            from <= at <= to <= chars.len(),
            out@ == old(out)@ + chars@.subrange(from as int, at as int),
        decreases to - at,
    {
        out.push(chars[at]);
        at += 1;
        assert(chars@.subrange(from as int, at as int) =~= chars@.subrange(
            from as int,
            at - 1,
        ).push(chars@[at - 1]));
    }
}

} // verus!
