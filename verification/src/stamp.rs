//! The provenance stamp: which revision the vendored headers came from, and
//! the generated source text that records it.
//!
//! The revision is read off the index listing of the fetched tree, which
//! holds one line per tracked file, made of the file's mode, the hash of its
//! content, a stage number and its path. The fingerprint keeps the second
//! space-separated field of every line, so it follows the content and not
//! the name of the release.

use vstd::prelude::*;
use vstd::string::*;
use crate::text::{chars_of, copy_range, find, position, string_of};

verus! {

/// Text of the stamp up to and including the opening quote of the value.
pub const STAMP_OPENING: &'static str = "pub static WPILIB_COMMIT_HASH: &str = \"";

/// Text of the stamp from the closing quote of the value on.
pub const STAMP_CLOSING: &'static str = "\";\n";

/// The second space-separated field of `line`; a line without a space is
/// its own only field and is kept whole.
pub open spec fn second_field(line: Seq<char>) -> Seq<char> {
    let first = position(line, ' ');
    if 0 <= first < line.len() {
        let rest = line.skip(first + 1);
        rest.take(position(rest, ' '))
    } else {
        line
    }
}

/// The second field of every line of `text`, each followed by a line break.
/// A line ends at a line break or at the end of the text.
pub open spec fn second_fields(text: Seq<char>) -> Seq<char>
    decreases text.len(),
{
    if text.len() == 0 {
        Seq::empty()
    } else {
        let end = position(text, '\n');
        let rest = if 0 <= end < text.len() {
            text.skip(end + 1)
        } else {
            Seq::empty()
        };
        second_field(text.take(end)) + seq!['\n'] + second_fields(rest)
    }
}

/// `text` without the line breaks at its end.
pub open spec fn without_trailing_breaks(text: Seq<char>) -> Seq<char>
    decreases text.len(),
{
    if text.len() > 0 && text.last() == '\n' {
        without_trailing_breaks(text.drop_last())
    } else {
        text
    }
}

/// The fingerprint that an index listing gives: the hash column of the
/// listing, one hash per line, with no line break after the last one.
pub open spec fn fingerprint_of(listing: Seq<char>) -> Seq<char> {
    without_trailing_breaks(second_fields(listing))
}

/// How one character is written inside a double-quoted literal: a quote
/// gets a backslash in front, any other character stands for itself.
pub open spec fn escaped_char(ch: char) -> Seq<char> {
    if ch == '"' {
        seq!['\\', '"']
    } else {
        seq![ch]
    }
}

/// `text` with every character written as `escaped_char` gives it.
pub open spec fn escaped(text: Seq<char>) -> Seq<char>
    decreases text.len(),
{
    if text.len() == 0 {
        Seq::empty()
    } else {
        escaped(text.drop_last()) + escaped_char(text.last())
    }
}

/// The whole content of the stamp file for `fingerprint`: one declaration
/// that binds the fingerprint, as a double-quoted literal, and a line
/// break.
pub open spec fn stamp_of(fingerprint: Seq<char>) -> Seq<char> {
    STAMP_OPENING@ + escaped(fingerprint) + STAMP_CLOSING@
}

/// An escaped text is at least as long as the text, and ends with the
/// character that the text ends with.
proof fn lemma_escaped_end(text: Seq<char>)
    ensures
        escaped(text).len() >= text.len(),
        text.len() > 0 ==> escaped(text).last() == text.last(),
    decreases text.len(),
{
    if text.len() > 0 {
        lemma_escaped_end(text.drop_last());
    }
}

/// Escaping loses nothing: two texts that are written alike are the same
/// text.
pub proof fn lemma_escaped_is_injective(left: Seq<char>, right: Seq<char>)
    requires
        escaped(left) == escaped(right),
    ensures
        left == right,
    decreases left.len(),
{
    lemma_escaped_end(left);
    lemma_escaped_end(right);
    if left.len() > 0 {
        let tail = escaped_char(left.last());
        let written = escaped(left);
        let before = written.len() - tail.len();
        assert(escaped(left.drop_last()) =~= written.take(before));
        assert(escaped(right.drop_last()) =~= written.take(before));
        lemma_escaped_is_injective(left.drop_last(), right.drop_last());
        assert(left =~= left.drop_last().push(left.last()));
        assert(right =~= right.drop_last().push(right.last()));
    } else {
        assert(left =~= right);
    }
}

/// The stamp names one fingerprint: two fingerprints with the same stamp
/// are the same fingerprint, so the revision can be read back from the
/// stamp file.
pub proof fn law_stamp_names_one_fingerprint(left: Seq<char>, right: Seq<char>)
    requires
        stamp_of(left) == stamp_of(right),
    ensures
        left == right,
{
    let opening = STAMP_OPENING@;
    let closing = STAMP_CLOSING@;
    let whole = stamp_of(left);
    let from = opening.len() as int;
    let to = whole.len() - closing.len();
    assert(escaped(left) =~= whole.subrange(from, to));
    assert(escaped(right) =~= whole.subrange(from, to));
    lemma_escaped_is_injective(left, right);
}

/// Writes `text` so that it can stand between double quotes.
pub fn escape(text: &str) -> (res: String)
    ensures
        res@ == escaped(text@),
{
    let mut res = String::new();
    for ch in it: text.chars()
        invariant
            it.seq() == text@,
            res@ == escaped(text@.take(it.index() as int)),
    {
        proof {
            let seen = text@.take(it.index() + 1);
            assert(seen.drop_last() =~= text@.take(it.index() as int));
            assert(seen.last() == ch);
        }
        if ch == '"' {
            res.push('\\');
        }
        res.push(ch);
    }
    assert(text@.take(text@.len() as int) =~= text@);
    res
}

/// Builds the content of the stamp file for `fingerprint`.
pub fn stamp(fingerprint: &str) -> (res: String)
    ensures
        res@ == stamp_of(fingerprint@),
{
    let mut res = String::from_str(STAMP_OPENING);
    let value = escape(fingerprint);
    res.append(value.as_str());
    res.append(STAMP_CLOSING);
    res
}

/// Appends to `out` the second field of the line that `chars` holds from
/// `from` up to, not including, `to`.
fn copy_second_field(out: &mut Vec<char>, chars: &Vec<char>, from: usize, to: usize)
    requires
        from <= to <= chars.len(),
    ensures
        final(out)@ == old(out)@ + second_field(chars@.subrange(from as int, to as int)),
{
    let ghost line = chars@.subrange(from as int, to as int);
    let first = find(chars, from, to, ' ');
    if first < to {
        let second = find(chars, first + 1, to, ' ');
        assert(line.skip(first - from + 1) =~= chars@.subrange(first + 1, to as int));
        assert(chars@.subrange(first + 1, to as int).take(second - (first + 1))
            =~= chars@.subrange(first + 1, second as int));
        copy_range(out, chars, first + 1, second);
    } else {
        copy_range(out, chars, from, to);
    }
}

/// Reads the fingerprint off an index listing.
pub fn fingerprint(listing: &str) -> (res: String)
    ensures
        res@ == fingerprint_of(listing@),
{
    let chars = chars_of(listing);
    let mut out: Vec<char> = Vec::new();
    let mut at: usize = 0;
    assert(chars@.skip(0) =~= chars@);
    assert(out@ + second_fields(chars@) =~= second_fields(chars@));
    while at < chars.len()
        invariant
            at <= chars.len(),
            second_fields(chars@) == out@ + second_fields(chars@.skip(at as int)),
        decreases chars.len() - at,
    {
        let ghost text = chars@.skip(at as int);
        let end = find(&chars, at, chars.len(), '\n');
        assert(chars@.subrange(at as int, chars.len() as int) =~= text);
        assert(text.take(end - at) =~= chars@.subrange(at as int, end as int));
        copy_second_field(&mut out, &chars, at, end);
        out.push('\n');
        if end < chars.len() {
            assert(text.skip(end - at + 1) =~= chars@.skip(end + 1));
            at = end + 1;
        } else {
            assert(chars@.skip(end as int) =~= Seq::<char>::empty());
            at = end;
        }
        assert(out@ + second_fields(chars@.skip(at as int)) =~= second_fields(chars@));
    }
    assert(second_fields(chars@) =~= out@);
    let mut keep: usize = out.len();
    assert(out@.take(keep as int) =~= out@);
    while keep > 0 && out[keep - 1] == '\n'
        invariant
            keep <= out.len(),
            without_trailing_breaks(out@) == without_trailing_breaks(out@.take(keep as int)),
        decreases keep,
    {
        assert(out@.take(keep as int).drop_last() =~= out@.take(keep - 1));
        keep -= 1;
    }
    out.truncate(keep);
    string_of(&out)
}

} // verus!
