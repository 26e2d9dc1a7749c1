//! Splitting a text on a separator character, the inverse of joining.

use vstd::prelude::*;
use vstd::std_specs::iter::IteratorSpec;

verus! {

/// The pieces of `text` between occurrences of `sep`, in order. A text with
/// `n` separators has `n + 1` pieces; pieces may be empty.
pub open spec fn split_on(text: Seq<char>, sep: char) -> Seq<Seq<char>>
    decreases text.len(),
{
    if text.len() == 0 {
        seq![Seq::<char>::empty()]
    } else {
        let before = split_on(text.drop_last(), sep);
        if text.last() == sep {
            before.push(Seq::<char>::empty())
        } else {
            before.drop_last().push(before.last().push(text.last()))
        }
    }
}

/// The pieces written one after another with `sep` between neighbours.
pub open spec fn join(parts: Seq<Seq<char>>, sep: char) -> Seq<char>
    decreases parts.len(),
{
    if parts.len() == 0 {
        Seq::<char>::empty()
    } else if parts.len() == 1 {
        parts[0]
    } else {
        join(parts.drop_last(), sep).push(sep) + parts.last()
    }
}

/// True when no piece holds the separator.
pub open spec fn free_of(parts: Seq<Seq<char>>, sep: char) -> bool {
    forall|i: int| 0 <= i < parts.len() ==> !(#[trigger] parts[i]).contains(sep)
}

/// Splitting always yields at least one piece, and no piece holds the
/// separator.
pub proof fn lemma_split_pieces(text: Seq<char>, sep: char)
    ensures
        split_on(text, sep).len() >= 1,
        free_of(split_on(text, sep), sep),
    decreases text.len(),
{
    let parts = split_on(text, sep);
    if text.len() == 0 {
        assert(parts[0] =~= Seq::<char>::empty());
    } else {
        let before = split_on(text.drop_last(), sep);
        lemma_split_pieces(text.drop_last(), sep);
        assert forall|i: int| 0 <= i < parts.len() implies !(#[trigger] parts[i]).contains(
            sep,
        ) by {
            if i < parts.len() - 1 {
                assert(parts[i] == before[i]);
            } else if text.last() != sep {
                let piece = before.last().push(text.last());
                assert(parts[i] == piece);
                if piece.contains(sep) {
                    let k = choose|k: int| 0 <= k < piece.len() && piece[k] == sep;
                    assert(before.last()[k] == sep);
                }
            }
        }
    }
}

/// Joining the pieces of a text with the separator gives the text back.
pub proof fn lemma_join_split(text: Seq<char>, sep: char)
    ensures
        join(split_on(text, sep), sep) == text,
    decreases text.len(),
{
    let parts = split_on(text, sep);
    if text.len() == 0 {
        assert(join(parts, sep) =~= text);
    } else {
        let shorter = text.drop_last();
        let before = split_on(shorter, sep);
        lemma_split_pieces(shorter, sep);
        lemma_join_split(shorter, sep);
        if text.last() == sep {
            assert(parts.drop_last() =~= before);
            assert(join(parts, sep) =~= text);
        } else {
            let piece = before.last().push(text.last());
            assert(parts.last() == piece);
            if before.len() == 1 {
                assert(join(parts, sep) =~= text);
            } else {
                assert(parts.drop_last() =~= before.drop_last());
                assert(join(parts, sep) =~= join(before, sep).push(text.last()));
                assert(shorter.push(text.last()) =~= text);
            }
        }
    }
}

/// Appending text that is free of the separator only lengthens the last piece.
proof fn lemma_split_append(text: Seq<char>, more: Seq<char>, sep: char)
    requires
        !more.contains(sep),
    ensures
        split_on(text + more, sep) == split_on(text, sep).drop_last().push(
            split_on(text, sep).last() + more,
        ),
    decreases more.len(),
{
    let parts = split_on(text, sep);
    lemma_split_pieces(text, sep);
    if more.len() == 0 {
        assert(text + more =~= text);
        assert(parts.last() + more =~= parts.last());
        assert(parts.drop_last().push(parts.last()) =~= parts);
    } else {
        let shorter = more.drop_last();
        assert(more[more.len() - 1] != sep);
        assert forall|k: int| 0 <= k < shorter.len() implies shorter[k] != sep by {
            assert(shorter[k] == more[k]);
        }
        lemma_split_append(text, shorter, sep);
        assert((text + more).drop_last() =~= text + shorter);
        assert((text + more).last() == more.last());
        let before = split_on(text + shorter, sep);
        assert(before.drop_last() =~= parts.drop_last());
        assert((parts.last() + shorter).push(more.last()) =~= parts.last() + more);
    }
}

/// Splitting what was joined gives the pieces back, as long as there is at
/// least one piece and none of them holds the separator.
pub proof fn lemma_split_join(parts: Seq<Seq<char>>, sep: char)
    requires
        parts.len() >= 1,
        free_of(parts, sep),
    ensures
        split_on(join(parts, sep), sep) == parts,
    decreases parts.len(),
{
    if parts.len() == 1 {
        lemma_split_append(Seq::<char>::empty(), parts[0], sep);
        assert(Seq::<char>::empty() + parts[0] =~= parts[0]);
        assert(split_on(join(parts, sep), sep) =~= parts);
    } else {
        let init = parts.drop_last();
        assert forall|i: int| 0 <= i < init.len() implies !(#[trigger] init[i]).contains(sep) by {
            assert(init[i] == parts[i]);
        }
        lemma_split_join(init, sep);
        let closed = join(init, sep).push(sep);
        assert(closed.drop_last() =~= join(init, sep));
        assert(split_on(closed, sep) == init.push(Seq::<char>::empty()));
        lemma_split_append(closed, parts.last(), sep);
        assert(Seq::<char>::empty() + parts.last() =~= parts.last());
        assert(init.push(Seq::<char>::empty()).drop_last() =~= init);
        assert(init.push(parts.last()) =~= parts);
    }
}

/// Joining puts nothing but separators between the pieces: a character that
/// is in no piece and is not the separator is not in the joined text.
pub proof fn lemma_join_free(parts: Seq<Seq<char>>, sep: char, ch: char)
    requires
        free_of(parts, ch),
        ch != sep,
    ensures
        !join(parts, sep).contains(ch),
    decreases parts.len(),
{
    if parts.len() == 1 {
        assert(!parts[0].contains(ch));
    } else if parts.len() > 1 {
        let init = parts.drop_last();
        assert forall|i: int| 0 <= i < init.len() implies !(#[trigger] init[i]).contains(ch) by {
            assert(init[i] == parts[i]);
        }
        lemma_join_free(init, sep, ch);
        let joined = join(parts, sep);
        let closed = join(init, sep).push(sep);
        assert(!parts.last().contains(ch));
        if joined.contains(ch) {
            let k = choose|k: int| 0 <= k < joined.len() && joined[k] == ch;
            if k < closed.len() - 1 {
                assert(join(init, sep)[k] == ch);
            } else if k >= closed.len() {
                assert(parts.last()[k - closed.len()] == ch);
            }
        }
    }
}

/// Trusted, as the standard library documents it: `String::push` appends the
/// given character to the end of the string and changes nothing else of it.
pub assume_specification[ String::push ](text: &mut String, ch: char)
    ensures
        final(text)@ == old(text)@.push(ch),
;

/// Splits a text on a separator character into owned pieces.
pub fn split(text: &str, sep: char) -> (parts: Vec<String>)
    ensures
        parts.deep_view() == split_on(text@, sep),
{
    let mut parts: Vec<String> = Vec::new();
    let mut current = String::new();
    let chars = text.chars();
    for ch in it: chars
        invariant
            it.seq() == text@,
            parts.deep_view().push(current@) == split_on(text@.take(it.index()), sep),
    {
        proof {
            let seen = text@.take(it.index() + 1);
            assert(seen.drop_last() =~= text@.take(it.index()));
            assert(seen.last() == ch);
        }
        if ch == sep {
            parts.push(current);
            current = String::new();
        } else {
            current.push(ch);
        }
    }
    parts.push(current);
    proof {
        assert(text@.take(text@.len() as int) =~= text@);
    }
    parts
}

} // verus!
