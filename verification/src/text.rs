//! What the readers of text share: where a mark first stands, and how long
//! a text can be.

use vstd::prelude::*;
use vstd::utf8::encode_utf8;

verus! {

/// The position of the first `mark` in `text`, or the text's length where
/// it holds none.
pub open spec fn first_of(text: Seq<char>, mark: char) -> int
    decreases text.len(),
{
    if text.len() == 0 || text[0] == mark {
        0
    } else {
        1 + first_of(text.skip(1), mark)
    }
}

/// [`first_of`] is the one position before which no `mark` stands and at
/// which one does, or the text ends.
pub proof fn lemma_first_of(text: Seq<char>, mark: char, at: int)
    requires
        0 <= at <= text.len(),
        forall|i: int| 0 <= i < at ==> text[i] != mark,
        at == text.len() || text[at] == mark,
    ensures
        first_of(text, mark) == at,
    decreases at,
{
    if at > 0 {
        let rest = text.skip(1);
        assert forall|i: int| 0 <= i < at - 1 implies rest[i] != mark by {
            assert(rest[i] == text[i + 1]);
        }
        lemma_first_of(rest, mark, at - 1);
    }
}

/// In a text scanned as far as `to`, the stretch that began at `from` and
/// holds no `mark` is the beginning of what follows `from`, up to the
/// first `mark`; and where one stands at `to`, the rest begins after it.
pub proof fn lemma_stretch(text: Seq<char>, mark: char, from: int, to: int)
    requires
        0 <= from <= to <= text.len(),
        forall|i: int| from <= i < to ==> text[i] != mark,
        to == text.len() || text[to] == mark,
    ensures
        first_of(text.skip(from), mark) == to - from,
        text.skip(from).take(to - from) == text.subrange(from, to),
        to < text.len() ==> text.skip(from).skip(to - from + 1) == text.skip(to + 1),
{
    let rest = text.skip(from);
    assert forall|i: int| 0 <= i < to - from implies rest[i] != mark by {
        assert(rest[i] == text[from + i]);
    }
    lemma_first_of(rest, mark, to - from);
}

proof fn lemma_chars_within_bytes(text: Seq<char>)
    ensures
        text.len() <= encode_utf8(text).len(),
    decreases text.len(),
{
    if text.len() > 0 {
        lemma_chars_within_bytes(text.drop_first());
    }
}

/// A number that the characters of `text` do not exceed: the number of
/// its bytes.
pub fn char_bound(text: &str) -> (bound: usize)
    ensures
        text@.len() <= bound,
{
    proof {
        lemma_chars_within_bytes(text@);
    }
    text.as_bytes().len()
}

} // verus!
