//! The value of a metric, as a file holds it: one token among those that
//! whitespace separates.

use crate::text::char_bound;
use vstd::prelude::*;
use vstd::string::StrSliceExecFns;

verus! {

/// A character with Unicode's `White_Space` property.
pub open spec fn is_whitespace(c: char) -> bool {
    let code = c as u32;
    ||| 0x0009 <= code <= 0x000D
    ||| code == 0x0020
    ||| code == 0x0085
    ||| code == 0x00A0
    ||| code == 0x1680
    ||| 0x2000 <= code <= 0x200A
    ||| code == 0x2028
    ||| code == 0x2029
    ||| code == 0x202F
    ||| code == 0x205F
    ||| code == 0x3000
}

/// `text` without the whitespace it begins with.
pub open spec fn trim_start(text: Seq<char>) -> Seq<char>
    decreases text.len(),
{
    if text.len() > 0 && is_whitespace(text[0]) {
        trim_start(text.skip(1))
    } else {
        text
    }
}

/// The length of the run of characters other than whitespace that `text`
/// begins with.
pub open spec fn run_length(text: Seq<char>) -> int
    decreases text.len(),
{
    if text.len() == 0 || is_whitespace(text[0]) {
        0
    } else {
        1 + run_length(text.skip(1))
    }
}

/// The token with the given number, counted from zero, of a text whose
/// tokens are its longest runs of characters other than whitespace; `None`
/// where the text has fewer tokens. Whitespace of any length separates two
/// tokens, and whitespace before the first and after the last counts for
/// nothing.
pub open spec fn token(text: Seq<char>, index: nat) -> Option<Seq<char>>
    decreases index,
{
    let rest = trim_start(text);
    let end = run_length(rest);
    if end == 0 {
        None
    } else if index == 0 {
        Some(rest.take(end))
    } else {
        token(rest.skip(end), (index - 1) as nat)
    }
}

/// The token that holds a metric's value: the token with the given number,
/// or `0` where there is no such token.
pub open spec fn token_at(contents: Seq<char>, index: nat) -> Seq<char> {
    match token(contents, index) {
        Some(found) => found,
        None => seq!['0'],
    }
}

proof fn lemma_trim_start(text: Seq<char>, at: int)
    requires
        0 <= at <= text.len(),
        forall|i: int| 0 <= i < at ==> is_whitespace(text[i]),
        at == text.len() || !is_whitespace(text[at]),
    ensures
        trim_start(text) == text.skip(at),
    decreases at,
{
    if at > 0 {
        let rest = text.skip(1);
        assert forall|i: int| 0 <= i < at - 1 implies is_whitespace(rest[i]) by {
            assert(rest[i] == text[i + 1]);
        }
        lemma_trim_start(rest, at - 1);
        assert(rest.skip(at - 1) == text.skip(at));
    } else {
        assert(text.skip(0) == text);
    }
}

proof fn lemma_run_length(text: Seq<char>, at: int)
    requires
        0 <= at <= text.len(),
        forall|i: int| 0 <= i < at ==> !is_whitespace(text[i]),
        at == text.len() || is_whitespace(text[at]),
    ensures
        run_length(text) == at,
    decreases at,
{
    if at > 0 {
        let rest = text.skip(1);
        assert forall|i: int| 0 <= i < at - 1 implies !is_whitespace(rest[i]) by {
            assert(rest[i] == text[i + 1]);
        }
        lemma_run_length(rest, at - 1);
    }
}

/// Behind whitespace, the tokens are those of what follows it.
proof fn lemma_token_behind_whitespace(text: Seq<char>, from: int, to: int, index: nat)
    requires
        0 <= from <= to <= text.len(),
        forall|i: int| from <= i < to ==> is_whitespace(text[i]),
        to == text.len() || !is_whitespace(text[to]),
    ensures
        trim_start(text.skip(from)) == text.skip(to),
        trim_start(text.skip(to)) == text.skip(to),
        token(text.skip(from), index) == token(text.skip(to), index),
{
    let before = text.skip(from);
    assert forall|i: int| 0 <= i < to - from implies is_whitespace(before[i]) by {
        assert(before[i] == text[from + i]);
    }
    lemma_trim_start(before, to - from);
    assert(before.skip(to - from) == text.skip(to));
    lemma_trim_start(text.skip(to), 0);
    assert(text.skip(to).skip(0) == text.skip(to));
}

/// A run of characters other than whitespace that begins at `from` and
/// ends before `to` is the first token of what follows `from`, and the
/// later tokens are those of what follows `to`.
proof fn lemma_token_run(text: Seq<char>, from: int, to: int, index: nat)
    requires
        0 <= from < to <= text.len(),
        forall|i: int| from <= i < to ==> !is_whitespace(text[i]),
        to == text.len() || is_whitespace(text[to]),
    ensures
        token(text.skip(from), index) == if index == 0 {
            Some(text.subrange(from, to))
        } else {
            token(text.skip(to), (index - 1) as nat)
        },
{
    let rest = text.skip(from);
    assert forall|i: int| 0 <= i < to - from implies !is_whitespace(rest[i]) by {
        assert(rest[i] == text[from + i]);
    }
    assert(rest[0] == text[from]);
    lemma_trim_start(rest, 0);
    assert(rest.skip(0) == rest);
    lemma_run_length(rest, to - from);
    assert(rest.take(to - from) == text.subrange(from, to));
    assert(rest.skip(to - from) == text.skip(to));
}

/// Whether `c` is whitespace.
pub fn is_whitespace_char(c: char) -> (white: bool)
    ensures
        white == is_whitespace(c),
{
    let code = c as u32;
    (0x0009 <= code && code <= 0x000D) || code == 0x0020 || code == 0x0085 || code == 0x00A0
        || code == 0x1680 || (0x2000 <= code && code <= 0x200A) || code == 0x2028 || code
        == 0x2029 || code == 0x202F || code == 0x205F || code == 0x3000
}

/// The token of `contents` that holds the value of a metric read at
/// `index`: the token with that number among those that whitespace
/// separates, or `0` where the contents have no such token.
pub fn value_token(contents: &str, index: usize) -> (token: String)
    ensures
        token@ == token_at(contents@, index as nat),
{
    let bound = char_bound(contents);
    // The position in the text, the number of tokens that lie behind, and
    // whether the position is inside a token, which began at `start`.
    let mut pos: usize = 0;
    let mut passed: usize = 0;
    let mut inside = false;
    let mut start: usize = 0;
    // Whether the wanted token has ended, and where.
    let mut done = false;
    let mut end: usize = 0;
    // Where the tokens that are still to come begin.
    let ghost mut anchor: int = 0;
    assert(contents@.skip(0) == contents@);
    for c in it: contents.chars()
        invariant
            it.seq() == contents@,
            contents@.len() <= bound,
            pos == it.index(),
            passed <= index,
            0 <= anchor <= pos,
            done ==> start < end <= pos && token(contents@, index as nat) == Some(
                contents@.subrange(start as int, end as int),
            ),
            !done ==> token(contents@, index as nat) == token(
                contents@.skip(anchor),
                (index - passed) as nat,
            ),
            !done && inside ==> anchor == start && start < pos && forall|i: int|
                start <= i < pos ==> !is_whitespace(contents@[i]),
            !done && !inside ==> forall|i: int| anchor <= i < pos ==> is_whitespace(contents@[i]),
    {
        if !done {
            if is_whitespace_char(c) {
                if inside {
                    proof {
                        lemma_token_run(
                            contents@,
                            start as int,
                            pos as int,
                            (index - passed) as nat,
                        );
                        anchor = pos as int;
                    }
                    inside = false;
                    if passed == index {
                        done = true;
                        end = pos;
                    } else {
                        passed += 1;
                    }
                }
            } else if !inside {
                proof {
                    lemma_token_behind_whitespace(
                        contents@,
                        anchor,
                        pos as int,
                        (index - passed) as nat,
                    );
                    anchor = pos as int;
                }
                inside = true;
                start = pos;
            }
        }
        pos += 1;
    }
    if !done && inside && passed == index {
        proof {
            lemma_token_run(contents@, start as int, pos as int, 0);
        }
        done = true;
        end = pos;
    }
    if done {
        contents.substring_char(start, end).to_owned()
    } else {
        proof {
            let left = (index - passed) as nat;
            if inside {
                lemma_token_run(contents@, start as int, pos as int, left);
                lemma_token_behind_whitespace(contents@, pos as int, pos as int, (left - 1) as nat);
            } else {
                lemma_token_behind_whitespace(contents@, anchor, pos as int, left);
            }
            assert(contents@.skip(pos as int).len() == 0);
            reveal_strlit("0");
            assert("0"@ == seq!['0']);
        }
        "0".to_owned()
    }
}

} // verus!
