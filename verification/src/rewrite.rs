//! Best-effort recovery of tool-call arguments whose keys are not in snake
//! case. The text is cut at commas and colons without regard to nesting or
//! quoting, so values that hold either are not recovered.

use vstd::prelude::*;
use crate::text::{
    chars_of, is_alphanumeric, is_alphanumeric_char, is_uppercase, is_uppercase_char,
    is_whitespace, is_whitespace_char, lowercase_of_char, string_of, to_lowercase,
};

verus! {

/// What the character at position `i` becomes in snake case: its lower-case
/// form, after an underscore if it is an upper-case letter past the start.
pub open spec fn snake_piece(text: Seq<char>, i: int) -> Seq<char> {
    if i > 0 && is_uppercase_char(text[i]) {
        seq!['_'] + lowercase_of_char(text[i])
    } else {
        lowercase_of_char(text[i])
    }
}

/// The snake-case form of a camel-case or Pascal-case text.
pub open spec fn snake_case(text: Seq<char>) -> Seq<char>
    decreases text.len(),
{
    if text.len() == 0 {
        Seq::empty()
    } else {
        snake_case(text.drop_last()) + snake_piece(text, text.len() - 1)
    }
}

/// The first position at or after `from` that holds `mark`, or the length of
/// the text if there is none.
pub open spec fn next_mark(text: Seq<char>, mark: char, from: int) -> int
    decreases text.len() - from,
{
    if from >= text.len() {
        text.len() as int
    } else if text[from] == mark {
        from
    } else {
        next_mark(text, mark, from + 1)
    }
}

/// Whether trimming removes a character: white space where `spaces` is set,
/// else anything that is neither letter nor digit.
pub open spec fn is_trimmed(c: char, spaces: bool) -> bool {
    if spaces {
        is_whitespace_char(c)
    } else {
        !is_alphanumeric_char(c)
    }
}

/// Where the text begins once trimmed characters are dropped from the front
/// of the range from `lo` to `hi`.
pub open spec fn trim_front(text: Seq<char>, lo: int, hi: int, spaces: bool) -> int
    decreases hi - lo,
{
    if lo < hi && is_trimmed(text[lo], spaces) {
        trim_front(text, lo + 1, hi, spaces)
    } else {
        lo
    }
}

/// Where the text ends once trimmed characters are dropped from the back of
/// the range from `lo` to `hi`.
pub open spec fn trim_back(text: Seq<char>, lo: int, hi: int, spaces: bool) -> int
    decreases hi - lo,
{
    if lo < hi && is_trimmed(text[hi - 1], spaces) {
        trim_back(text, lo, hi - 1, spaces)
    } else {
        hi
    }
}

/// The text without the trimmed characters at either end.
pub open spec fn trimmed(text: Seq<char>, spaces: bool) -> Seq<char> {
    let lo = trim_front(text, 0, text.len() as int, spaces);
    let hi = trim_back(text, lo, text.len() as int, spaces);
    text.subrange(lo, hi)
}

/// The key of a `key:value` piece as it is rewritten: stripped of everything
/// around its letters and digits, then of white space, then put in snake
/// case.
pub open spec fn rewritten_key(key: Seq<char>) -> Seq<char> {
    snake_case(trimmed(trimmed(key, false), true))
}

/// One piece between commas, rewritten. A piece with a colon becomes its
/// rewritten key in double quotes, a colon, and what stood between the first
/// colon and the second; a piece without a colon stays as it is.
pub open spec fn rewritten_piece(piece: Seq<char>) -> Seq<char> {
    let colon = next_mark(piece, ':', 0);
    if colon >= piece.len() {
        piece
    } else {
        let end = next_mark(piece, ':', colon + 1);
        seq!['"'] + rewritten_key(piece.subrange(0, colon)) + seq!['"', ':'] + piece.subrange(
            colon + 1,
            end,
        )
    }
}

/// The pieces of the text from position `from` on, each rewritten, with the
/// commas back between them.
pub open spec fn rewritten_from(text: Seq<char>, from: int) -> Seq<char>
    decreases text.len() - from,
{
    let end = next_mark(text, ',', from);
    if from < 0 || from > text.len() || end < from {
        Seq::empty()
    } else if end >= text.len() {
        rewritten_piece(text.subrange(from, text.len() as int))
    } else {
        rewritten_piece(text.subrange(from, end)) + seq![','] + rewritten_from(text, end + 1)
    }
}

/// The argument text with its keys rewritten: an opening brace, then the
/// rewritten pieces.
pub open spec fn rewritten_arguments(text: Seq<char>) -> Seq<char> {
    seq!['{'] + rewritten_from(text, 0)
}

/// A mark is found where the scan stops.
pub proof fn lemma_next_mark(text: Seq<char>, mark: char, from: int, at: int)
    requires
        0 <= from <= at <= text.len(),
        forall|k: int| from <= k < at ==> text[k] != mark,
        at == text.len() || text[at] == mark,
    ensures
        next_mark(text, mark, from) == at,
    decreases at - from,
{
    if from < at {
        lemma_next_mark(text, mark, from + 1, at);
    }
}

fn find_mark(text: &Vec<char>, mark: char, from: usize) -> (at: usize)
    requires
        from <= text.len(),
    ensures
        at == next_mark(text@, mark, from as int),
        from <= at <= text.len(),
{
    let mut at: usize = from;
    while at < text.len() && text[at] != mark
        invariant
            from <= at <= text.len(),
            forall|k: int| from <= k < at ==> text@[k] != mark,
        decreases text.len() - at,
    {
        at = at + 1;
    }
    proof {
        lemma_next_mark(text@, mark, from as int, at as int);
    }
    at
}

fn slice_of(text: &Vec<char>, lo: usize, hi: usize) -> (part: Vec<char>)
    requires
        lo <= hi <= text.len(),
    ensures
        part@ == text@.subrange(lo as int, hi as int),
{
    let mut part: Vec<char> = Vec::new();
    let mut i: usize = lo;
    while i < hi
        invariant
            lo <= i <= hi <= text.len(),
            part@ == text@.subrange(lo as int, i as int),
        decreases hi - i,
    {
        part.push(text[i]);
        assert(part@ =~= text@.subrange(lo as int, i + 1));
        i = i + 1;
    }
    part
}

fn drops(c: char, spaces: bool) -> (gone: bool)
    ensures
        gone == is_trimmed(c, spaces),
{
    if spaces {
        is_whitespace(c)
    } else {
        !is_alphanumeric(c)
    }
}

fn trim(text: &Vec<char>, spaces: bool) -> (kept: Vec<char>)
    ensures
        kept@ == trimmed(text@, spaces),
{
    let mut lo: usize = 0;
    while lo < text.len() && drops(text[lo], spaces)
        invariant
            lo <= text.len(),
            trim_front(text@, 0, text.len() as int, spaces) == trim_front(
                text@,
                lo as int,
                text.len() as int,
                spaces,
            ),
        decreases text.len() - lo,
    {
        lo = lo + 1;
    }
    let mut hi: usize = text.len();
    while lo < hi && drops(text[hi - 1], spaces)
        invariant
            lo <= hi <= text.len(),
            trim_back(text@, lo as int, text.len() as int, spaces) == trim_back(
                text@,
                lo as int,
                hi as int,
                spaces,
            ),
        decreases hi - lo,
    {
        hi = hi - 1;
    }
    slice_of(text, lo, hi)
}

fn snake_case_chars(text: &Vec<char>) -> (snake: Vec<char>)
    ensures
        snake@ == snake_case(text@),
{
    let mut snake: Vec<char> = Vec::new();
    let mut i: usize = 0;
    while i < text.len()
        invariant
            i <= text.len(),
            snake@ == snake_case(text@.take(i as int)),
        decreases text.len() - i,
    {
        proof {
            assert(text@.take(i + 1).drop_last() =~= text@.take(i as int));
        }
        let ch = text[i];
        if i > 0 && is_uppercase(ch) {
            snake.push('_');
        }
        let mut lower = to_lowercase(ch);
        snake.append(&mut lower);
        assert(snake@ =~= snake_case(text@.take(i as int)) + snake_piece(
            text@.take(i + 1),
            i as int,
        ));
        i = i + 1;
    }
    assert(text@.take(i as int) =~= text@);
    snake
}

/// Puts a camel-case or Pascal-case text in snake case: every character in
/// lower case, with an underscore before each upper-case letter but the
/// first character.
pub fn to_snake_case(camel_case: &str) -> (snake: String)
    ensures
        snake@ == snake_case(camel_case@),
{
    let text = chars_of(camel_case);
    let snake = snake_case_chars(&text);
    string_of(&snake)
}

fn rewrite_piece(piece: &Vec<char>) -> (out: Vec<char>)
    ensures
        out@ == rewritten_piece(piece@),
{
    let colon = find_mark(piece, ':', 0);
    if colon >= piece.len() {
        slice_of(piece, 0, piece.len())
    } else {
        let end = find_mark(piece, ':', colon + 1);
        let key = slice_of(piece, 0, colon);
        let bare = trim(&key, false);
        let bare = trim(&bare, true);
        let mut name = snake_case_chars(&bare);
        let mut value = slice_of(piece, colon + 1, end);
        let mut out: Vec<char> = Vec::new();
        out.push('"');
        out.append(&mut name);
        out.push('"');
        out.push(':');
        out.append(&mut value);
        assert(out@ =~= rewritten_piece(piece@));
        out
    }
}

/// Rewrites the keys of an argument text. The text is cut at every comma;
/// each piece with a colon gets its key stripped, put in snake case and
/// quoted, and keeps what stood between its first and second colon; the
/// pieces are joined with commas again, after an opening brace.
pub fn rewrite_argument_keys(arguments: &str) -> (rewritten: String)
    ensures
        rewritten@ == rewritten_arguments(arguments@),
{
    let text = chars_of(arguments);
    let mut out: Vec<char> = Vec::new();
    out.push('{');
    let mut from: usize = 0;
    loop
        invariant
            from <= text.len(),
            text@ == arguments@,
            out@ + rewritten_from(text@, from as int) == rewritten_arguments(arguments@),
        decreases text.len() - from,
    {
        let end = find_mark(&text, ',', from);
        let piece = slice_of(&text, from, end);
        let mut piece_out = rewrite_piece(&piece);
        let ghost before = out@;
        out.append(&mut piece_out);
        if end >= text.len() {
            assert(out@ =~= before + rewritten_from(text@, from as int));
            return string_of(&out);
        }
        out.push(',');
        assert(out@ + rewritten_from(text@, end + 1) =~= before + rewritten_from(
            text@,
            from as int,
        ));
        from = end + 1;
    }
}

} // verus!
