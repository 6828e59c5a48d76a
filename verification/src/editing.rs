//! The input line: byte positions of the cursor, moves by characters and words,
//! and edits at the cursor.
use crate::text;
use crate::text::{byte_count, chars_of, len_utf8, string_between};
use vstd::prelude::*;

verus! {

/// `c` is a letter or a digit, as `char::is_alphanumeric` has it.
pub uninterp spec fn alphanumeric(c: char) -> bool;

/// `c` is one of the letters and digits of ASCII.
pub open spec fn ascii_alphanumeric(c: char) -> bool {
    ('a' <= c <= 'z') || ('A' <= c <= 'Z') || ('0' <= c <= '9')
}

/// `char::is_alphanumeric` depends on the character alone. Among the characters
/// of ASCII it holds of the letters and digits and of no others. Which of the
/// other characters are letters or digits is left to it.
pub assume_specification[ char::is_alphanumeric ](c: char) -> (yes: bool)
    ensures
        yes == alphanumeric(c),
        (c as u32) < 0x80 ==> yes == ascii_alphanumeric(c),
;

/// `c` is part of a word: in ASCII a letter, a digit or an underscore, and past
/// ASCII what Unicode has for a letter or a digit.
pub open spec fn word_char(c: char) -> bool {
    if (c as u32) < 0x80 {
        ascii_alphanumeric(c) || c == '_'
    } else {
        alphanumeric(c)
    }
}

/// Whether `c` is part of a word.
pub fn is_word_char(c: char) -> (yes: bool)
    ensures
        yes == word_char(c),
{
    c.is_alphanumeric() || c == '_'
}

/// How many characters of `s` end at the byte `pos` or before it.
pub open spec fn chars_before(s: Seq<char>, pos: int) -> int
    decreases s.len(),
{
    if s.len() == 0 || text::byte_len(s) <= pos {
        s.len() as int
    } else {
        chars_before(s.drop_last(), pos)
    }
}

/// The byte where the character at `i` starts.
pub open spec fn byte_at(s: Seq<char>, i: int) -> nat {
    text::byte_len(s.take(i))
}

/// `pos` is the start of a character of `s`, or its end.
pub open spec fn on_boundary(s: Seq<char>, pos: int) -> bool {
    exists|i: int| 0 <= i <= s.len() && #[trigger] byte_at(s, i) == pos
}

/// `chars_before` is the only position whose character reaches past `pos`.
pub proof fn lemma_chars_before(s: Seq<char>, pos: int, i: int)
    requires
        0 <= i <= s.len(),
        i > 0 ==> byte_at(s, i) <= pos,
        i < s.len() ==> byte_at(s, i + 1) > pos,
    ensures
        chars_before(s, pos) == i,
    decreases s.len(),
{
    if s.len() > 0 {
        if i == s.len() {
            assert(s.take(i) =~= s);
        } else {
            text::lemma_byte_len_take(s, i + 1, s.len() as int);
            let init = s.drop_last();
            assert(init.take(i) =~= s.take(i));
            if i + 1 <= init.len() {
                assert(init.take(i + 1) =~= s.take(i + 1));
            }
            assert(s.take(s.len() as int) =~= s);
            lemma_chars_before(init, pos, i);
        }
    }
}

/// The clamped position lies in the text, at the start of a character or at
/// the end, and not after the position.
pub proof fn lemma_clamped(s: Seq<char>, pos: int)
    requires
        pos >= 0,
    ensures
        0 <= chars_before(s, pos) <= s.len(),
        byte_at(s, chars_before(s, pos)) <= pos,
        byte_at(s, chars_before(s, pos)) <= text::byte_len(s),
        on_boundary(s, byte_at(s, chars_before(s, pos)) as int),
    decreases s.len(),
{
    if s.len() == 0 || text::byte_len(s) <= pos {
        assert(s.take(s.len() as int) =~= s);
    } else {
        let init = s.drop_last();
        lemma_clamped(init, pos);
        let k = chars_before(init, pos);
        assert(init.take(k) =~= s.take(k));
    }
    let k = chars_before(s, pos);
    text::lemma_byte_len_take(s, k, s.len() as int);
    assert(byte_at(s, k) == byte_at(s, k));
}

/// A position on a boundary is its own clamped position.
pub proof fn lemma_boundary(s: Seq<char>, i: int)
    requires
        0 <= i <= s.len(),
    ensures
        chars_before(s, byte_at(s, i) as int) == i,
{
    if i < s.len() {
        text::lemma_byte_len_take(s, i, i + 1);
    }
    lemma_chars_before(s, byte_at(s, i) as int, i);
}

/// How many characters end at the byte `pos` or before it.
pub fn char_index(chars: &Vec<char>, pos: usize) -> (i: usize)
    requires
        text::byte_len(chars@) <= usize::MAX,
    ensures
        i == chars_before(chars@, pos as int),
        i <= chars@.len(),
{
    let mut i: usize = 0;
    let mut offset: usize = 0;
    assert(chars@.take(0) =~= Seq::<char>::empty());
    while i < chars.len()
        invariant
            i <= chars@.len(),
            offset == byte_at(chars@, i as int),
            offset <= pos,
            text::byte_len(chars@) <= usize::MAX,
        decreases chars@.len() - i,
    {
        proof {
            text::lemma_byte_len_take(chars@, i + 1, chars@.len() as int);
            assert(chars@.take(i + 1).drop_last() =~= chars@.take(i as int));
        }
        let next: usize = offset + len_utf8(chars[i]);
        if next > pos {
            proof {
                lemma_chars_before(chars@, pos as int, i as int);
            }
            return i;
        }
        offset = next;
        i += 1;
    }
    proof {
        lemma_chars_before(chars@, pos as int, i as int);
    }
    i
}

/// The byte where the character at `i` starts.
pub fn offset_of(chars: &Vec<char>, i: usize) -> (offset: usize)
    requires
        i <= chars@.len(),
        text::byte_len(chars@) <= usize::MAX,
    ensures
        offset == byte_at(chars@, i as int),
{
    let mut k: usize = 0;
    let mut offset: usize = 0;
    assert(chars@.take(0) =~= Seq::<char>::empty());
    while k < i
        invariant
            k <= i <= chars@.len(),
            offset == byte_at(chars@, k as int),
            text::byte_len(chars@) <= usize::MAX,
        decreases i - k,
    {
        proof {
            text::lemma_byte_len_take(chars@, k + 1, chars@.len() as int);
            assert(chars@.take(k + 1).drop_last() =~= chars@.take(k as int));
        }
        offset = offset + len_utf8(chars[k]);
        k += 1;
    }
    offset
}

/// The start of a character, or the end, that is nearest to `cursor_pos` and
/// not after it.
pub open spec fn clamped(s: Seq<char>, pos: int) -> nat {
    byte_at(s, chars_before(s, pos))
}

/// The start of a character, or the end, that is nearest to `cursor_pos` and
/// not after it.
pub fn clamp_cursor_to_boundary(input: &str, cursor_pos: usize) -> (pos: usize)
    ensures
        pos == clamped(input@, cursor_pos as int),
{
    let chars = chars_of(input);
    offset_of(&chars, char_index(&chars, cursor_pos))
}

/// The start of the character before the cursor.
pub open spec fn before(s: Seq<char>, pos: int) -> nat {
    let i = chars_before(s, pos);
    byte_at(s, if i == 0 { 0 } else { i - 1 })
}

/// The start of the character before the cursor.
pub fn prev_char_boundary(input: &str, cursor_pos: usize) -> (pos: usize)
    ensures
        pos == before(input@, cursor_pos as int),
{
    let chars = chars_of(input);
    let i: usize = char_index(&chars, cursor_pos);
    offset_of(&chars, if i == 0 { 0 } else { i - 1 })
}

/// The end of the character after the cursor.
pub open spec fn after(s: Seq<char>, pos: int) -> nat {
    let i = chars_before(s, pos);
    byte_at(s, if i >= s.len() { i } else { i + 1 })
}

/// The end of the character after the cursor.
pub fn next_char_boundary(input: &str, cursor_pos: usize) -> (pos: usize)
    ensures
        pos == after(input@, cursor_pos as int),
{
    let chars = chars_of(input);
    let i: usize = char_index(&chars, cursor_pos);
    let n: usize = chars.len();
    offset_of(&chars, if i >= n { i } else { i + 1 })
}

/// The end of the run from `i` on of characters that are part of a word, or
/// that are not.
pub open spec fn run_end(s: Seq<char>, i: int, word: bool) -> int
    decreases s.len() - i,
{
    if 0 <= i < s.len() && word_char(s[i]) == word {
        run_end(s, i + 1, word)
    } else {
        i
    }
}

/// The start of the run up to `i` of characters that are part of a word, or
/// that are not.
pub open spec fn run_start(s: Seq<char>, i: int, word: bool) -> int
    decreases i,
{
    if 0 < i <= s.len() && word_char(s[i - 1]) == word {
        run_start(s, i - 1, word)
    } else {
        i
    }
}

fn skip_run(chars: &Vec<char>, from: usize, word: bool) -> (to: usize)
    requires
        from <= chars@.len(),
    ensures
        to == run_end(chars@, from as int, word),
        from <= to <= chars@.len(),
{
    let mut i: usize = from;
    while i < chars.len() && is_word_char(chars[i]) == word
        invariant
            from <= i <= chars@.len(),
            run_end(chars@, from as int, word) == run_end(chars@, i as int, word),
        decreases chars@.len() - i,
    {
        i += 1;
    }
    i
}

fn skip_run_back(chars: &Vec<char>, from: usize, word: bool) -> (to: usize)
    requires
        from <= chars@.len(),
    ensures
        to == run_start(chars@, from as int, word),
        to <= from,
{
    let mut i: usize = from;
    while i > 0 && is_word_char(chars[i - 1]) == word
        invariant
            i <= from <= chars@.len(),
            run_start(chars@, from as int, word) == run_start(chars@, i as int, word),
        decreases i,
    {
        i -= 1;
    }
    i
}

/// The end of the next word.
pub open spec fn word_end(s: Seq<char>, pos: int) -> nat {
    byte_at(s, run_end(s, run_end(s, chars_before(s, pos), false), true))
}

/// The end of the next word after the cursor, or the end of the input.
pub fn next_word_boundary(input: &str, cursor_pos: usize) -> (pos: usize)
    ensures
        pos == word_end(input@, cursor_pos as int),
{
    let chars = chars_of(input);
    let i: usize = char_index(&chars, cursor_pos);
    offset_of(&chars, skip_run(&chars, skip_run(&chars, i, false), true))
}

/// The start of the word before the cursor.
pub open spec fn word_start(s: Seq<char>, pos: int) -> nat {
    byte_at(s, run_start(s, run_start(s, chars_before(s, pos), false), true))
}

/// The start of the word before the cursor, or the start of the input.
pub fn prev_word_boundary(input: &str, cursor_pos: usize) -> (pos: usize)
    ensures
        pos == word_start(input@, cursor_pos as int),
{
    let chars = chars_of(input);
    let i: usize = char_index(&chars, cursor_pos);
    offset_of(&chars, skip_run_back(&chars, skip_run_back(&chars, i, false), true))
}

/// `s` with `c` before the character at `i`.
pub open spec fn inserted(s: Seq<char>, i: int, c: char) -> Seq<char> {
    s.take(i).push(c) + s.skip(i)
}

/// `s` without the characters from `i` up to `j`.
pub open spec fn cut(s: Seq<char>, i: int, j: int) -> Seq<char> {
    s.take(i) + s.skip(j)
}

/// Puts `c` at the cursor. Gives the new input and the cursor behind `c`.
pub fn insert_char(input: &str, cursor_pos: usize, c: char) -> (r: (String, usize))
    ensures
        r.0@ == inserted(input@, chars_before(input@, cursor_pos as int), c),
        r.1 == clamped(input@, cursor_pos as int) + text::utf8_width(c),
{
    let chars = chars_of(input);
    let i: usize = char_index(&chars, cursor_pos);
    let mut line = string_between(&chars, 0, i);
    line.push(c);
    line.append(string_between(&chars, i, chars.len()).as_str());
    assert(line@ =~= inserted(input@, i as int, c));
    let size: usize = byte_count(line.as_str());
    let offset: usize = offset_of(&chars, i);
    proof {
        let head = input@.take(i as int).push(c);
        text::lemma_byte_len_concat(head, input@.skip(i as int));
        assert(head.drop_last() =~= input@.take(i as int));
        assert(offset + text::utf8_width(c) <= size);
    }
    (line, offset + len_utf8(c))
}

/// Removes the character before the cursor, if there is one.
pub fn delete_before(input: &str, cursor_pos: usize) -> (r: (String, usize))
    ensures
        r.1 == before(input@, cursor_pos as int),
        ({
            let i = chars_before(input@, cursor_pos as int);
            r.0@ == cut(input@, if i == 0 { 0 } else { i - 1 }, i)
        }),
{
    let chars = chars_of(input);
    let i: usize = char_index(&chars, cursor_pos);
    let from: usize = if i == 0 {
        0
    } else {
        i - 1
    };
    let mut line = string_between(&chars, 0, from);
    line.append(string_between(&chars, i, chars.len()).as_str());
    assert(line@ =~= cut(input@, from as int, i as int));
    (line, offset_of(&chars, from))
}

/// Removes the character after the cursor, if there is one.
pub fn delete_after(input: &str, cursor_pos: usize) -> (r: (String, usize))
    ensures
        r.1 == clamped(input@, cursor_pos as int),
        ({
            let i = chars_before(input@, cursor_pos as int);
            r.0@ == cut(input@, i, if i >= input@.len() { i } else { i + 1 })
        }),
{
    let chars = chars_of(input);
    let i: usize = char_index(&chars, cursor_pos);
    let n: usize = chars.len();
    let to: usize = if i >= n {
        i
    } else {
        i + 1
    };
    let mut line = string_between(&chars, 0, i);
    line.append(string_between(&chars, to, n).as_str());
    assert(line@ =~= cut(input@, i as int, to as int));
    (line, offset_of(&chars, i))
}

/// Deleting backwards takes back what was just typed, wherever the cursor was.
pub proof fn law_delete_undoes_insert(s: Seq<char>, pos: int, c: char)
    requires
        pos >= 0,
    ensures
        ({
            let i = chars_before(s, pos);
            let typed = inserted(s, i, c);
            let cursor = (clamped(s, pos) + text::utf8_width(c)) as int;
            let j = chars_before(typed, cursor);
            &&& j == i + 1
            &&& cut(typed, j - 1, j) == s
            &&& before(typed, cursor) == clamped(s, pos)
        }),
{
    lemma_clamped(s, pos);
    let i = chars_before(s, pos);
    let typed = inserted(s, i, c);
    assert(typed.take(i) =~= s.take(i));
    assert(typed.take(i + 1) =~= s.take(i).push(c));
    assert(typed.take(i + 1).drop_last() =~= s.take(i));
    lemma_boundary(typed, i + 1);
    assert(cut(typed, i, i + 1) =~= s);
}

/// Every move leaves the cursor at the start of a character or at the end of
/// the input; a move to the left never goes right, and a move to the right
/// never goes left.
pub proof fn law_moves_stay_in_the_input(s: Seq<char>, pos: int)
    requires
        pos >= 0,
    ensures
        on_boundary(s, before(s, pos) as int),
        on_boundary(s, after(s, pos) as int),
        on_boundary(s, word_start(s, pos) as int),
        on_boundary(s, word_end(s, pos) as int),
        word_start(s, pos) <= before(s, pos) <= clamped(s, pos) <= after(s, pos) <= word_end(s, pos)
            <= text::byte_len(s),
{
    lemma_clamped(s, pos);
    let i = chars_before(s, pos);
    lemma_run_start(s, i, false);
    let a = run_start(s, i, false);
    lemma_run_start(s, a, true);
    let b = run_start(s, a, true);
    lemma_run_end(s, i, false);
    let c = run_end(s, i, false);
    lemma_run_end(s, c, true);
    let d = run_end(s, c, true);
    let l = if i == 0 {
        0
    } else {
        i - 1
    };
    let r = if i >= s.len() {
        i
    } else {
        i + 1
    };
    assert(b <= l);
    assert(r <= d);
    text::lemma_byte_len_take(s, b, l);
    text::lemma_byte_len_take(s, l, i);
    text::lemma_byte_len_take(s, i, r);
    text::lemma_byte_len_take(s, r, d);
    assert(byte_at(s, b) == byte_at(s, b) && byte_at(s, l) == byte_at(s, l) && byte_at(s, r)
        == byte_at(s, r) && byte_at(s, d) == byte_at(s, d));
}

proof fn lemma_run_start(s: Seq<char>, i: int, word: bool)
    requires
        0 <= i <= s.len(),
    ensures
        0 <= run_start(s, i, word) <= i,
        run_start(s, i, word) == i && i > 0 ==> word_char(s[i - 1]) != word,
    decreases i,
{
    if 0 < i && word_char(s[i - 1]) == word {
        lemma_run_start(s, i - 1, word);
    }
}

proof fn lemma_run_end(s: Seq<char>, i: int, word: bool)
    requires
        0 <= i <= s.len(),
    ensures
        i <= run_end(s, i, word) <= s.len(),
        run_end(s, i, word) == i && i < s.len() ==> word_char(s[i]) != word,
    decreases s.len() - i,
{
    if i < s.len() && word_char(s[i]) == word {
        lemma_run_end(s, i + 1, word);
    }
}

} // verus!
