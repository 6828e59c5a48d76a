//! The names of keys.
use crate::text;
use crate::text::{chars_of, same_text};
use vstd::prelude::*;

verus! {

/// The character of Control with a letter.
pub open spec fn control_char(letter: char) -> char {
    (text::ascii_lower(letter) as u32 % 32) as char
}

pub open spec fn is_letter(c: char) -> bool {
    'a' <= c <= 'z' || 'A' <= c <= 'Z'
}

/// What the key `C-` with a letter types.
pub open spec fn controlled(key: Seq<char>) -> Option<char> {
    if key.len() == 3 && key[0] == 'C' && key[1] == '-' && is_letter(key[2]) {
        Some(control_char(key[2]))
    } else {
        None
    }
}

/// What a key types: the named keys stand for characters, and anything else for
/// itself.
pub open spec fn typed(key: Seq<char>) -> Seq<char> {
    if key == "Enter"@ || key == "CR"@ {
        seq!['\r']
    } else if key == "Space"@ {
        seq![' ']
    } else if key == "Escape"@ || key == "Esc"@ {
        seq!['\x1b']
    } else if key == "Tab"@ {
        seq!['\t']
    } else if key == "BSpace"@ || key == "Backspace"@ {
        seq!['\x08']
    } else {
        match controlled(key) {
            Some(c) => seq![c],
            None => key,
        }
    }
}

/// What the first `n` keys type.
pub open spec fn typed_all(keys: Seq<Seq<char>>, n: int) -> Seq<char>
    decreases n,
{
    if n <= 0 || n > keys.len() {
        Seq::empty()
    } else {
        typed_all(keys, n - 1) + typed(keys[n - 1])
    }
}

fn control_code(letter: char) -> (c: char)
    requires
        is_letter(letter),
    ensures
        c == control_char(letter),
{
    let code: u32 = letter as u32;
    let low: u8 = (code % 32) as u8;
    assert(text::ascii_lower(letter) as u32 % 32 == code % 32);
    low as char
}

fn find_controlled(key: &str) -> (c: Option<char>)
    ensures
        c == controlled(key@),
{
    let chars = chars_of(key);
    if chars.len() != 3 || chars[0] != 'C' || chars[1] != '-' {
        return None;
    }
    let letter: char = chars[2];
    if ('a' <= letter && letter <= 'z') || ('A' <= letter && letter <= 'Z') {
        Some(control_code(letter))
    } else {
        None
    }
}

fn push_key(out: &mut String, key: &str)
    ensures
        final(out)@ == old(out)@ + typed(key@),
{
    if same_text(key, "Enter") || same_text(key, "CR") {
        out.push('\r');
    } else if same_text(key, "Space") {
        out.push(' ');
    } else if same_text(key, "Escape") || same_text(key, "Esc") {
        out.push('\x1b');
    } else if same_text(key, "Tab") {
        out.push('\t');
    } else if same_text(key, "BSpace") || same_text(key, "Backspace") {
        out.push('\x08');
    } else {
        match find_controlled(key) {
            Some(c) => out.push(c),
            None => out.append(key),
        }
    }
    assert(out@ =~= old(out)@ + typed(key@));
}

/// What the keys type, one after the other.
pub fn translate_keys(keys: &Vec<String>) -> (out: String)
    ensures
        out@ == typed_all(text::texts(keys@), keys@.len() as int),
{
    let mut out = String::new();
    let mut i: usize = 0;
    while i < keys.len()
        invariant
            i <= keys@.len(),
            out@ == typed_all(text::texts(keys@), i as int),
        decreases keys@.len() - i,
    {
        assert(text::texts(keys@)[i as int] == keys@[i as int]@);
        push_key(&mut out, keys[i].as_str());
        i += 1;
    }
    out
}

proof fn lemma_typed_prefix(keys: Seq<Seq<char>>, more: Seq<Seq<char>>, n: int)
    requires
        0 <= n <= keys.len(),
    ensures
        typed_all(keys + more, n) == typed_all(keys, n),
    decreases n,
{
    if n > 0 {
        lemma_typed_prefix(keys, more, n - 1);
        assert((keys + more)[n - 1] == keys[n - 1]);
    }
}

proof fn lemma_typed_suffix(keys: Seq<Seq<char>>, more: Seq<Seq<char>>, n: int)
    requires
        0 <= n <= more.len(),
    ensures
        typed_all(keys + more, keys.len() + n) == typed_all(keys, keys.len() as int) + typed_all(
            more,
            n,
        ),
    decreases n,
{
    if n == 0 {
        lemma_typed_prefix(keys, more, keys.len() as int);
        assert(typed_all(keys, keys.len() as int) + typed_all(more, 0) =~= typed_all(
            keys,
            keys.len() as int,
        ));
    } else {
        lemma_typed_suffix(keys, more, n - 1);
        assert((keys + more)[keys.len() + n - 1] == more[n - 1]);
        assert(typed_all(keys + more, keys.len() + n) =~= typed_all(keys, keys.len() as int)
            + typed_all(more, n));
    }
}

/// Keys are typed one after the other: those of two lists put together type what
/// the first types and then what the second does.
pub proof fn law_keys_are_typed_in_turn(keys: Seq<Seq<char>>, more: Seq<Seq<char>>)
    ensures
        typed_all(keys + more, (keys + more).len() as int) == typed_all(keys, keys.len() as int)
            + typed_all(more, more.len() as int),
{
    lemma_typed_suffix(keys, more, more.len() as int);
}

} // verus!
