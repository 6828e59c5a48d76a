//! What the services of Windows are handed, and what they answer.
use crate::text;
use crate::text::{chars_of, signed_number_text};
use vstd::prelude::*;

verus! {

/// A character in UTF-16: one unit, or a surrogate pair.
pub open spec fn utf16_units(c: char) -> Seq<u16> {
    let n = c as u32;
    if n < 0x10000 {
        seq![n as u16]
    } else {
        seq![
            (0xD800 + (n - 0x10000) / 0x400) as u16,
            (0xDC00 + (n - 0x10000) % 0x400) as u16,
        ]
    }
}

/// A text in UTF-16.
pub open spec fn utf16(s: Seq<char>) -> Seq<u16>
    decreases s.len(),
{
    if s.len() == 0 {
        Seq::empty()
    } else {
        utf16(s.drop_last()) + utf16_units(s.last())
    }
}

/// The range of character codes.
proof fn lemma_code(c: char)
    ensures
        c as u32 <= 0x10FFFF,
        !(0xD800 <= c as u32 && (c as u32) < 0xE000),
        (c as u32) as char == c,
{
}

fn push_units(wide: &mut Vec<u16>, c: char)
    ensures
        final(wide)@ == old(wide)@ + utf16_units(c),
{
    proof {
        lemma_code(c);
    }
    let n: u32 = c as u32;
    if n < 0x10000 {
        wide.push(n as u16);
    } else {
        wide.push((0xD800 + (n - 0x10000) / 0x400) as u16);
        wide.push((0xDC00 + (n - 0x10000) % 0x400) as u16);
    }
    assert(wide@ =~= old(wide)@ + utf16_units(c));
}

/// The text in UTF-16, with a zero at its end.
pub fn wide_text(text: &str) -> (wide: Vec<u16>)
    ensures
        wide@ == utf16(text@).push(0),
{
    let chars = chars_of(text);
    let mut wide: Vec<u16> = Vec::new();
    let mut i: usize = 0;
    assert(text@.take(0) =~= Seq::<char>::empty());
    assert(wide@ =~= utf16(text@.take(0)));
    while i < chars.len()
        invariant
            i <= chars@.len(),
            chars@ == text@,
            wide@ == utf16(text@.take(i as int)),
        decreases chars@.len() - i,
    {
        let ghost before = wide@;
        push_units(&mut wide, chars[i]);
        assert(wide@ == before + utf16_units(text@[i as int]));
        assert(text@.take(i + 1).drop_last() =~= text@.take(i as int));
        i += 1;
    }
    assert(text@.take(i as int) =~= text@);
    wide.push(0);
    wide
}

/// What `ShellExecuteW` answered: codes up to 32 are failures.
pub fn shell_execute_result(code: i64) -> (r: Result<(), String>)
    ensures
        match r {
            Ok(()) => code > 32,
            Err(message) => code <= 32 && message@ == "ShellExecuteW failed with code "@
                + text::signed_decimal(code as int),
        },
{
    if code > 32 {
        return Ok(());
    }
    let mut message = "ShellExecuteW failed with code ".to_owned();
    message.append(signed_number_text(code).as_str());
    Err(message)
}

/// The text that UTF-16 units stand for.
pub open spec fn decoded(units: Seq<u16>) -> Seq<char>
    decreases units.len(),
{
    if units.len() == 0 {
        Seq::empty()
    } else {
        let low = units.last();
        if 0xDC00 <= low < 0xE000 && units.len() >= 2 {
            let high = units[units.len() - 2];
            decoded(units.take(units.len() - 2)).push(
                (0x10000 + (high - 0xD800) * 0x400 + (low - 0xDC00)) as char,
            )
        } else {
            decoded(units.drop_last()).push(low as char)
        }
    }
}

/// Nothing of a text is lost in UTF-16.
pub proof fn law_utf16_is_read_back(s: Seq<char>)
    ensures
        decoded(utf16(s)) == s,
    decreases s.len(),
{
    if s.len() > 0 {
        let front = s.drop_last();
        let c = s.last();
        law_utf16_is_read_back(front);
        let units = utf16(s);
        let n = c as u32;
        lemma_code(c);
        if n < 0x10000 {
            assert(units.drop_last() =~= utf16(front));
            assert(units.last() == n);
        } else {
            assert(units.take(units.len() - 2) =~= utf16(front));
            assert(units.last() == 0xDC00 + (n - 0x10000) % 0x400);
            assert(units[units.len() - 2] == 0xD800 + (n - 0x10000) / 0x400);
        }
        assert(decoded(units) =~= front.push(c));
        assert(s =~= front.push(c));
    }
}

} // verus!
