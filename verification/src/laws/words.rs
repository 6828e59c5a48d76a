//! What the operations on texts and values do, in terms of the texts and values.
use crate::json;
use crate::json::{Json, JsonView};
use crate::text;
use crate::text::{
    eq_ignore_ascii_case, lines, number_text, parse_i32, shorten, signed_number_text, trim, words,
};
use vstd::prelude::*;

verus! {

proof fn lemma_prefix_dropped(s: Seq<char>, p: spec_fn(char) -> bool)
    ensures
        ({
            let rest = text::without_prefix(s, p);
            &&& rest.len() <= s.len()
            &&& rest == s.skip(s.len() - rest.len())
            &&& forall|i: int| 0 <= i < s.len() - rest.len() ==> p(#[trigger] s[i])
            &&& rest.len() > 0 ==> !p(rest[0])
        }),
    decreases s.len(),
{
    if s.len() > 0 && p(s[0]) {
        lemma_prefix_dropped(s.drop_first(), p);
        let rest = text::without_prefix(s.drop_first(), p);
        assert(rest =~= s.skip(s.len() - rest.len()));
        assert forall|i: int| 0 <= i < s.len() - rest.len() implies p(#[trigger] s[i]) by {
            if i > 0 {
                assert(s.drop_first()[i - 1] == s[i]);
            }
        }
    } else {
        assert(s =~= s.skip(0));
    }
}

proof fn lemma_suffix_dropped(s: Seq<char>, p: spec_fn(char) -> bool)
    ensures
        ({
            let rest = text::without_suffix(s, p);
            &&& rest.len() <= s.len()
            &&& rest == s.take(rest.len() as int)
            &&& forall|i: int| rest.len() <= i < s.len() ==> p(#[trigger] s[i])
            &&& rest.len() > 0 ==> !p(rest.last())
        }),
    decreases s.len(),
{
    if s.len() > 0 && p(s.last()) {
        lemma_suffix_dropped(s.drop_last(), p);
        let rest = text::without_suffix(s.drop_last(), p);
        assert(rest =~= s.take(rest.len() as int));
        assert forall|i: int| rest.len() <= i < s.len() implies p(#[trigger] s[i]) by {
            if i < s.len() - 1 {
                assert(s.drop_last()[i] == s[i]);
            }
        }
    } else {
        assert(s =~= s.take(s.len() as int));
    }
}

/// Trimming takes the white space off both ends, and nothing else: what is left
/// stands in the text with white space alone around it, and neither begins nor
/// ends with any.
pub proof fn law_trimming_takes_white_space_off(s: &str, r: &str)
    requires
        call_ensures(trim, (s,), r),
    ensures
        exists|before: Seq<char>, after: Seq<char>|
            s@ == #[trigger] (before + r@ + after) && text::blank(before) && text::blank(after),
        r@.len() > 0 ==> !text::is_space(r@[0]) && !text::is_space(r@.last()),
        text::blank(s@) <==> r@.len() == 0,
{
    let p = |c: char| text::is_space(c);
    let rest = text::without_prefix(s@, p);
    lemma_prefix_dropped(s@, p);
    lemma_suffix_dropped(rest, p);
    let before = s@.take(s@.len() - rest.len());
    let after = rest.skip(r@.len() as int);
    assert(s@ =~= before + r@ + after);
    assert forall|i: int| 0 <= i < before.len() implies text::is_space(#[trigger] before[i]) by {
        assert(p(s@[i]));
    }
    assert forall|i: int| 0 <= i < after.len() implies text::is_space(#[trigger] after[i]) by {
        assert(p(rest[r@.len() + i]));
    }
    assert(text::blank(before) && text::blank(after));
    if r@.len() == 0 {
        assert forall|i: int| 0 <= i < s@.len() implies text::is_space(#[trigger] s@[i]) by {
            if i < before.len() {
                assert(text::is_space(before[i]));
            } else {
                assert(text::is_space(after[i - before.len()]));
            }
        }
    } else {
        assert(s@[before.len() as int] == r@[0]);
        assert(!p(rest[0]));
        assert(rest[0] == r@[0]);
    }
}

/// The white space that is trimmed: the blank, the controls from tab to return,
/// and no visible character.
pub proof fn law_white_space(c: char)
    ensures
        text::is_space(' ') && text::is_space('\t') && text::is_space('\n') && text::is_space('\r'),
        '!' <= c <= '~' ==> !text::is_space(c),
{
}

/// A pattern is found where it first stands, and not found exactly where it does
/// not stand at all.
pub proof fn law_patterns_are_found_where_they_first_stand(s: Seq<char>, pattern: Seq<char>)
    ensures
        match text::find(s, pattern) {
            Some(at) => {
                &&& 0 <= at
                &&& at + pattern.len() <= s.len()
                &&& s.subrange(at, at + pattern.len()) == pattern
                &&& forall|i: int|
                    0 <= i < at ==> #[trigger] s.subrange(i, i + pattern.len()) != pattern
            },
            None => forall|i: int|
                0 <= i && i + pattern.len() <= s.len() ==> #[trigger] s.subrange(
                    i,
                    i + pattern.len(),
                ) != pattern,
        },
{
    lemma_find_from(s, pattern, 0);
}

proof fn lemma_find_from(s: Seq<char>, pattern: Seq<char>, from: int)
    requires
        0 <= from,
    ensures
        match text::find_from(s, pattern, from) {
            Some(at) => {
                &&& from <= at
                &&& at + pattern.len() <= s.len()
                &&& s.subrange(at, at + pattern.len()) == pattern
                &&& forall|i: int|
                    from <= i < at ==> #[trigger] s.subrange(i, i + pattern.len()) != pattern
            },
            None => forall|i: int|
                from <= i && i + pattern.len() <= s.len() ==> #[trigger] s.subrange(
                    i,
                    i + pattern.len(),
                ) != pattern,
        },
    decreases s.len() + 1 - from,
{
    if from + pattern.len() <= s.len() && !text::occurs_at(s, pattern, from) {
        lemma_find_from(s, pattern, from + 1);
    }
}

/// The last place of a character is one where it stands, with none behind it.
pub proof fn law_last_places_are_last(s: Seq<char>, c: char)
    ensures
        match text::find_last(s, c) {
            Some(at) => 0 <= at < s.len() && s[at] == c && forall|i: int|
                at < i < s.len() ==> #[trigger] s[i] != c,
            None => forall|i: int| 0 <= i < s.len() ==> #[trigger] s[i] != c,
        },
    decreases s.len(),
{
    if s.len() > 0 && s.last() != c {
        law_last_places_are_last(s.drop_last(), c);
        assert forall|i: int| 0 <= i < s.len() - 1 implies s.drop_last()[i] == #[trigger] s[i] by {}
        match text::find_last(s, c) {
            Some(at) => {
                assert(s.drop_last()[at] == s[at]);
            },
            None => {
                assert forall|i: int| 0 <= i < s.len() implies #[trigger] s[i] != c by {
                    if i < s.len() - 1 {
                        assert(s.drop_last()[i] == s[i]);
                    }
                }
            },
        }
    }
}

/// A text begins with another exactly where it is that other and something more,
/// and it ends with one likewise.
pub proof fn law_prefixes_and_suffixes(part: Seq<char>, more: Seq<char>, s: Seq<char>)
    ensures
        text::has_prefix(part + more, part),
        text::has_suffix(more + part, part),
        text::has_prefix(s, part) ==> s == part + s.skip(part.len() as int),
        text::has_suffix(s, part) ==> s == s.take(s.len() - part.len()) + part,
{
    assert((part + more).subrange(0, part.len() as int) =~= part);
    assert((more + part).subrange(more.len() as int, (more + part).len() as int) =~= part);
    if text::has_prefix(s, part) {
        assert(s =~= s.subrange(0, part.len() as int) + s.skip(part.len() as int));
    }
    if text::has_suffix(s, part) {
        assert(s =~= s.take(s.len() - part.len()) + s.subrange(
            s.len() - part.len(),
            s.len() as int,
        ));
    }
}

proof fn lemma_char_from(s: Seq<char>, c: char, from: int)
    requires
        0 <= from <= s.len(),
    ensures
        from <= text::char_from(s, c, from) <= s.len(),
        forall|i: int| from <= i < text::char_from(s, c, from) ==> #[trigger] s[i] != c,
        text::char_from(s, c, from) < s.len() ==> s[text::char_from(s, c, from)] == c,
    decreases s.len() - from,
{
    if from < s.len() && s[from] != c {
        lemma_char_from(s, c, from + 1);
    }
}

/// A text is its first line, a line break, and the lines of the rest; a return
/// before the break belongs to the break.
pub proof fn law_lines_end_at_breaks(line: Seq<char>, rest: Seq<char>)
    requires
        !line.contains('\n'),
        line.len() > 0 ==> line.last() != '\r',
    ensures
        text::lines_of(line + seq!['\n'] + rest) == seq![line] + text::lines_of(rest),
        text::lines_of(line + seq!['\r', '\n'] + rest) == seq![line] + text::lines_of(rest),
        line.len() > 0 ==> text::lines_of(line) == seq![line],
        text::lines_of(Seq::empty()).len() == 0,
{
    let a = line + seq!['\n'] + rest;
    let n = line.len() as int;
    assert(a[n] == '\n');
    lemma_first_break(a, n);
    assert(a.subrange(0, n) =~= line);
    lemma_lines_shift(a, n + 1, rest);
    let b = line + seq!['\r', '\n'] + rest;
    assert(b[n + 1] == '\n');
    assert(b[n] == '\r');
    lemma_first_break(b, n + 1);
    assert(b.subrange(0, n + 1).drop_last() =~= line);
    lemma_lines_shift(b, n + 2, rest);
    if n > 0 {
        lemma_char_from(line, '\n', 0);
        let at = text::char_from(line, '\n', 0);
        if at < n {
            assert(line.contains(line[at]));
        }
        assert(line.subrange(0, n) =~= line);
        assert(text::lines_of(line) =~= seq![line]);
    }
}

proof fn lemma_first_break(s: Seq<char>, at: int)
    requires
        0 <= at < s.len(),
        s[at] == '\n',
        forall|i: int| 0 <= i < at ==> #[trigger] s[i] != '\n',
    ensures
        text::char_from(s, '\n', 0) == at,
{
    lemma_char_from(s, '\n', 0);
}

proof fn lemma_char_shift(s: Seq<char>, c: char, by: int, rest: Seq<char>, from: int)
    requires
        0 <= by <= s.len(),
        s.skip(by) == rest,
        0 <= from <= rest.len(),
    ensures
        text::char_from(s, c, by + from) == by + text::char_from(rest, c, from),
    decreases rest.len() - from,
{
    if from < rest.len() {
        assert(s.skip(by)[from] == s[by + from]);
        if rest[from] != c {
            lemma_char_shift(s, c, by, rest, from + 1);
        }
    }
}

proof fn lemma_lines_shift_from(s: Seq<char>, by: int, rest: Seq<char>, from: int)
    requires
        0 <= by <= s.len(),
        s.skip(by) == rest,
        0 <= from <= rest.len(),
    ensures
        text::lines_from(s, by + from) == text::lines_from(rest, from),
    decreases rest.len() - from,
{
    if from < rest.len() {
        lemma_char_shift(s, '\n', by, rest, from);
        lemma_char_from(rest, '\n', from);
        let end = text::char_from(rest, '\n', from);
        assert(s.subrange(by + from, by + end) =~= rest.subrange(from, end));
        if end < rest.len() {
            lemma_lines_shift_from(s, by, rest, end + 1);
        } else {
            assert(s.subrange(by + from, s.len() as int) =~= rest.subrange(
                from,
                rest.len() as int,
            ));
        }
    }
}

proof fn lemma_lines_shift(s: Seq<char>, by: int, rest: Seq<char>)
    requires
        0 <= by <= s.len(),
        s.skip(by) =~= rest,
    ensures
        text::lines_from(s, by) == text::lines_of(rest),
{
    lemma_lines_shift_from(s, by, rest, 0);
}

/// The decimal of a number is made of digits and reads as that number.
pub proof fn law_decimals_read_back(n: nat)
    ensures
        text::decimal(n).len() > 0,
        text::all_digits(text::decimal(n)),
        text::digits_value(text::decimal(n)) == n,
        n > 0 ==> text::decimal(n)[0] != '0',
    decreases n,
{
    if n < 10 {
        assert(text::decimal(n).drop_last() =~= Seq::empty());
        assert(text::digits_value(Seq::empty()) == 0);
    } else {
        law_decimals_read_back(n / 10);
        let front = text::decimal(n / 10);
        assert(text::decimal(n).drop_last() =~= front);
        assert(text::decimal(n)[0] == front[0]);
        assert forall|i: int| 0 <= i < text::decimal(n).len() implies text::is_digit(
            #[trigger] text::decimal(n)[i],
        ) by {
            if i < front.len() {
                assert(text::is_digit(front[i]));
            }
        }
    }
}

/// A number is read from its text, with its sign.
pub proof fn law_numbers_read_back(n: i32, s: &str, r: Option<i32>)
    requires
        s@ == text::signed_decimal(n as int),
        call_ensures(parse_i32, (s,), r),
    ensures
        r == Some(n),
{
    if n < 0 {
        let digits = text::decimal((-n) as nat);
        law_decimals_read_back((-n) as nat);
        assert(s@.skip(1) =~= digits);
        assert(s@[0] == '-');
    } else {
        law_decimals_read_back(n as nat);
        assert(text::is_digit(text::decimal(n as nat)[0]));
    }
}

/// A text of anything but digits behind a sign is no number.
pub proof fn law_other_texts_are_no_numbers(s: &str, r: Option<i32>, i: int)
    requires
        call_ensures(parse_i32, (s,), r),
        s@.len() == 0 || 0 <= i < s@.len() && !('0' <= s@[i] <= '9') && !(i == 0 && (s@[0] == '-'
            || s@[0] == '+')),
    ensures
        r is None,
{
    if s@.len() > 0 {
        if s@[0] == '+' || s@[0] == '-' {
            assert(s@.skip(1)[i - 1] == s@[i]);
        }
    }
}

/// A shortened text is the text itself where it is short enough, and else its
/// beginning with a mark.
pub proof fn law_long_texts_are_cut(s: &str, n: usize, mark: &str, r: String)
    requires
        call_ensures(shorten, (s, n, mark), r),
    ensures
        s@.len() <= n ==> r@ == s@,
        s@.len() > n ==> r@.len() == n + mark@.len() && r@.take(n as int) == s@.take(n as int)
            && r@.skip(n as int) == mark@,
{
}

/// Texts that differ in the case of ASCII letters alone are the same.
pub proof fn law_case_is_ignored(a: char, b: char)
    ensures
        'a' <= a <= 'z' && b == (a as u32 - 32) as char ==> text::same_ignoring_ascii_case(
            seq![a],
            seq![b],
        ),
        text::same_ignoring_ascii_case(seq![a], seq![a]),
        text::same_ignoring_ascii_case(seq![a], seq![b]) && !('A' <= a <= 'Z') && !('A' <= b
            <= 'Z') ==> a == b,
{
    if text::same_ignoring_ascii_case(seq![a], seq![b]) {
        assert(text::ascii_lower(seq![a][0]) == text::ascii_lower(seq![b][0]));
    }
}

/// A member of an object is the value that first stands under its name; where
/// none does, and of anything but an object, there is none.
pub proof fn law_members_are_found_by_name(members: Seq<(Seq<char>, JsonView)>, key: Seq<char>)
    ensures
        match JsonView::Object(members).get(key) {
            Some(value) => exists|i: int|
                0 <= i < members.len() && #[trigger] members[i] == (key, value) && forall|j: int|
                    0 <= j < i ==> (#[trigger] members[j]).0 != key,
            None => forall|i: int| 0 <= i < members.len() ==> (#[trigger] members[i]).0 != key,
        },
        JsonView::Null.get(key) is None,
        forall|items: Seq<JsonView>| #[trigger] JsonView::Array(items).get(key) is None,
        forall|text: Seq<char>| #[trigger] JsonView::Text(text).get(key) is None,
{
    lemma_member(members, key, 0);
}

proof fn lemma_member(members: Seq<(Seq<char>, JsonView)>, key: Seq<char>, from: int)
    requires
        0 <= from <= members.len(),
    ensures
        match json::member_from(members, key, from) {
            Some(value) => exists|i: int|
                from <= i < members.len() && #[trigger] members[i] == (key, value) && forall|
                    j: int,
                |
                    from <= j < i ==> (#[trigger] members[j]).0 != key,
            None => forall|i: int| from <= i < members.len() ==> (#[trigger] members[i]).0 != key,
        },
    decreases members.len() - from,
{
    if from < members.len() {
        if members[from].0 == key {
            assert(members[from] == (key, members[from].1));
        } else {
            lemma_member(members, key, from + 1);
            if let Some(value) = json::member_from(members, key, from + 1) {
                let i = choose|i: int|
                    from + 1 <= i < members.len() && #[trigger] members[i] == (key, value)
                        && forall|j: int|
                        from + 1 <= j < i ==> (#[trigger] members[j]).0 != key;
                assert(members[i] == (key, value));
                assert forall|j: int| from <= j < i implies (#[trigger] members[j]).0 != key by {
                    if j > from {
                    }
                }
            }
        }
    }
}

} // verus!
