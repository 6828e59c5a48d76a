//! Plain text helpers: characters, UTF-8 widths, white space, trimming and
//! decimal numbers.
use vstd::prelude::*;
use vstd::utf8::*;

verus! {

/// `String::push` adds one character at the end.
pub assume_specification[ String::push ](target: &mut String, c: char)
    ensures
        final(target)@ == old(target)@.push(c),
;

/// Number of bytes of `c` in UTF-8.
pub open spec fn utf8_width(c: char) -> nat {
    if c as u32 <= 0x7f {
        1
    } else if c as u32 <= 0x7ff {
        2
    } else if c as u32 <= 0xffff {
        3
    } else {
        4
    }
}

/// Number of bytes of `s` in UTF-8.
pub open spec fn byte_len(s: Seq<char>) -> nat
    decreases s.len(),
{
    if s.len() == 0 {
        0
    } else {
        byte_len(s.drop_last()) + utf8_width(s.last())
    }
}

pub proof fn lemma_byte_len_concat(a: Seq<char>, b: Seq<char>)
    ensures
        byte_len(a + b) == byte_len(a) + byte_len(b),
    decreases b.len(),
{
    if b.len() == 0 {
        assert(a + b =~= a);
    } else {
        lemma_byte_len_concat(a, b.drop_last());
        assert((a + b).drop_last() =~= a + b.drop_last());
        assert((a + b).last() == b.last());
    }
}

pub proof fn lemma_encoded_len(s: Seq<char>)
    ensures
        encode_utf8(s).len() == byte_len(s),
    decreases s.len(),
{
    if s.len() > 0 {
        let head = seq![s[0]];
        let tail = s.drop_first();
        lemma_encoded_len(tail);
        lemma_byte_len_concat(head, tail);
        assert(head + tail =~= s);
        assert(head.drop_last() =~= Seq::<char>::empty());
        assert(byte_len(head.drop_last()) == 0);
        char_is_scalar(s[0]);
        reveal_with_fuel(byte_len, 2);
        assert(byte_len(head) == utf8_width(s[0]));
        assert(encode_scalar(s[0] as u32).len() == utf8_width(s[0]));
    }
}

/// Number of bytes of `c` in UTF-8.
pub fn len_utf8(c: char) -> (n: usize)
    ensures
        n == utf8_width(c),
{
    let code: u32 = c as u32;
    if code <= 0x7f {
        1
    } else if code <= 0x7ff {
        2
    } else if code <= 0xffff {
        3
    } else {
        4
    }
}

/// Number of bytes of `s` in UTF-8.
pub fn byte_count(s: &str) -> (n: usize)
    ensures
        n == byte_len(s@),
{
    let bytes = s.as_bytes();
    proof {
        lemma_encoded_len(s@);
    }
    bytes.len()
}

/// A shorter start of a text has no more bytes.
pub proof fn lemma_byte_len_take(s: Seq<char>, i: int, j: int)
    requires
        0 <= i <= j <= s.len(),
    ensures
        byte_len(s.take(i)) + (j - i) <= byte_len(s.take(j)),
        byte_len(s.take(j)) <= byte_len(s),
    decreases j - i,
{
    if i < j {
        lemma_byte_len_take(s, i, j - 1);
        assert(s.take(j).drop_last() =~= s.take(j - 1));
    }
    assert(s.take(j) + s.skip(j) =~= s);
    lemma_byte_len_concat(s.take(j), s.skip(j));
}

/// The characters of `s`, in order.
pub fn chars_of(s: &str) -> (chars: Vec<char>)
    ensures
        chars@ == s@,
        byte_len(s@) <= usize::MAX,
{
    let bytes = s.as_bytes();
    let size: usize = bytes.len();
    proof {
        lemma_encoded_len(s@);
        assert(size == byte_len(s@));
    }
    let mut chars: Vec<char> = Vec::new();
    for c in it: s.chars()
        invariant
            chars@ == s@.take(it.index() as int),
            it.seq() == s@,
    {
        chars.push(c);
    }
    assert(chars@ =~= s@);
    chars
}

/// The text that the characters `chars[from..to]` spell.
pub fn string_between(chars: &Vec<char>, from: usize, to: usize) -> (text: String)
    requires
        from <= to <= chars@.len(),
    ensures
        text@ == chars@.subrange(from as int, to as int),
{
    let mut text: String = String::new();
    let mut i: usize = from;
    while i < to
        invariant
            from <= i <= to <= chars@.len(),
            text@ == chars@.subrange(from as int, i as int),
        decreases to - i,
    {
        text.push(chars[i]);
        i += 1;
        assert(chars@.subrange(from as int, i as int).drop_last() =~= chars@.subrange(
            from as int,
            i - 1,
        ));
        assert(text@ =~= chars@.subrange(from as int, i as int));
    }
    assert(text@ =~= chars@.subrange(from as int, to as int));
    text
}

/// Whether two texts are the same.
pub fn same_text(a: &str, b: &str) -> (same: bool)
    ensures
        same == (a@ == b@),
{
    a.to_owned() == b.to_owned()
}

/// The characters with the Unicode property White_Space.
pub open spec fn is_space(c: char) -> bool {
    let code = c as u32;
    ||| 0x9 <= code <= 0xd
    ||| code == 0x20
    ||| code == 0x85
    ||| code == 0xa0
    ||| code == 0x1680
    ||| 0x2000 <= code <= 0x200a
    ||| code == 0x2028
    ||| code == 0x2029
    ||| code == 0x202f
    ||| code == 0x205f
    ||| code == 0x3000
}

/// Whether `c` is white space.
pub fn is_whitespace(c: char) -> (yes: bool)
    ensures
        yes == is_space(c),
{
    let code: u32 = c as u32;
    (0x9 <= code && code <= 0xd) || code == 0x20 || code == 0x85 || code == 0xa0 || code == 0x1680
        || (0x2000 <= code && code <= 0x200a) || code == 0x2028 || code == 0x2029 || code == 0x202f
        || code == 0x205f || code == 0x3000
}

/// Whether `s` holds white space only (or nothing).
pub open spec fn blank(s: Seq<char>) -> bool {
    forall|i: int| 0 <= i < s.len() ==> is_space(#[trigger] s[i])
}

/// `s` without the characters at its start that `p` holds of.
pub open spec fn without_prefix(s: Seq<char>, p: spec_fn(char) -> bool) -> Seq<char>
    decreases s.len(),
{
    if s.len() > 0 && p(s[0]) {
        without_prefix(s.drop_first(), p)
    } else {
        s
    }
}

/// `s` without the characters at its end that `p` holds of.
pub open spec fn without_suffix(s: Seq<char>, p: spec_fn(char) -> bool) -> Seq<char>
    decreases s.len(),
{
    if s.len() > 0 && p(s.last()) {
        without_suffix(s.drop_last(), p)
    } else {
        s
    }
}

/// `s` without white space at either end.
pub open spec fn trimmed(s: Seq<char>) -> Seq<char> {
    without_suffix(without_prefix(s, |c: char| is_space(c)), |c: char| is_space(c))
}

proof fn lemma_without_prefix(s: Seq<char>, p: spec_fn(char) -> bool, from: int)
    requires
        0 <= from <= s.len(),
        forall|i: int| 0 <= i < from ==> p(#[trigger] s[i]),
        from < s.len() ==> !p(s[from]),
    ensures
        without_prefix(s, p) == s.subrange(from, s.len() as int),
    decreases from,
{
    if from == 0 {
        assert(s.subrange(0, s.len() as int) =~= s);
    } else {
        let rest = s.drop_first();
        assert forall|i: int| 0 <= i < from - 1 implies p(#[trigger] rest[i]) by {
            assert(rest[i] == s[i + 1]);
        }
        assert(p(s[0]));
        lemma_without_prefix(rest, p, from - 1);
        assert(rest.subrange(from - 1, rest.len() as int) =~= s.subrange(from, s.len() as int));
    }
}

proof fn lemma_without_suffix(s: Seq<char>, p: spec_fn(char) -> bool, to: int)
    requires
        0 <= to <= s.len(),
        forall|i: int| to <= i < s.len() ==> p(#[trigger] s[i]),
        to > 0 ==> !p(s[to - 1]),
    ensures
        without_suffix(s, p) == s.subrange(0, to),
    decreases s.len() - to,
{
    if to == s.len() {
        assert(s.subrange(0, s.len() as int) =~= s);
    } else {
        let rest = s.drop_last();
        assert(p(s[s.len() - 1]));
        assert forall|i: int| to <= i < rest.len() implies p(#[trigger] rest[i]) by {
            assert(rest[i] == s[i]);
        }
        lemma_without_suffix(rest, p, to);
        assert(rest.subrange(0, to) =~= s.subrange(0, to));
    }
}

/// What is left of `s` where `p` holds of what stands before `from` and of what
/// stands at `to` or later, and neither bound can move inwards.
pub proof fn lemma_trim_bounds(s: Seq<char>, p: spec_fn(char) -> bool, from: int, to: int)
    requires
        0 <= from <= to <= s.len(),
        forall|i: int| 0 <= i < from ==> p(#[trigger] s[i]),
        forall|i: int| to <= i < s.len() ==> p(#[trigger] s[i]),
        from < s.len() ==> !p(s[from]),
        to > from ==> !p(s[to - 1]),
    ensures
        without_suffix(without_prefix(s, p), p) == s.subrange(from, to),
{
    lemma_without_prefix(s, p, from);
    let rest = s.subrange(from, s.len() as int);
    assert forall|i: int| to - from <= i < rest.len() implies p(#[trigger] rest[i]) by {
        assert(rest[i] == s[i + from]);
    }
    if to > from {
        assert(rest[to - from - 1] == s[to - 1]);
    }
    lemma_without_suffix(rest, p, to - from);
    assert(rest.subrange(0, to - from) =~= s.subrange(from, to));
}

/// Nothing is left of a text by trimming exactly when it is blank.
pub proof fn lemma_trimmed_blank(s: Seq<char>)
    ensures
        trimmed(s).len() == 0 <==> blank(s),
{
    let p = |c: char| is_space(c);
    let from = first_miss(s, p);
    lemma_without_prefix(s, p, from);
    let rest = s.subrange(from, s.len() as int);
    let to = last_miss(rest, p);
    lemma_without_suffix(rest, p, to);
    if from < s.len() {
        assert(!is_space(s[from]));
        assert(rest[0] == s[from]);
        assert(to > 0) by {
            if to == 0 {
                assert(p(rest[0]));
            }
        }
    } else {
        assert forall|i: int| 0 <= i < s.len() implies is_space(#[trigger] s[i]) by {
            assert(p(s[i]));
        }
    }
}

proof fn first_miss(s: Seq<char>, p: spec_fn(char) -> bool) -> (from: int)
    ensures
        0 <= from <= s.len(),
        forall|i: int| 0 <= i < from ==> p(#[trigger] s[i]),
        from < s.len() ==> !p(s[from]),
    decreases s.len(),
{
    if s.len() == 0 {
        0
    } else {
        let k = first_miss(s.drop_last(), p);
        let init = s.drop_last();
        assert forall|i: int| 0 <= i < k implies p(#[trigger] s[i]) by {
            assert(p(init[i]));
        }
        if k < init.len() {
            assert(init[k] == s[k]);
            k
        } else if p(s.last()) {
            s.len() as int
        } else {
            k
        }
    }
}

proof fn last_miss(s: Seq<char>, p: spec_fn(char) -> bool) -> (to: int)
    ensures
        0 <= to <= s.len(),
        forall|i: int| to <= i < s.len() ==> p(#[trigger] s[i]),
        to > 0 ==> !p(s[to - 1]),
    decreases s.len(),
{
    if s.len() > 0 && p(s.last()) {
        let to = last_miss(s.drop_last(), p);
        let init = s.drop_last();
        assert forall|i: int| to <= i < s.len() implies p(#[trigger] s[i]) by {
            if i < init.len() {
                assert(p(init[i]));
            }
        }
        if to > 0 {
            assert(init[to - 1] == s[to - 1]);
        }
        to
    } else {
        s.len() as int
    }
}

/// `s` without white space at either end.
pub fn trim(s: &str) -> (r: &str)
    ensures
        r@ == trimmed(s@),
{
    let chars = chars_of(s);
    let n: usize = chars.len();
    let ghost p = |c: char| is_space(c);
    let mut from: usize = 0;
    while from < n && is_whitespace(chars[from])
        invariant
            from <= n == chars@.len(),
            forall|i: int| 0 <= i < from ==> is_space(#[trigger] chars@[i]),
        decreases n - from,
    {
        from += 1;
    }
    let mut to: usize = n;
    while to > from && is_whitespace(chars[to - 1])
        invariant
            from <= to <= n == chars@.len(),
            forall|i: int| to <= i < n ==> is_space(#[trigger] chars@[i]),
        decreases to,
    {
        to -= 1;
    }
    proof {
        lemma_trim_bounds(s@, p, from as int, to as int);
    }
    s.substring_char(from, to)
}

/// Whether `s` holds white space only (or nothing).
pub fn is_blank(s: &str) -> (yes: bool)
    ensures
        yes == blank(s@),
{
    proof {
        lemma_trimmed_blank(s@);
    }
    trim(s).is_empty()
}

/// `pattern` stands in `s` at position `at`.
pub open spec fn occurs_at(s: Seq<char>, pattern: Seq<char>, at: int) -> bool {
    0 <= at && at + pattern.len() <= s.len() && s.subrange(at, at + pattern.len()) == pattern
}

/// The first position of `pattern` in `s`, if there is one.
pub open spec fn find(s: Seq<char>, pattern: Seq<char>) -> Option<int> {
    find_from(s, pattern, 0)
}

/// The first position of `pattern` in `s` at `from` or later, if there is one.
pub open spec fn find_from(s: Seq<char>, pattern: Seq<char>, from: int) -> Option<int>
    decreases s.len() + 1 - from,
{
    if from < 0 || from + pattern.len() > s.len() {
        None
    } else if occurs_at(s, pattern, from) {
        Some(from)
    } else {
        find_from(s, pattern, from + 1)
    }
}

/// Whether `pattern` stands in `chars` at position `at`.
pub fn stands_at(chars: &Vec<char>, pattern: &str, at: usize) -> (yes: bool)
    ensures
        yes == occurs_at(chars@, pattern@, at as int),
{
    let wanted = chars_of(pattern);
    if at > chars.len() || wanted.len() > chars.len() - at {
        return false;
    }
    let n: usize = chars.len();
    let mut i: usize = 0;
    while i < wanted.len()
        invariant
            i <= wanted@.len(),
            wanted@ == pattern@,
            at + wanted@.len() <= n == chars@.len(),
            chars@.subrange(at as int, at + i) == pattern@.take(i as int),
        decreases wanted@.len() - i,
    {
        if chars[at + i] != wanted[i] {
            assert(chars@.subrange(at as int, at + pattern@.len())[i as int] != pattern@[i as int]);
            return false;
        }
        i += 1;
        assert(chars@.subrange(at as int, at + i) =~= chars@.subrange(
            at as int,
            at + i - 1,
        ).push(chars@[at + i - 1]));
        assert(pattern@.take(i as int) =~= pattern@.take(i - 1).push(pattern@[i - 1]));
    }
    assert(pattern@.take(i as int) =~= pattern@);
    true
}

/// The first position of `pattern` in `chars` at `from` or later.
pub fn position_from(chars: &Vec<char>, pattern: &str, from: usize) -> (at: Option<usize>)
    ensures
        match at {
            Some(i) => find_from(chars@, pattern@, from as int) == Some(i as int) && i
                + pattern@.len() <= chars@.len() && from <= i,
            None => find_from(chars@, pattern@, from as int) is None,
        },
{
    let size: usize = pattern.unicode_len();
    let mut i: usize = from;
    while i <= chars.len() && size <= chars.len() - i
        invariant
            from <= i,
            i <= chars@.len() || i == from,
            size == pattern@.len(),
            find_from(chars@, pattern@, from as int) == find_from(chars@, pattern@, i as int),
        decreases chars@.len() + 1 - i,
    {
        if stands_at(chars, pattern, i) {
            return Some(i);
        }
        if i == chars.len() {
            assert(find_from(chars@, pattern@, i + 1) is None);
            return None;
        }
        i += 1;
    }
    None
}

/// The last position of `c` in `s`, if there is one.
pub open spec fn find_last(s: Seq<char>, c: char) -> Option<int>
    decreases s.len(),
{
    if s.len() == 0 {
        None
    } else if s.last() == c {
        Some(s.len() - 1)
    } else {
        find_last(s.drop_last(), c)
    }
}

/// The last position of `c` in `chars`.
pub fn last_position(chars: &Vec<char>, c: char) -> (at: Option<usize>)
    ensures
        match at {
            Some(i) => find_last(chars@, c) == Some(i as int) && i < chars@.len(),
            None => find_last(chars@, c) is None,
        },
{
    let mut n: usize = chars.len();
    assert(chars@.take(n as int) =~= chars@);
    while n > 0
        invariant
            n <= chars@.len(),
            find_last(chars@, c) == find_last(chars@.take(n as int), c),
        decreases n,
    {
        assert(chars@.take(n as int).last() == chars@[n - 1]);
        if chars[n - 1] == c {
            return Some(n - 1);
        }
        assert(chars@.take(n as int).drop_last() =~= chars@.take(n - 1));
        n -= 1;
    }
    None
}

/// `s` starts with `prefix`.
pub open spec fn has_prefix(s: Seq<char>, prefix: Seq<char>) -> bool {
    occurs_at(s, prefix, 0)
}

/// `s` ends with `suffix`.
pub open spec fn has_suffix(s: Seq<char>, suffix: Seq<char>) -> bool {
    occurs_at(s, suffix, s.len() - suffix.len())
}

/// What follows `prefix` in `s`, if `s` starts with it.
pub fn strip_prefix<'a>(s: &'a str, prefix: &str) -> (rest: Option<&'a str>)
    ensures
        rest is Some == has_prefix(s@, prefix@),
        rest matches Some(r) ==> r@ == s@.skip(prefix@.len() as int),
{
    let chars = chars_of(s);
    if stands_at(&chars, prefix, 0) {
        let rest = s.substring_char(prefix.unicode_len(), chars.len());
        assert(rest@ =~= s@.skip(prefix@.len() as int));
        Some(rest)
    } else {
        None
    }
}

/// What stands before `suffix` in `s`, if `s` ends with it.
pub fn strip_suffix<'a>(s: &'a str, suffix: &str) -> (rest: Option<&'a str>)
    ensures
        rest is Some == has_suffix(s@, suffix@),
        rest matches Some(r) ==> r@ == s@.take(s@.len() - suffix@.len()),
{
    let chars = chars_of(s);
    let size: usize = suffix.unicode_len();
    if size <= chars.len() && stands_at(&chars, suffix, chars.len() - size) {
        let rest = s.substring_char(0, chars.len() - size);
        assert(rest@ =~= s@.take(s@.len() - suffix@.len()));
        Some(rest)
    } else {
        None
    }
}

/// `c`, or its lower case form where `c` is an ASCII capital.
pub open spec fn ascii_lower(c: char) -> char {
    if 'A' <= c <= 'Z' {
        (c as u32 + 32) as char
    } else {
        c
    }
}

/// The texts differ at most in the case of ASCII letters.
pub open spec fn same_ignoring_ascii_case(a: Seq<char>, b: Seq<char>) -> bool {
    a.len() == b.len() && forall|i: int|
        0 <= i < a.len() ==> ascii_lower(#[trigger] a[i]) == ascii_lower(b[i])
}

/// The code of `c`, or of its lower case form where `c` is an ASCII capital.
fn ascii_lower_code(c: char) -> (code: u32)
    ensures
        code == ascii_lower(c) as u32,
{
    if 'A' <= c && c <= 'Z' {
        c as u32 + 32
    } else {
        c as u32
    }
}

/// Whether the texts differ at most in the case of ASCII letters.
pub fn eq_ignore_ascii_case(a: &str, b: &str) -> (same: bool)
    ensures
        same == same_ignoring_ascii_case(a@, b@),
{
    let left = chars_of(a);
    let right = chars_of(b);
    if left.len() != right.len() {
        return false;
    }
    let mut i: usize = 0;
    while i < left.len()
        invariant
            i <= left@.len() == right@.len(),
            left@ == a@,
            right@ == b@,
            forall|j: int| 0 <= j < i ==> ascii_lower(#[trigger] left@[j]) == ascii_lower(right@[j]),
        decreases left@.len() - i,
    {
        if ascii_lower_code(left[i]) != ascii_lower_code(right[i]) {
            assert(ascii_lower(a@[i as int]) != ascii_lower(b@[i as int]));
            return false;
        }
        i += 1;
    }
    true
}

/// `s` with its ASCII capitals in lower case.
pub open spec fn lowered(s: Seq<char>) -> Seq<char> {
    s.map_values(|c: char| ascii_lower(c))
}

/// `c`, or its lower case form where `c` is an ASCII capital.
pub fn to_lower(c: char) -> (r: char)
    ensures
        r == ascii_lower(c),
{
    match c {
        'A' => 'a',
        'B' => 'b',
        'C' => 'c',
        'D' => 'd',
        'E' => 'e',
        'F' => 'f',
        'G' => 'g',
        'H' => 'h',
        'I' => 'i',
        'J' => 'j',
        'K' => 'k',
        'L' => 'l',
        'M' => 'm',
        'N' => 'n',
        'O' => 'o',
        'P' => 'p',
        'Q' => 'q',
        'R' => 'r',
        'S' => 's',
        'T' => 't',
        'U' => 'u',
        'V' => 'v',
        'W' => 'w',
        'X' => 'x',
        'Y' => 'y',
        'Z' => 'z',
        _ => c,
    }
}

/// `s` with its ASCII capitals in lower case.
pub fn to_ascii_lowercase(s: &str) -> (r: String)
    ensures
        r@ == lowered(s@),
{
    let chars = chars_of(s);
    let mut r = String::new();
    let mut i: usize = 0;
    while i < chars.len()
        invariant
            i <= chars@.len(),
            chars@ == s@,
            r@ == lowered(s@).take(i as int),
        decreases chars@.len() - i,
    {
        r.push(to_lower(chars[i]));
        i += 1;
        assert(r@ =~= lowered(s@).take(i as int));
    }
    assert(r@ =~= lowered(s@));
    r
}

/// `pattern` stands somewhere in `s`.
pub open spec fn has(s: Seq<char>, pattern: Seq<char>) -> bool {
    find(s, pattern) is Some
}

/// Whether `pattern` stands somewhere in `s`.
pub fn contains(s: &str, pattern: &str) -> (yes: bool)
    ensures
        yes == has(s@, pattern@),
{
    position_from(&chars_of(s), pattern, 0).is_some()
}

/// Whether `s` starts with `prefix`.
pub fn starts_with(s: &str, prefix: &str) -> (yes: bool)
    ensures
        yes == has_prefix(s@, prefix@),
{
    stands_at(&chars_of(s), prefix, 0)
}

/// The first position of `c` in `s` at `from` or later; the length of `s` where
/// there is none.
pub open spec fn char_from(s: Seq<char>, c: char, from: int) -> int
    decreases s.len() - from,
{
    if 0 <= from < s.len() && s[from] != c {
        char_from(s, c, from + 1)
    } else {
        from
    }
}

/// The first position of `c` in `chars` at `from` or later.
pub fn char_position(chars: &Vec<char>, c: char, from: usize) -> (at: usize)
    requires
        from <= chars@.len(),
    ensures
        at == char_from(chars@, c, from as int),
        from <= at <= chars@.len(),
        at < chars@.len() ==> chars@[at as int] == c,
{
    let mut i: usize = from;
    while i < chars.len() && chars[i] != c
        invariant
            from <= i <= chars@.len(),
            char_from(chars@, c, from as int) == char_from(chars@, c, i as int),
        decreases chars@.len() - i,
    {
        i += 1;
    }
    i
}

/// `line` without a carriage return at its end.
pub open spec fn without_cr(line: Seq<char>) -> Seq<char> {
    if line.len() > 0 && line.last() == '\r' {
        line.drop_last()
    } else {
        line
    }
}

/// The lines of `s` from `from` on: each ends before a line feed, or before
/// the carriage return in front of it; the last one ends with the text.
pub open spec fn lines_from(s: Seq<char>, from: int) -> Seq<Seq<char>>
    decreases s.len() - from,
{
    if from < 0 || from >= s.len() {
        Seq::empty()
    } else {
        let end = char_from(s, '\n', from);
        if from <= end < s.len() {
            seq![without_cr(s.subrange(from, end))] + lines_from(s, end + 1)
        } else {
            seq![s.subrange(from, s.len() as int)]
        }
    }
}

/// The lines of `s`.
pub open spec fn lines_of(s: Seq<char>) -> Seq<Seq<char>> {
    lines_from(s, 0)
}

/// The lines of `s`.
pub fn lines(s: &str) -> (list: Vec<String>)
    ensures
        texts(list@) == lines_of(s@),
{
    let chars = chars_of(s);
    let mut list: Vec<String> = Vec::new();
    let mut from: usize = 0;
    let n: usize = chars.len();
    assert(texts(list@) =~= Seq::<Seq<char>>::empty());
    assert(texts(list@) + lines_from(s@, 0) =~= lines_of(s@));
    while from < n
        invariant
            from <= n == chars@.len(),
            chars@ == s@,
            texts(list@) + lines_from(s@, from as int) == lines_of(s@),
        decreases n - from,
    {
        let end: usize = char_position(&chars, '\n', from);
        let ghost earlier = list@;
        if end < n {
            let to: usize = if end > from && chars[end - 1] == '\r' {
                end - 1
            } else {
                end
            };
            let line = string_between(&chars, from, to);
            assert(line@ =~= without_cr(s@.subrange(from as int, end as int)));
            list.push(line);
            assert(texts(list@) =~= texts(earlier).push(line@));
            assert(texts(list@) + lines_from(s@, end + 1) =~= texts(earlier) + lines_from(
                s@,
                from as int,
            ));
            from = end + 1;
        } else {
            let line = string_between(&chars, from, n);
            list.push(line);
            assert(texts(list@) =~= texts(earlier).push(line@));
            assert(lines_from(s@, n as int) =~= Seq::<Seq<char>>::empty());
            assert(texts(list@) + lines_from(s@, n as int) =~= texts(earlier) + lines_from(
                s@,
                from as int,
            ));
            from = n;
        }
    }
    assert(texts(list@) + lines_from(s@, n as int) =~= texts(list@));
    list
}

/// The words of `s` from `from` on, as white space parts them.
pub open spec fn words_from(s: Seq<char>, from: int) -> Seq<Seq<char>>
    decreases s.len() - from,
{
    if from < 0 || from >= s.len() {
        Seq::empty()
    } else if is_space(s[from]) {
        words_from(s, from + 1)
    } else {
        let end = space_from(s, from);
        if from < end <= s.len() {
            seq![s.subrange(from, end)] + words_from(s, end)
        } else {
            Seq::empty()
        }
    }
}

/// The first position at `from` or later of white space, or the end of `s`.
pub open spec fn space_from(s: Seq<char>, from: int) -> int
    decreases s.len() - from,
{
    if 0 <= from < s.len() && !is_space(s[from]) {
        space_from(s, from + 1)
    } else {
        from
    }
}

/// The words of `s`, as white space parts them.
pub open spec fn words_of(s: Seq<char>) -> Seq<Seq<char>> {
    words_from(s, 0)
}

fn space_position(chars: &Vec<char>, from: usize) -> (at: usize)
    requires
        from <= chars@.len(),
    ensures
        at == space_from(chars@, from as int),
        from <= at <= chars@.len(),
        from < chars@.len() && !is_space(chars@[from as int]) ==> from < at,
{
    let mut i: usize = from;
    while i < chars.len() && !is_whitespace(chars[i])
        invariant
            from <= i <= chars@.len(),
            space_from(chars@, from as int) == space_from(chars@, i as int),
            i == from || (from < i),
        decreases chars@.len() - i,
    {
        i += 1;
    }
    i
}

/// The words of `s`, as white space parts them.
pub fn words(s: &str) -> (list: Vec<String>)
    ensures
        texts(list@) == words_of(s@),
{
    let chars = chars_of(s);
    let mut list: Vec<String> = Vec::new();
    let mut from: usize = 0;
    let n: usize = chars.len();
    assert(texts(list@) + words_from(s@, 0) =~= words_of(s@));
    while from < n
        invariant
            from <= n == chars@.len(),
            chars@ == s@,
            texts(list@) + words_from(s@, from as int) == words_of(s@),
        decreases n - from,
    {
        if is_whitespace(chars[from]) {
            from += 1;
        } else {
            let end: usize = space_position(&chars, from);
            let ghost earlier = list@;
            let word = string_between(&chars, from, end);
            list.push(word);
            assert(texts(list@) =~= texts(earlier).push(word@));
            assert(texts(list@) + words_from(s@, end as int) =~= texts(earlier) + words_from(
                s@,
                from as int,
            ));
            from = end;
        }
    }
    assert(texts(list@) + words_from(s@, n as int) =~= texts(list@));
    list
}

/// The digit `d` as a character.
pub open spec fn digit(d: nat) -> char
    recommends
        d < 10,
{
    (('0' as u32) + d) as char
}

/// `n` in decimal.
pub open spec fn decimal(n: nat) -> Seq<char>
    decreases n,
{
    if n < 10 {
        seq![digit(n)]
    } else {
        decimal(n / 10).push(digit(n % 10))
    }
}

/// `n` in decimal, with a minus sign where it is negative.
pub open spec fn signed_decimal(n: int) -> Seq<char> {
    if n < 0 {
        seq!['-'] + decimal((-n) as nat)
    } else {
        decimal(n as nat)
    }
}

fn digit_char(d: u64) -> (c: char)
    requires
        d < 10,
    ensures
        c == digit(d as nat),
{
    match d {
        0 => '0',
        1 => '1',
        2 => '2',
        3 => '3',
        4 => '4',
        5 => '5',
        6 => '6',
        7 => '7',
        8 => '8',
        _ => '9',
    }
}

/// `n` in decimal.
pub fn number_text(n: u64) -> (text: String)
    ensures
        text@ == decimal(n as nat),
    decreases n,
{
    if n < 10 {
        let mut text = String::new();
        text.push(digit_char(n));
        assert(text@ =~= seq![digit(n as nat)]);
        text
    } else {
        let mut text = number_text(n / 10);
        text.push(digit_char(n % 10));
        text
    }
}

/// `n` in decimal, with a minus sign where it is negative.
pub fn signed_number_text(n: i64) -> (text: String)
    ensures
        text@ == signed_decimal(n as int),
{
    if n < 0 {
        let mut text = String::new();
        text.push('-');
        let size: u64 = if n == i64::MIN {
            0x8000_0000_0000_0000u64
        } else {
            (-n) as u64
        };
        text.append(number_text(size).as_str());
        assert(text@ =~= seq!['-'] + decimal((-n) as nat));
        text
    } else {
        number_text(n as u64)
    }
}

/// `c` is an ASCII digit.
pub open spec fn is_digit(c: char) -> bool {
    '0' <= c <= '9'
}

/// `s` holds ASCII digits only.
pub open spec fn all_digits(s: Seq<char>) -> bool {
    forall|i: int| 0 <= i < s.len() ==> is_digit(#[trigger] s[i])
}

/// The number that the digits `s` spell.
pub open spec fn digits_value(s: Seq<char>) -> nat
    decreases s.len(),
{
    if s.len() == 0 {
        0
    } else {
        digits_value(s.drop_last()) * 10 + (s.last() as u32 - '0' as u32) as nat
    }
}

/// The number that `s` spells in decimal, with or without a sign.
pub open spec fn spelled_number(s: Seq<char>) -> Option<int> {
    let signed = s.len() > 0 && (s[0] == '+' || s[0] == '-');
    let digits = if signed {
        s.skip(1)
    } else {
        s
    };
    if digits.len() == 0 || !all_digits(digits) {
        None
    } else if signed && s[0] == '-' {
        Some(-(digits_value(digits) as int))
    } else {
        Some(digits_value(digits) as int)
    }
}

/// The number that `s` spells in decimal, where it fits into 32 bits.
pub open spec fn spelled_i32(s: Seq<char>) -> Option<i32> {
    match spelled_number(s) {
        Some(n) => if i32::MIN <= n <= i32::MAX {
            Some(n as i32)
        } else {
            None
        },
        None => None,
    }
}

/// The number that `s` spells in decimal, where it fits into 32 bits.
#[verifier::loop_isolation(false)]
pub fn parse_i32(s: &str) -> (n: Option<i32>)
    ensures
        n == spelled_i32(s@),
{
    let chars = chars_of(s);
    let count: usize = chars.len();
    let signed: bool = count > 0 && (chars[0] == '+' || chars[0] == '-');
    let from: usize = if signed {
        1
    } else {
        0
    };
    let ghost digits = if signed {
        s@.skip(1)
    } else {
        s@
    };
    assert(digits =~= s@.skip(from as int));
    if from == count {
        return None;
    }
    let limit: i64 = 0x8000_0000;
    let mut value: i64 = 0;
    let mut over: bool = false;
    let mut i: usize = from;
    assert(digits.take(0) =~= Seq::<char>::empty());
    while i < count
        invariant
            from <= i <= count == chars@.len(),
            chars@ == s@,
            digits == s@.skip(from as int),
            limit == 0x8000_0000,
            0 <= value <= limit,
            !over ==> value == digits_value(digits.take(i - from)),
            over ==> digits_value(digits.take(i - from)) > limit,
            forall|j: int| 0 <= j < i - from ==> is_digit(#[trigger] digits[j]),
        decreases count - i,
    {
        let c = chars[i];
        assert(digits[i - from] == c);
        if !('0' <= c && c <= '9') {
            assert(!is_digit(digits[i - from]));
            return None;
        }
        let d: i64 = (c as u32 - '0' as u32) as i64;
        proof {
            assert(digits.take(i - from + 1).drop_last() =~= digits.take(i - from));
            assert(digits.take(i - from + 1).last() == c);
            assert(digits_value(digits.take(i - from + 1)) == digits_value(digits.take(i - from))
                * 10 + d);
        }
        if !over {
            let next: i64 = value * 10 + d;
            if next > limit {
                over = true;
            } else {
                value = next;
            }
        }
        i += 1;
    }
    assert(digits.take(i - from) =~= digits);
    if over {
        None
    } else if signed && chars[0] == '-' {
        Some((-value) as i32)
    } else if value < limit {
        Some(value as i32)
    } else {
        None
    }
}

/// The texts of a list of strings.
pub open spec fn texts(list: Seq<String>) -> Seq<Seq<char>> {
    list.map_values(|text: String| text@)
}

/// The texts one after the other.
pub fn concat3(a: &str, b: &str, c: &str) -> (text: String)
    ensures
        text@ == a@ + b@ + c@,
{
    let mut text = a.to_owned();
    text.append(b);
    text.append(c);
    text
}

/// `s`, or its first `n` characters followed by `mark` where it has more.
pub open spec fn shortened(s: Seq<char>, n: int, mark: Seq<char>) -> Seq<char> {
    if s.len() <= n {
        s
    } else {
        s.take(n) + mark
    }
}

/// `s`, or its first `n` characters followed by `mark` where it has more.
pub fn shorten(s: &str, n: usize, mark: &str) -> (r: String)
    ensures
        r@ == shortened(s@, n as int, mark@),
{
    if s.unicode_len() <= n {
        s.to_owned()
    } else {
        let mut r = s.substring_char(0, n).to_owned();
        r.append(mark);
        assert(r@ =~= s@.take(n as int) + mark@);
        r
    }
}

/// `n`, or the largest number that fits where `n` does not.
pub open spec fn fitting(n: int) -> int {
    if n > usize::MAX {
        usize::MAX as int
    } else {
        n
    }
}

/// A copy of a text that may be there.
pub fn clone_text(source: &Option<String>) -> (copy: Option<String>)
    ensures
        copy == *source,
{
    match source {
        Some(text) => Some(text.clone()),
        None => None,
    }
}

} // verus!
