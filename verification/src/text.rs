//! Text helpers: character replacement, substring search and decimal numbers.

use vstd::prelude::*;
use vstd::utf8::{
    decode_utf8, encode_utf8, encode_utf8_decode_utf8, encode_utf8_valid_utf8, valid_utf8,
};

verus! {

/// `String::push` appends the given character to the end of the string.
pub assume_specification[ String::push ](s: &mut String, c: char)
    ensures
        final(s)@ == old(s)@.push(c),
;

/// The characters of a text, where there is one.
pub open spec fn text_view(text: Option<String>) -> Option<Seq<char>> {
    match text {
        Some(s) => Some(s@),
        None => None,
    }
}

/// The text that `String::from_utf8_lossy` makes of the bytes.
pub uninterp spec fn lossy_utf8(bytes: Seq<u8>) -> Seq<char>;

/// The bytes as text: decoded where they are UTF-8, and with replacements where they are not.
pub open spec fn lossy_text(bytes: Seq<u8>) -> Seq<char> {
    if valid_utf8(bytes) {
        decode_utf8(bytes)
    } else {
        lossy_utf8(bytes)
    }
}

/// `String::from_utf8_lossy`: the bytes as text, with a replacement character for each piece that
/// is not UTF-8. It depends on the bytes alone, and bytes that are UTF-8 are decoded as they are.
#[verifier::external_body]
pub(crate) fn from_utf8_lossy(bytes: &Vec<u8>) -> (res: String)
    ensures
        res@ == lossy_utf8(bytes@),
        valid_utf8(bytes@) ==> res@ == decode_utf8(bytes@),
{
    String::from_utf8_lossy(bytes).into_owned()
}

/// `s` with every occurrence of `from` turned into `to`.
pub open spec fn replaced(s: Seq<char>, from: char, to: char) -> Seq<char> {
    s.map_values(
        |c: char|
            if c == from {
                to
            } else {
                c
            },
    )
}

/// `pattern` stands somewhere in `s` as a contiguous run of characters.
pub open spec fn contains_text(s: Seq<char>, pattern: Seq<char>) -> bool {
    exists|at: int| occurs_at(s, pattern, at)
}

/// `pattern` stands in `s` from position `at` on.
pub open spec fn occurs_at(s: Seq<char>, pattern: Seq<char>, at: int) -> bool {
    &&& 0 <= at
    &&& at + pattern.len() <= s.len()
    &&& s.subrange(at, at + pattern.len()) =~= pattern
}

/// The decimal digit of `d`.
pub open spec fn digit(d: nat) -> char
    recommends
        d < 10,
{
    (48 + d) as char
}

/// `n` in decimal notation, without leading zeros.
pub open spec fn decimal(n: nat) -> Seq<char>
    decreases n,
{
    if n < 10 {
        seq![digit(n)]
    } else {
        decimal(n / 10).push(digit(n % 10))
    }
}

/// The characters of `s`, in order.
pub fn chars_of(s: &str) -> (chars: Vec<char>)
    ensures
        chars@ == s@,
{
    let mut chars: Vec<char> = Vec::new();
    for c in it: s.chars()
        invariant
            it.seq() == s@,
            chars@ == it.seq().take(it.index() as int),
    {
        chars.push(c);
    }
    chars
}

/// Replaces every `from` in `s` by `to`.
pub fn replace_char(s: &str, from: char, to: char) -> (res: String)
    ensures
        res@ == replaced(s@, from, to),
{
    let mut res = String::new();
    for c in it: s.chars()
        invariant
            it.seq() == s@,
            res@ == replaced(it.seq().take(it.index() as int), from, to),
    {
        let swapped = if c == from {
            to
        } else {
            c
        };
        res.push(swapped);
    }
    res
}

/// Whether the pattern stands in the text from position `at` on.
fn matches_at(text: &Vec<char>, pattern: &Vec<char>, at: usize) -> (res: bool)
    requires
        at + pattern@.len() <= text@.len(),
    ensures
        res == occurs_at(text@, pattern@, at as int),
{
    let total: usize = text.len();
    let mut i: usize = 0;
    while i < pattern.len()
        invariant
            at + pattern@.len() <= text@.len() == total,
            i <= pattern@.len(),
            forall|j: int| 0 <= j < i ==> text@[at + j] == pattern@[j],
        decreases pattern@.len() - i,
    {
        if text[at + i] != pattern[i] {
            assert(text@.subrange(at as int, at + pattern@.len())[i as int] == text@[at + i]);
            return false;
        }
        i += 1;
    }
    true
}

/// Whether `pattern` stands somewhere in `s`.
pub fn contains(s: &str, pattern: &str) -> (res: bool)
    ensures
        res == contains_text(s@, pattern@),
{
    let text = chars_of(s);
    let sought = chars_of(pattern);
    if sought.len() > text.len() {
        return false;
    }
    let last: usize = text.len() - sought.len();
    let mut at: usize = 0;
    loop
        invariant
            text@ == s@,
            sought@ == pattern@,
            last + sought@.len() == text@.len(),
            at <= last,
            forall|j: int| 0 <= j < at ==> !occurs_at(text@, sought@, j),
        decreases last - at,
    {
        if matches_at(&text, &sought, at) {
            return true;
        }
        if at == last {
            return false;
        }
        at += 1;
    }
}

/// Writes `n` in decimal notation.
pub fn decimal_text(n: u64) -> (res: String)
    ensures
        res@ == decimal(n as nat),
    decreases n,
{
    let unit: u8 = (n % 10) as u8;
    if n < 10 {
        let mut res = String::new();
        res.push((48 + unit) as char);
        assert(res@ =~= decimal(n as nat));
        res
    } else {
        let mut res = decimal_text(n / 10);
        res.push((48 + unit) as char);
        res
    }
}

/// Replacing touches the sought character alone: the result is as long as the text, has `to`
/// where the text has `from`, and the text's own character everywhere else.
pub proof fn law_replacing_touches_one_character(s: &str, from: char, to: char, res: String)
    requires
        call_ensures(replace_char, (s, from, to), res),
    ensures
        res@.len() == s@.len(),
        forall|i: int| 0 <= i < s@.len() && s@[i] == from ==> #[trigger] res@[i] == to,
        forall|i: int| 0 <= i < s@.len() && s@[i] != from ==> #[trigger] res@[i] == s@[i],
{
}

/// A text contains another exactly where it is that other one with something, or nothing, before
/// and behind it.
pub proof fn law_containing_is_having_as_a_part(s: &str, pattern: &str, res: bool)
    requires
        call_ensures(contains, (s, pattern), res),
    ensures
        res <==> exists|head: Seq<char>, tail: Seq<char>| s@ == #[trigger] (head + pattern@ + tail),
{
    lemma_contains_text(s@, pattern@);
}

pub(crate) proof fn lemma_contains_text(s: Seq<char>, pattern: Seq<char>)
    ensures
        contains_text(s, pattern) <==> exists|head: Seq<char>, tail: Seq<char>|
            s == #[trigger] (head + pattern + tail),
{
    if contains_text(s, pattern) {
        let at = choose|at: int| occurs_at(s, pattern, at);
        let head = s.subrange(0, at);
        let tail = s.subrange(at + pattern.len(), s.len() as int);
        assert(s.subrange(at, at + pattern.len()) =~= pattern);
        assert(s =~= head + s.subrange(at, at + pattern.len()) + tail);
        assert(s == head + pattern + tail);
    }
    if exists|head: Seq<char>, tail: Seq<char>| s == #[trigger] (head + pattern + tail) {
        let (head, tail) = choose|head: Seq<char>, tail: Seq<char>|
            s == #[trigger] (head + pattern + tail);
        let at = head.len() as int;
        assert(s.subrange(at, at + pattern.len()) =~= pattern);
        assert(occurs_at(s, pattern, at));
    }
}

/// Decimal notation, by what a further digit does: a number below ten is its digit, and ten times
/// a number other than zero, with `d` added to it, is that number's notation with the digit of
/// `d` behind it.
pub proof fn law_decimal_notation(n: nat, d: nat)
    requires
        d < 10,
    ensures
        decimal(d) == seq!["0123456789"@[d as int]],
        n > 0 ==> decimal(10 * n + d) == decimal(n).push("0123456789"@[d as int]),
{
    reveal_strlit("0123456789");
    assert((10 * n + d) / 10 == n);
    assert((10 * n + d) % 10 == d);
    assert(digit(d) == "0123456789"@[d as int]);
}

/// No two numbers are written alike.
pub proof fn law_decimal_tells_numbers_apart(a: nat, b: nat)
    requires
        decimal(a) == decimal(b),
    ensures
        a == b,
    decreases a,
{
    law_decimal_last(a);
    law_decimal_last(b);
    if a >= 10 && b >= 10 {
        assert(decimal(a).drop_last() =~= decimal(a / 10));
        assert(decimal(b).drop_last() =~= decimal(b / 10));
        law_decimal_tells_numbers_apart(a / 10, b / 10);
    }
}

/// The last digit of a number tells its rest by ten, and the others are those of its tenth part.
pub proof fn law_decimal_last(n: nat)
    ensures
        decimal(n).len() > 0,
        decimal(n).len() == 1 <==> n < 10,
        decimal(n).last() == "0123456789"@[(n % 10) as int],
        n >= 10 ==> decimal(n).drop_last() == decimal(n / 10),
    decreases n,
{
    reveal_strlit("0123456789");
    assert(digit(n % 10) == "0123456789"@[(n % 10) as int]);
    if n >= 10 {
        law_decimal_last(n / 10);
        assert(decimal(n).drop_last() =~= decimal(n / 10));
    }
}

/// Bytes that encode a text are read as that text, all of it; what is made of other bytes is for
/// the standard library to say.
pub proof fn law_lossy_text(text: Seq<char>, bytes: Seq<u8>)
    ensures
        lossy_text(encode_utf8(text)) == text,
        !valid_utf8(bytes) ==> lossy_text(bytes) == lossy_utf8(bytes),
{
    encode_utf8_valid_utf8(text);
    encode_utf8_decode_utf8(text);
}

/// The characters of an optional text are those of the text, and there are none where there is
/// no text.
pub proof fn law_text_view(s: String)
    ensures
        text_view(Some(s)) == Some(s@),
        text_view(None) is None,
{
}

} // verus!
