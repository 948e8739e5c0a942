//! Text as a sequence of characters: white space, leading words, suffixes.

use vstd::prelude::*;
use vstd::string::StringExecFns;

verus! {

/// Whether `c` has the Unicode property `White_Space`.
pub open spec fn is_white_space(c: char) -> bool {
    let n = c as u32;
    ||| 0x9 <= n <= 0xd
    ||| n == 0x20
    ||| n == 0x85
    ||| n == 0xa0
    ||| n == 0x1680
    ||| 0x2000 <= n <= 0x200a
    ||| n == 0x2028
    ||| n == 0x2029
    ||| n == 0x202f
    ||| n == 0x205f
    ||| n == 0x3000
}

/// Whether `c` may stand before the first word: white space, or a semicolon,
/// which ends a statement that says nothing.
pub open spec fn precedes_word(c: char) -> bool {
    is_white_space(c) || c == ';'
}

/// `text` without what it has before its first word.
pub open spec fn from_first_word(text: Seq<char>) -> Seq<char>
    decreases text.len(),
{
    if text.len() > 0 && precedes_word(text[0]) {
        from_first_word(text.drop_first())
    } else {
        text
    }
}

/// Whether `c` ends a word: white space, a semicolon or an opening parenthesis.
pub open spec fn ends_word(c: char) -> bool {
    precedes_word(c) || c == '('
}

/// `text` up to, and without, the first character that ends a word.
pub open spec fn first_word(text: Seq<char>) -> Seq<char>
    decreases text.len(),
{
    if text.len() == 0 || ends_word(text[0]) {
        Seq::empty()
    } else {
        seq![text[0]] + first_word(text.drop_first())
    }
}

/// `c` with `A` to `Z` mapped to `a` to `z` and every other character kept.
pub open spec fn ascii_lowercase(c: char) -> char {
    if 'A' <= c <= 'Z' {
        (c as u32 + 32) as char
    } else {
        c
    }
}

/// The word that `text` begins with, in ASCII lowercase. White space and
/// semicolons before it are skipped.
pub open spec fn leading_word(text: Seq<char>) -> Seq<char> {
    first_word(from_first_word(text)).map_values(|c: char| ascii_lowercase(c))
}

/// Whether `text` ends with `suffix`.
pub open spec fn has_suffix(text: Seq<char>, suffix: Seq<char>) -> bool {
    &&& suffix.len() <= text.len()
    &&& text.skip(text.len() - suffix.len()) == suffix
}

/// The decimal digit that stands for `n`, where `n` is below ten.
pub open spec fn digit(n: nat) -> char {
    (('0' as u32) + n) as char
}

/// `n` in decimal, without leading zeros.
pub open spec fn decimal(n: nat) -> Seq<char>
    decreases n,
{
    if n < 10 {
        seq![digit(n)]
    } else {
        decimal(n / 10).push(digit(n % 10))
    }
}

/// Whether `c` is white space.
pub fn white_space(c: char) -> (white: bool)
    ensures
        white == is_white_space(c),
{
    let n: u32 = c as u32;
    (0x9 <= n && n <= 0xd) || n == 0x20 || n == 0x85 || n == 0xa0 || n == 0x1680 || (0x2000 <= n
        && n <= 0x200a) || n == 0x2028 || n == 0x2029 || n == 0x202f || n == 0x205f || n == 0x3000
}

/// `c` in ASCII lowercase.
pub fn lowercase(c: char) -> (lower: char)
    ensures
        lower == ascii_lowercase(c),
{
    if 'A' <= c && c <= 'Z' {
        (c as u8 + 32) as char
    } else {
        c
    }
}

/// The characters of `text`, in order.
pub fn chars_of(text: &str) -> (chars: Vec<char>)
    ensures
        chars@ == text@,
{
    let mut chars: Vec<char> = Vec::new();
    for c in iter: text.chars()
        invariant
            chars@ == iter.seq().take(iter.index() as int),
            iter.seq() == text@,
    {
        chars.push(c);
    }
    chars
}

/// The word that `text` begins with, as [`leading_word`] has it.
pub fn leading(text: &str) -> (word: Vec<char>)
    ensures
        word@ == leading_word(text@),
{
    let chars = chars_of(text);
    let mut at: usize = 0;
    assert(text@.skip(0) == text@);
    while at < chars.len() && (white_space(chars[at]) || chars[at] == ';')
        invariant
            at <= chars.len(),
            chars@ == text@,
            from_first_word(text@) == from_first_word(text@.skip(at as int)),
        decreases chars.len() - at,
    {
        assert(text@.skip(at as int).drop_first() == text@.skip(at + 1));
        at = at + 1;
    }
    let ghost trimmed = text@.skip(at as int);
    let mut word: Vec<char> = Vec::new();
    let ghost mut taken: Seq<char> = Seq::empty();
    while at < chars.len() && !white_space(chars[at]) && chars[at] != ';' && chars[at] != '('
        invariant
            at <= chars.len(),
            chars@ == text@,
            first_word(trimmed) == taken + first_word(text@.skip(at as int)),
            word@ == taken.map_values(|c: char| ascii_lowercase(c)),
        decreases chars.len() - at,
    {
        let ghost rest = text@.skip(at as int);
        assert(rest.drop_first() == text@.skip(at + 1));
        assert(first_word(rest) == seq![rest[0]] + first_word(rest.drop_first()));
        proof {
            taken = taken.push(rest[0]);
        }
        word.push(lowercase(chars[at]));
        at = at + 1;
    }
    assert(first_word(text@.skip(at as int)) == Seq::<char>::empty());
    assert(first_word(trimmed) == taken);
    word
}

/// Whether `text` is `other`, character by character.
pub fn same_chars(text: &Vec<char>, other: &str) -> (same: bool)
    ensures
        same == (text@ == other@),
{
    let other_chars = chars_of(other);
    if text.len() != other_chars.len() {
        return false;
    }
    for at in 0..text.len()
        invariant
            text.len() == other_chars.len(),
            other_chars@ == other@,
            forall|i: int| 0 <= i < at ==> text[i] == other_chars[i],
    {
        if text[at] != other_chars[at] {
            assert(text@[at as int] != other_chars@[at as int]);
            return false;
        }
    }
    assert(text@ == other_chars@);
    true
}

/// Whether `text` is `other`.
pub fn same_text(text: &str, other: &str) -> (same: bool)
    ensures
        same == (text@ == other@),
{
    same_chars(&chars_of(text), other)
}

/// Whether `text` ends with `suffix`.
pub fn ends_with(text: &str, suffix: &str) -> (ends: bool)
    ensures
        ends == has_suffix(text@, suffix@),
{
    let chars = chars_of(text);
    let tail = chars_of(suffix);
    if tail.len() > chars.len() {
        return false;
    }
    let start: usize = chars.len() - tail.len();
    for at in 0..tail.len()
        invariant
            start == chars.len() - tail.len(),
            chars@ == text@,
            tail@ == suffix@,
            forall|i: int| 0 <= i < at ==> chars[start + i] == tail[i],
    {
        if chars[start + at] != tail[at] {
            assert(text@.skip(start as int)[at as int] != suffix@[at as int]);
            return false;
        }
    }
    assert(text@.skip(start as int) == suffix@);
    true
}

/// The digit that stands for `n`, as text.
fn digit_text(n: u32) -> (text: &'static str)
    requires
        n < 10,
    ensures
        text@ == seq![digit(n as nat)],
{
    proof {
        reveal_strlit("0");
        reveal_strlit("1");
        reveal_strlit("2");
        reveal_strlit("3");
        reveal_strlit("4");
        reveal_strlit("5");
        reveal_strlit("6");
        reveal_strlit("7");
        reveal_strlit("8");
        reveal_strlit("9");
    }
    if n == 0 {
        "0"
    } else if n == 1 {
        "1"
    } else if n == 2 {
        "2"
    } else if n == 3 {
        "3"
    } else if n == 4 {
        "4"
    } else if n == 5 {
        "5"
    } else if n == 6 {
        "6"
    } else if n == 7 {
        "7"
    } else if n == 8 {
        "8"
    } else {
        "9"
    }
}

/// `n` in decimal.
pub fn decimal_text(n: u32) -> (text: String)
    ensures
        text@ == decimal(n as nat),
    decreases n,
{
    if n < 10 {
        digit_text(n).to_owned()
    } else {
        let mut text = decimal_text(n / 10);
        text.append(digit_text(n % 10));
        text
    }
}

/// What stands before the first word of a text, and what this is made of.
proof fn lead_of(text: Seq<char>) -> (lead: Seq<char>)
    ensures
        text == lead + from_first_word(text),
        forall|i: int| 0 <= i < lead.len() ==> precedes_word(#[trigger] lead[i]),
        from_first_word(text).len() > 0 ==> !precedes_word(from_first_word(text)[0]),
    decreases text.len(),
{
    if text.len() > 0 && precedes_word(text[0]) {
        let rest = lead_of(text.drop_first());
        let lead = seq![text[0]] + rest;
        assert(text =~= seq![text[0]] + text.drop_first());
        assert(text =~= lead + from_first_word(text));
        assert forall|i: int| 0 <= i < lead.len() implies precedes_word(#[trigger] lead[i]) by {
            if i > 0 {
                assert(lead[i] == rest[i - 1]);
            }
        }
        lead
    } else {
        assert(text =~= Seq::<char>::empty() + text);
        Seq::empty()
    }
}

/// What stands behind the first word of a text, and what the word is made of.
proof fn rest_of(text: Seq<char>) -> (rest: Seq<char>)
    ensures
        text == first_word(text) + rest,
        forall|i: int|
            0 <= i < first_word(text).len() ==> !ends_word(#[trigger] first_word(text)[i]),
        rest.len() > 0 ==> ends_word(rest[0]),
    decreases text.len(),
{
    if text.len() == 0 || ends_word(text[0]) {
        assert(text =~= Seq::<char>::empty() + text);
        text
    } else {
        let later = first_word(text.drop_first());
        let rest = rest_of(text.drop_first());
        assert(text =~= seq![text[0]] + text.drop_first());
        assert(text =~= first_word(text) + rest);
        assert forall|i: int| 0 <= i < first_word(text).len() implies !ends_word(
            #[trigger] first_word(text)[i],
        ) by {
            if i > 0 {
                assert(first_word(text)[i] == later[i - 1]);
            }
        }
        rest
    }
}

/// Whether `text` is `lead`, then the word `word`, then `rest`: white space and
/// semicolons in front, no white space, semicolon or opening parenthesis in the
/// word, and one of these or nothing behind it. Where the word is empty, so is
/// the rest, or it opens a parenthesis.
pub open spec fn splits(text: Seq<char>, lead: Seq<char>, word: Seq<char>, rest: Seq<char>) -> bool {
    &&& text == lead + word + rest
    &&& forall|i: int| 0 <= i < lead.len() ==> is_white_space(#[trigger] lead[i]) || lead[i] == ';'
    &&& forall|i: int|
        0 <= i < word.len() ==> !is_white_space(#[trigger] word[i]) && word[i] != ';' && word[i]
            != '('
    &&& rest.len() > 0 ==> is_white_space(rest[0]) || rest[0] == ';' || rest[0] == '('
    &&& word.len() == 0 && rest.len() > 0 ==> rest[0] == '('
}

/// Every text splits at its first word, and the leading word is that word,
/// letter by letter in lowercase.
pub proof fn leading_word_is_the_first(text: Seq<char>) -> (split: (
    Seq<char>,
    Seq<char>,
    Seq<char>,
))
    ensures
        splits(text, split.0, split.1, split.2),
        leading_word(text).len() == split.1.len(),
        forall|i: int|
            0 <= i < split.1.len() ==> #[trigger] leading_word(text)[i] == ascii_lowercase(
                split.1[i],
            ),
{
    let lead = lead_of(text);
    let body = from_first_word(text);
    let rest = rest_of(body);
    let word = first_word(body);
    assert(text =~= lead + word + rest);
    if word.len() == 0 && rest.len() > 0 {
        assert(body =~= rest);
    }
    (lead, word, rest)
}

/// The lowercase of a letter from `A` to `Z` is the letter as far behind `a`,
/// and no other character has another one than itself.
pub proof fn only_capital_letters_change(c: char)
    ensures
        'A' <= c <= 'Z' ==> {
            &&& 'a' <= ascii_lowercase(c) <= 'z'
            &&& ascii_lowercase(c) as int - 'a' as int == c as int - 'A' as int
        },
        !('A' <= c <= 'Z') ==> ascii_lowercase(c) == c,
{
}

/// A text has a suffix exactly where it is something followed by the suffix.
pub proof fn suffix_is_what_follows(text: Seq<char>, suffix: Seq<char>)
    ensures
        has_suffix(text, suffix) <==> exists|prefix: Seq<char>| text == #[trigger] (prefix + suffix),
{
    if has_suffix(text, suffix) {
        let prefix = text.take(text.len() - suffix.len());
        assert(text =~= prefix + suffix);
    }
    if exists|prefix: Seq<char>| text == #[trigger] (prefix + suffix) {
        let prefix = choose|prefix: Seq<char>| text == #[trigger] (prefix + suffix);
        assert(text.skip(text.len() - suffix.len()) =~= suffix);
    }
}

/// The number that a text of decimal digits stands for.
pub open spec fn number_of(text: Seq<char>) -> int
    decreases text.len(),
{
    if text.len() == 0 {
        0
    } else {
        10 * number_of(text.drop_last()) + (text.last() as int - '0' as int)
    }
}

/// A number in decimal is made of digits, reads as that number, and has no
/// leading zero.
pub proof fn decimal_reads_back(n: nat)
    ensures
        number_of(decimal(n)) == n,
        decimal(n).len() > 0,
        forall|i: int| 0 <= i < decimal(n).len() ==> '0' <= #[trigger] decimal(n)[i] <= '9',
        n > 0 ==> decimal(n)[0] != '0',
    decreases n,
{
    let text = decimal(n);
    reveal_with_fuel(number_of, 2);
    if n < 10 {
        assert(text.drop_last() =~= Seq::<char>::empty());
        assert(text.last() as int == '0' as int + n);
    } else {
        decimal_reads_back(n / 10);
        assert(text.drop_last() =~= decimal(n / 10));
        assert(text.last() as int == '0' as int + n % 10);
    }
}

} // verus!
