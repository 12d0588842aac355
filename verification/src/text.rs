//! Text as sequences of characters: searching, trimming, tokens and decimals.

use vstd::prelude::*;

verus! {

/// Unicode's `White_Space` property.
pub open spec fn is_white_space(c: char) -> bool {
    ||| '\u{9}' <= c <= '\u{d}'
    ||| c == ' '
    ||| c == '\u{85}'
    ||| c == '\u{a0}'
    ||| c == '\u{1680}'
    ||| '\u{2000}' <= c <= '\u{200a}'
    ||| c == '\u{2028}'
    ||| c == '\u{2029}'
    ||| c == '\u{202f}'
    ||| c == '\u{205f}'
    ||| c == '\u{3000}'
}

/// Whether `c` is white space.
pub fn white_space(c: char) -> (yes: bool)
    ensures
        yes == is_white_space(c),
{
    ('\u{9}' <= c && c <= '\u{d}') || c == ' ' || c == '\u{85}' || c == '\u{a0}' || c == '\u{1680}'
        || ('\u{2000}' <= c && c <= '\u{200a}') || c == '\u{2028}' || c == '\u{2029}' || c
        == '\u{202f}' || c == '\u{205f}' || c == '\u{3000}'
}

/// The characters of `s`.
pub fn chars_of(s: &str) -> (chars: Vec<char>)
    ensures
        chars@ == s@,
{
    let mut chars: Vec<char> = Vec::new();
    for c in it: s.chars()
        invariant
            chars@ == it.seq().take(it.index() as int),
            it.seq() == s@,
    {
        chars.push(c);
    }
    chars
}

/// Whether two texts are equal.
pub fn same_text(a: &str, b: &str) -> (same: bool)
    ensures
        same == (a@ == b@),
{
    let left: String = a.to_owned();
    let right: String = b.to_owned();
    left == right
}

/// `s` without its leading white space.
pub open spec fn trim_start(s: Seq<char>) -> Seq<char>
    decreases s.len(),
{
    if s.len() > 0 && is_white_space(s[0]) {
        trim_start(s.drop_first())
    } else {
        s
    }
}

/// `s` without its trailing white space.
pub open spec fn trim_end(s: Seq<char>) -> Seq<char>
    decreases s.len(),
{
    if s.len() > 0 && is_white_space(s.last()) {
        trim_end(s.drop_last())
    } else {
        s
    }
}

/// `s` without leading and trailing white space.
pub open spec fn trimmed(s: Seq<char>) -> Seq<char> {
    trim_end(trim_start(s))
}

/// The leading characters of `s` up to the first white space.
pub open spec fn leading_word(s: Seq<char>) -> Seq<char>
    decreases s.len(),
{
    if s.len() > 0 && !is_white_space(s[0]) {
        seq![s[0]] + leading_word(s.drop_first())
    } else {
        Seq::empty()
    }
}

/// The first of the tokens that white space separates in `s`, if there is one.
pub open spec fn first_token(s: Seq<char>) -> Option<Seq<char>> {
    let word = leading_word(trim_start(s));
    if word.len() == 0 {
        None
    } else {
        Some(word)
    }
}

/// Whether `pattern` stands in `s` at position `at`.
pub open spec fn occurs_at(s: Seq<char>, pattern: Seq<char>, at: int) -> bool {
    0 <= at && at + pattern.len() <= s.len() && s.subrange(at, at + pattern.len()) == pattern
}

/// Whether `at` is the first position at which `pattern` stands in `s`.
pub open spec fn first_at(s: Seq<char>, pattern: Seq<char>, at: int) -> bool {
    occurs_at(s, pattern, at) && forall|j: int| 0 <= j < at ==> !#[trigger] occurs_at(s, pattern, j)
}

/// A pattern has one first position.
pub proof fn lemma_first_is_unique(s: Seq<char>, pattern: Seq<char>, a: int, b: int)
    requires
        first_at(s, pattern, a),
        first_at(s, pattern, b),
    ensures
        a == b,
{
    if a < b {
        assert(occurs_at(s, pattern, a));
    }
    if b < a {
        assert(occurs_at(s, pattern, b));
    }
}

/// Trimming the end leaves the start alone.
proof fn lemma_trim_end_keeps_start(s: Seq<char>)
    ensures
        trim_end(s).len() <= s.len(),
        trim_end(s) == s.take(trim_end(s).len() as int),
        trim_end(s).len() > 0 ==> !is_white_space(trim_end(s).last()),
    decreases s.len(),
{
    if s.len() > 0 && is_white_space(s.last()) {
        lemma_trim_end_keeps_start(s.drop_last());
        assert(s.take(trim_end(s).len() as int) =~= s.drop_last().take(trim_end(s).len() as int));
    } else {
        assert(s.take(s.len() as int) =~= s);
    }
}

/// Trimming the start leaves no white space there.
proof fn lemma_trim_start_ends(s: Seq<char>)
    ensures
        trim_start(s).len() > 0 ==> !is_white_space(trim_start(s)[0]),
    decreases s.len(),
{
    if s.len() > 0 && is_white_space(s[0]) {
        lemma_trim_start_ends(s.drop_first());
    }
}

/// A trimmed text neither starts nor ends with white space, and trimming it
/// again changes nothing.
pub proof fn law_trimming(s: Seq<char>)
    ensures
        trimmed(s).len() > 0 ==> !is_white_space(trimmed(s)[0]) && !is_white_space(
            trimmed(s).last(),
        ),
        trimmed(trimmed(s)) == trimmed(s),
{
    lemma_trim_start_ends(s);
    lemma_trim_end_keeps_start(trim_start(s));
}

/// A word ends where white space begins.
pub proof fn lemma_word_before_white_space(word: Seq<char>, tail: Seq<char>)
    requires
        forall|i: int| 0 <= i < word.len() ==> !is_white_space(#[trigger] word[i]),
        tail.len() > 0 ==> is_white_space(tail[0]),
    ensures
        leading_word(word + tail) == word,
    decreases word.len(),
{
    if word.len() > 0 {
        lemma_word_before_white_space(word.drop_first(), tail);
        assert((word + tail).drop_first() =~= word.drop_first() + tail);
        assert(seq![word[0]] + word.drop_first() =~= word);
    } else {
        assert(word + tail =~= tail);
    }
}

/// A leading word holds no white space.
pub proof fn lemma_word_has_no_white_space(s: Seq<char>)
    ensures
        forall|i: int|
            0 <= i < leading_word(s).len() ==> !is_white_space(#[trigger] leading_word(s)[i]),
    decreases s.len(),
{
    if s.len() > 0 && !is_white_space(s[0]) {
        lemma_word_has_no_white_space(s.drop_first());
        assert forall|i: int| 0 <= i < leading_word(s).len() implies !is_white_space(
            #[trigger] leading_word(s)[i],
        ) by {
            if i > 0 {
                assert(leading_word(s)[i] == leading_word(s.drop_first())[i - 1]);
            }
        }
    }
}

/// Where leading white space ends in `s` from position `from`.
fn skip_white_space(chars: &Vec<char>, from: usize) -> (at: usize)
    requires
        from <= chars@.len(),
    ensures
        from <= at <= chars@.len(),
        chars@.skip(at as int) == trim_start(chars@.skip(from as int)),
{
    let mut at: usize = from;
    while at < chars.len() && white_space(chars[at])
        invariant
            from <= at <= chars@.len(),
            trim_start(chars@.skip(at as int)) == trim_start(chars@.skip(from as int)),
        decreases chars@.len() - at,
    {
        assert(chars@.skip(at as int).drop_first() == chars@.skip(at + 1));
        at = at + 1;
    }
    at
}

/// `s` without leading and trailing white space.
pub fn trim(s: &str) -> (text: String)
    ensures
        text@ == trimmed(s@),
{
    let chars = chars_of(s);
    assert(chars@.skip(0) == chars@);
    let from = skip_white_space(&chars, 0);
    let mut to: usize = chars.len();
    assert(chars@.subrange(from as int, to as int) == chars@.skip(from as int));
    while from < to && white_space(chars[to - 1])
        invariant
            from <= to <= chars@.len(),
            trim_end(chars@.subrange(from as int, to as int)) == trimmed(chars@),
        decreases to,
    {
        assert(chars@.subrange(from as int, to as int).drop_last() == chars@.subrange(
            from as int,
            to - 1,
        ));
        to = to - 1;
    }
    s.substring_char(from, to).to_owned()
}

/// The first token of the part of `s` that starts at position `from`.
pub fn token_from(s: &str, from: usize) -> (token: Option<String>)
    requires
        from <= s@.len(),
    ensures
        match token {
            Some(t) => first_token(s@.skip(from as int)) == Some(t@),
            None => first_token(s@.skip(from as int)) is None,
        },
{
    let chars = chars_of(s);
    let start = skip_white_space(&chars, from);
    let mut end: usize = start;
    assert(chars@.subrange(start as int, start as int) + leading_word(chars@.skip(start as int))
        == leading_word(chars@.skip(start as int)));
    while end < chars.len() && !white_space(chars[end])
        invariant
            start <= end <= chars@.len(),
            chars@.subrange(start as int, end as int) + leading_word(chars@.skip(end as int))
                == leading_word(chars@.skip(start as int)),
        decreases chars@.len() - end,
    {
        let ghost before = chars@.subrange(start as int, end as int);
        let ghost rest = chars@.skip(end as int);
        assert(rest.drop_first() == chars@.skip(end + 1));
        assert(chars@.subrange(start as int, end + 1) + leading_word(chars@.skip(end + 1)) == before
            + (seq![rest[0]] + leading_word(rest.drop_first())));
        end = end + 1;
    }
    assert(chars@.subrange(start as int, end as int) == leading_word(chars@.skip(start as int)));
    if start == end {
        None
    } else {
        Some(s.substring_char(start, end).to_owned())
    }
}

/// Whether `pattern` stands in `chars` at position `at`.
fn stands_at(chars: &Vec<char>, pattern: &Vec<char>, at: usize) -> (yes: bool)
    requires
        at + pattern@.len() <= chars@.len(),
    ensures
        yes == occurs_at(chars@, pattern@, at as int),
{
    let len: usize = chars.len();
    let mut i: usize = 0;
    while i < pattern.len()
        invariant
            len == chars@.len(),
            i <= pattern@.len(),
            at + pattern@.len() <= len,
            forall|j: int| 0 <= j < i ==> chars@[at + j] == #[trigger] pattern@[j],
        decreases pattern@.len() - i,
    {
        if chars[at + i] != pattern[i] {
            assert(chars@.subrange(at as int, at + pattern@.len())[i as int] != pattern@[i as int]);
            return false;
        }
        i = i + 1;
    }
    assert(chars@.subrange(at as int, at + pattern@.len()) == pattern@);
    true
}

/// The first position at which `pattern` stands in `s`, counted in characters.
pub fn find(s: &str, pattern: &str) -> (at: Option<usize>)
    ensures
        match at {
            Some(i) => first_at(s@, pattern@, i as int),
            None => forall|j: int| !#[trigger] occurs_at(s@, pattern@, j),
        },
{
    let chars = chars_of(s);
    let wanted = chars_of(pattern);
    let mut i: usize = 0;
    while wanted.len() <= chars.len() - i
        invariant
            chars@ == s@,
            wanted@ == pattern@,
            i <= chars@.len(),
            forall|j: int| 0 <= j < i ==> !#[trigger] occurs_at(s@, pattern@, j),
        decreases chars@.len() - i,
    {
        if stands_at(&chars, &wanted, i) {
            return Some(i);
        }
        assert(wanted@.len() == 0 ==> chars@.subrange(i as int, i as int) == wanted@);
        i = i + 1;
    }
    None
}

/// The character of a decimal digit.
pub open spec fn digit(d: nat) -> char {
    (('0' as nat) + d) as char
}

/// `n` written in decimal, without leading zeros.
pub open spec fn decimal(n: nat) -> Seq<char>
    decreases n,
{
    if n < 10 {
        seq![digit(n)]
    } else {
        decimal(n / 10).push(digit(n % 10))
    }
}

/// A decimal is made of digits alone, and of at least one.
pub proof fn lemma_decimal_is_digits(n: nat)
    ensures
        decimal(n).len() > 0,
        forall|i: int| 0 <= i < decimal(n).len() ==> '0' <= #[trigger] decimal(n)[i] <= '9',
    decreases n,
{
    if n >= 10 {
        lemma_decimal_is_digits(n / 10);
    }
}

/// The text of one decimal digit.
fn digit_text(d: u64) -> (text: &'static str)
    requires
        d < 10,
    ensures
        text@ == seq![digit(d as nat)],
{
    proof {
        reveal_strlit("0");
        reveal_strlit("1");
        reveal_strlit("2");
        reveal_strlit("3");
        reveal_strlit("4");
        reveal_strlit("5");
        reveal_strlit("6");
        reveal_strlit("7");
        reveal_strlit("8");
        reveal_strlit("9");
    }
    match d {
        0 => "0",
        1 => "1",
        2 => "2",
        3 => "3",
        4 => "4",
        5 => "5",
        6 => "6",
        7 => "7",
        8 => "8",
        _ => "9",
    }
}

/// `n` written in decimal.
pub fn decimal_text(n: u64) -> (text: String)
    ensures
        text@ == decimal(n as nat),
    decreases n,
{
    if n < 10 {
        digit_text(n).to_owned()
    } else {
        let text = decimal_text(n / 10).concat(digit_text(n % 10));
        assert(text@ == decimal(n as nat / 10).push(digit(n as nat % 10)));
        text
    }
}

/// White space is what Unicode lists as such, and nothing else.
pub proof fn law_white_space(c: char)
    ensures
        is_white_space(c) <==> {
            let n = c as u32;
            9 <= n <= 13 || n == 0x20 || n == 0x85 || n == 0xa0 || n == 0x1680 || 0x2000 <= n
                <= 0x200a || n == 0x2028 || n == 0x2029 || n == 0x202f || n == 0x205f || n == 0x3000
        },
{
}

proof fn lemma_trim_start_skips(space: Seq<char>, rest: Seq<char>)
    requires
        forall|i: int| 0 <= i < space.len() ==> is_white_space(#[trigger] space[i]),
    ensures
        trim_start(space + rest) == trim_start(rest),
    decreases space.len(),
{
    if space.len() > 0 {
        assert(is_white_space(space[0]));
        assert((space + rest)[0] == space[0]);
        assert((space + rest).drop_first() =~= space.drop_first() + rest);
        lemma_trim_start_skips(space.drop_first(), rest);
    } else {
        assert(space + rest =~= rest);
    }
}

proof fn lemma_trim_end_skips(rest: Seq<char>, space: Seq<char>)
    requires
        forall|i: int| 0 <= i < space.len() ==> is_white_space(#[trigger] space[i]),
    ensures
        trim_end(rest + space) == trim_end(rest),
    decreases space.len(),
{
    if space.len() > 0 {
        assert(is_white_space(space[space.len() - 1]));
        assert((rest + space).last() == space[space.len() - 1]);
        assert((rest + space).drop_last() =~= rest + space.drop_last());
        lemma_trim_end_skips(rest, space.drop_last());
    } else {
        assert(rest + space =~= rest);
    }
}

/// White space around a text is taken off, however much of it there is, and
/// the text itself is left whole. Every text is of this shape.
pub proof fn law_trimming_leaves_the_text(before: Seq<char>, text: Seq<char>, after: Seq<char>)
    requires
        forall|i: int| 0 <= i < before.len() ==> is_white_space(#[trigger] before[i]),
        forall|i: int| 0 <= i < after.len() ==> is_white_space(#[trigger] after[i]),
        text.len() > 0 ==> !is_white_space(text[0]) && !is_white_space(text.last()),
    ensures
        trimmed(before + text + after) == text,
{
    assert(before + text + after =~= before + (text + after));
    lemma_trim_start_skips(before, text + after);
    if text.len() > 0 {
        assert((text + after)[0] == text[0]);
        lemma_trim_end_skips(text, after);
    } else {
        assert(text + after =~= after);
        lemma_trim_start_skips(after, Seq::empty());
        assert(after + Seq::<char>::empty() =~= after);
        assert(text =~= Seq::empty());
    }
}

/// The first token is the whole of the first stretch without white space,
/// whatever precedes and follows it. Blank text has none.
pub proof fn law_first_token(before: Seq<char>, word: Seq<char>, after: Seq<char>)
    requires
        forall|i: int| 0 <= i < before.len() ==> is_white_space(#[trigger] before[i]),
        forall|i: int| 0 <= i < word.len() ==> !is_white_space(#[trigger] word[i]),
        after.len() > 0 ==> is_white_space(after[0]),
    ensures
        word.len() > 0 ==> first_token(before + word + after) == Some(word),
        first_token(before) is None,
{
    assert(before + word + after =~= before + (word + after));
    lemma_trim_start_skips(before, word + after);
    if word.len() > 0 {
        assert(!is_white_space(word[0]));
        assert((word + after)[0] == word[0]);
        lemma_word_before_white_space(word, after);
    }
    lemma_trim_start_skips(before, Seq::empty());
    assert(before + Seq::<char>::empty() =~= before);
}

/// A pattern stands where its characters stand, each in its place.
pub proof fn law_occurrence(s: Seq<char>, pattern: Seq<char>, at: int)
    ensures
        occurs_at(s, pattern, at) <==> 0 <= at && at + pattern.len() <= s.len() && forall|j: int|
            0 <= j < pattern.len() ==> s[at + j] == #[trigger] pattern[j],
{
    if 0 <= at && at + pattern.len() <= s.len() {
        let part = s.subrange(at, at + pattern.len());
        if forall|j: int| 0 <= j < pattern.len() ==> s[at + j] == #[trigger] pattern[j] {
            assert(part =~= pattern);
        }
        if part == pattern {
            assert forall|j: int| 0 <= j < pattern.len() implies s[at + j]
                == #[trigger] pattern[j] by {
                assert(part[j] == s[at + j]);
            }
        }
    }
}

/// Before its first position, a pattern stands nowhere.
pub proof fn law_first_occurrence(s: Seq<char>, pattern: Seq<char>, at: int, other: int)
    requires
        occurs_at(s, pattern, other),
    ensures
        first_at(s, pattern, at) ==> occurs_at(s, pattern, at) && at <= other,
        (forall|j: int| #[trigger] occurs_at(s, pattern, j) ==> other <= j) ==> first_at(
            s,
            pattern,
            other,
        ),
{
}

/// The number that a sequence of decimal digits stands for.
pub open spec fn value_of(digits: Seq<char>) -> int
    decreases digits.len(),
{
    if digits.len() == 0 {
        0
    } else {
        value_of(digits.drop_last()) * 10 + (digits.last() as int - '0' as int)
    }
}

/// A number is written with the digits that stand for it, and with no leading zero.
pub proof fn law_decimal_stands_for_its_number(n: nat)
    ensures
        value_of(decimal(n)) == n,
        forall|i: int| 0 <= i < decimal(n).len() ==> '0' <= #[trigger] decimal(n)[i] <= '9',
        decimal(n).len() > 0,
        decimal(n).len() > 1 ==> decimal(n)[0] != '0',
    decreases n,
{
    lemma_decimal_is_digits(n);
    if n < 10 {
        assert(decimal(n).drop_last() =~= Seq::empty());
        reveal_with_fuel(value_of, 2);
    } else {
        law_decimal_stands_for_its_number(n / 10);
        assert(decimal(n).drop_last() =~= decimal(n / 10));
        assert(decimal(n).last() as int - '0' as int == n % 10);
        assert(decimal(n)[0] == decimal(n / 10)[0]);
        if decimal(n / 10).len() == 1 {
            reveal_with_fuel(value_of, 2);
            assert(decimal(n / 10).drop_last() =~= Seq::empty());
        }
    }
}

} // verus!
