//! Text as sequences of characters: trimming, prefixes, lines, ASCII case and decimal numbers.

use vstd::prelude::*;
use vstd::string::*;

verus! {

broadcast use vstd::string::group_string_axioms;

/// `String::push` appends one character at the end of the text.
pub assume_specification[ String::push ](s: &mut String, c: char)
    ensures
        final(s)@ == old(s)@.push(c),
;

/// A result whose error text is taken by its characters.
pub open spec fn outcome<T>(result: Result<T, String>) -> Result<T, Seq<char>> {
    match result {
        Ok(value) => Ok(value),
        Err(message) => Err(message@),
    }
}

/// A result whose value and error text are both taken by their characters.
pub open spec fn text_outcome(result: Result<String, String>) -> Result<Seq<char>, Seq<char>> {
    match result {
        Ok(value) => Ok(value@),
        Err(message) => Err(message@),
    }
}

/// An optional text taken by its characters.
pub open spec fn optional_text(text: Option<String>) -> Option<Seq<char>> {
    match text {
        Some(value) => Some(value@),
        None => None,
    }
}

/// The optional text behind a reference, taken by its characters.
pub open spec fn optional_str(text: Option<&str>) -> Option<Seq<char>> {
    match text {
        Some(value) => Some(value@),
        None => None,
    }
}

/// The number of bytes of the UTF-8 form of a text.
pub open spec fn byte_count(text: Seq<char>) -> nat {
    vstd::utf8::encode_utf8(text).len()
}

/// The number of bytes of `text`.
pub fn byte_len(text: &str) -> (len: usize)
    ensures
        len == byte_count(text@),
{
    text.as_bytes().len()
}

/// The characters of `text`, in order.
pub fn chars_of(text: &str) -> (chars: Vec<char>)
    ensures
        chars@ == text@,
{
    let mut chars: Vec<char> = Vec::new();
    for c in it: text.chars()
        invariant
            it.seq() == text@,
            chars@ == text@.take(it.index()),
    {
        chars.push(c);
    }
    chars
}

/// The text made of `chars`.
pub fn text_of(chars: &[char]) -> (text: String)
    ensures
        text@ == chars@,
{
    let mut text = String::new();
    let mut i: usize = 0;
    while i < chars.len()
        invariant
            i <= chars.len(),
            text@ == chars@.take(i as int),
        decreases chars.len() - i,
    {
        text.push(chars[i]);
        i += 1;
    }
    text
}

/// Whether two texts hold the same characters.
pub fn same_text(left: &str, right: &str) -> (same: bool)
    ensures
        same == (left@ == right@),
{
    left.to_owned() == right.to_owned()
}

/// Three texts, one after the other.
pub fn concat3(first: &str, second: &str, third: &str) -> (text: String)
    ensures
        text@ == first@ + second@ + third@,
{
    let mut text = first.to_owned();
    text.append(second);
    text.append(third);
    text
}

/// Two texts, one after the other.
pub fn concat2(first: &str, second: &str) -> (text: String)
    ensures
        text@ == first@ + second@,
{
    let mut text = first.to_owned();
    text.append(second);
    text
}

/// The characters with the Unicode property White_Space.
pub open spec fn white(c: char) -> bool {
    ||| '\u{9}' <= c <= '\u{d}'
    ||| c == ' '
    ||| c == '\u{85}'
    ||| c == '\u{a0}'
    ||| c == '\u{1680}'
    ||| '\u{2000}' <= c <= '\u{200a}'
    ||| c == '\u{2028}'
    ||| c == '\u{2029}'
    ||| c == '\u{202f}'
    ||| c == '\u{205f}'
    ||| c == '\u{3000}'
}

/// Whether `c` has the Unicode property White_Space.
pub fn is_white(c: char) -> (result: bool)
    ensures
        result == white(c),
{
    ('\u{9}' <= c && c <= '\u{d}') || c == ' ' || c == '\u{85}' || c == '\u{a0}' || c
        == '\u{1680}' || ('\u{2000}' <= c && c <= '\u{200a}') || c == '\u{2028}' || c
        == '\u{2029}' || c == '\u{202f}' || c == '\u{205f}' || c == '\u{3000}'
}

/// `text` without its leading white space.
pub open spec fn trimmed_start(text: Seq<char>) -> Seq<char>
    decreases text.len(),
{
    if text.len() > 0 && white(text[0]) {
        trimmed_start(text.skip(1))
    } else {
        text
    }
}

/// `text` without its trailing white space.
pub open spec fn trimmed_end(text: Seq<char>) -> Seq<char>
    decreases text.len(),
{
    if text.len() > 0 && white(text.last()) {
        trimmed_end(text.drop_last())
    } else {
        text
    }
}

/// `text` without white space at either end.
pub open spec fn trimmed(text: Seq<char>) -> Seq<char> {
    trimmed_end(trimmed_start(text))
}

/// `text` without its leading occurrences of `mark`.
pub open spec fn stripped_start(text: Seq<char>, mark: char) -> Seq<char>
    decreases text.len(),
{
    if text.len() > 0 && text[0] == mark {
        stripped_start(text.skip(1), mark)
    } else {
        text
    }
}

/// `text` without its trailing occurrences of `mark`.
pub open spec fn stripped_end(text: Seq<char>, mark: char) -> Seq<char>
    decreases text.len(),
{
    if text.len() > 0 && text.last() == mark {
        stripped_end(text.drop_last(), mark)
    } else {
        text
    }
}

/// `text` without occurrences of `mark` at either end.
pub open spec fn stripped(text: Seq<char>, mark: char) -> Seq<char> {
    stripped_end(stripped_start(text, mark), mark)
}

/// The text without its leading white space.
pub fn trim_start<'a>(text: &'a str) -> (rest: &'a str)
    ensures
        rest@ == trimmed_start(text@),
{
    let chars = chars_of(text);
    let mut start: usize = 0;
    proof {
        assert(text@.skip(0) == text@);
    }
    while start < chars.len() && is_white(chars[start])
        invariant
            chars@ == text@,
            start <= chars.len(),
            trimmed_start(text@.skip(start as int)) == trimmed_start(text@),
        decreases chars.len() - start,
    {
        proof {
            assert(text@.skip(start as int).skip(1) == text@.skip(start + 1));
            assert(text@.skip(start as int)[0] == text@[start as int]);
        }
        start += 1;
    }
    proof {
        assert(start < chars.len() ==> text@.skip(start as int)[0] == text@[start as int]);
    }
    text.substring_char(start, chars.len())
}

/// The text without its trailing white space.
pub fn trim_end<'a>(text: &'a str) -> (rest: &'a str)
    ensures
        rest@ == trimmed_end(text@),
{
    let chars = chars_of(text);
    let mut end: usize = chars.len();
    proof {
        assert(text@.take(end as int) == text@);
    }
    while end > 0 && is_white(chars[end - 1])
        invariant
            chars@ == text@,
            end <= chars.len(),
            trimmed_end(text@.take(end as int)) == trimmed_end(text@),
        decreases end,
    {
        proof {
            assert(text@.take(end as int).drop_last() == text@.take(end - 1));
        }
        end -= 1;
    }
    text.substring_char(0, end)
}

/// The text without white space at either end.
pub fn trim<'a>(text: &'a str) -> (rest: &'a str)
    ensures
        rest@ == trimmed(text@),
{
    trim_end(trim_start(text))
}

/// The text without occurrences of `mark` at either end.
pub fn trim_matches<'a>(text: &'a str, mark: char) -> (rest: &'a str)
    ensures
        rest@ == stripped(text@, mark),
{
    let chars = chars_of(text);
    let mut start: usize = 0;
    proof {
        assert(text@.skip(0) == text@);
    }
    while start < chars.len() && chars[start] == mark
        invariant
            chars@ == text@,
            start <= chars.len(),
            stripped_start(text@.skip(start as int), mark) == stripped_start(text@, mark),
        decreases chars.len() - start,
    {
        proof {
            assert(text@.skip(start as int).skip(1) == text@.skip(start + 1));
            assert(text@.skip(start as int)[0] == text@[start as int]);
        }
        start += 1;
    }
    let ghost body = text@.skip(start as int);
    proof {
        assert(start < chars.len() ==> body[0] == text@[start as int]);
        assert(body == stripped_start(text@, mark));
        assert(body.take(body.len() as int) == body);
    }
    let mut end: usize = chars.len();
    while end > start && chars[end - 1] == mark
        invariant
            chars@ == text@,
            start <= end <= chars.len(),
            body == text@.skip(start as int),
            stripped_end(body.take(end - start), mark) == stripped_end(body, mark),
        decreases end,
    {
        proof {
            assert(body.take(end - start).drop_last() == body.take(end - start - 1));
            assert(body.take(end - start).last() == text@[end - 1]);
        }
        end -= 1;
    }
    proof {
        assert(end > start ==> body.take(end - start).last() == text@[end - 1]);
        assert(text@.subrange(start as int, end as int) == body.take(end - start));
    }
    text.substring_char(start, end)
}

/// Whether `text` begins with `prefix`.
pub open spec fn has_prefix(text: Seq<char>, prefix: Seq<char>) -> bool {
    prefix.len() <= text.len() && text.take(prefix.len() as int) == prefix
}

/// What follows `prefix` in `text`, where `text` begins with it.
pub open spec fn after_prefix(text: Seq<char>, prefix: Seq<char>) -> Option<Seq<char>> {
    if has_prefix(text, prefix) {
        Some(text.skip(prefix.len() as int))
    } else {
        None
    }
}

/// What follows `prefix` in `text`, where `text` begins with it.
pub fn strip_prefix<'a>(text: &'a str, prefix: &str) -> (rest: Option<&'a str>)
    ensures
        optional_str(rest) == after_prefix(text@, prefix@),
{
    let text_len: usize = text.unicode_len();
    let prefix_len: usize = prefix.unicode_len();
    if prefix_len > text_len {
        return None;
    }
    if same_text(text.substring_char(0, prefix_len), prefix) {
        Some(text.substring_char(prefix_len, text_len))
    } else {
        None
    }
}

/// Whether `text` begins with `prefix`.
pub fn starts_with(text: &str, prefix: &str) -> (result: bool)
    ensures
        result == has_prefix(text@, prefix@),
{
    strip_prefix(text, prefix).is_some()
}

/// Whether `text` ends with `suffix`.
pub open spec fn has_suffix(text: Seq<char>, suffix: Seq<char>) -> bool {
    text.len() >= suffix.len() && text.skip(text.len() - suffix.len()) == suffix
}

/// Whether `text` ends with `suffix`.
pub fn ends_with(text: &str, suffix: &str) -> (result: bool)
    ensures
        result == has_suffix(text@, suffix@),
{
    let len: usize = text.unicode_len();
    let tail: usize = suffix.unicode_len();
    if len < tail {
        return false;
    }
    let rest = text.substring_char(len - tail, len);
    proof {
        assert(rest@ == text@.skip(text@.len() - suffix@.len()));
    }
    same_text(rest, suffix)
}

/// Whether `part` occurs in `text`.
pub open spec fn has_part(text: Seq<char>, part: Seq<char>) -> bool {
    exists|i: int|
        0 <= i && i + part.len() <= text.len() && #[trigger] text.subrange(
            i,
            i + part.len(),
        ) == part
}

/// Whether `part` occurs in `text`.
pub fn contains(text: &str, part: &str) -> (result: bool)
    ensures
        result == has_part(text@, part@),
{
    let text_len: usize = text.unicode_len();
    let part_len: usize = part.unicode_len();
    if part_len > text_len {
        return false;
    }
    let mut i: usize = 0;
    while i <= text_len - part_len
        invariant
            text_len == text@.len(),
            part_len == part@.len(),
            part_len <= text_len,
            i <= text_len - part_len + 1,
            forall|j: int|
                0 <= j < i ==> #[trigger] text@.subrange(j, j + part@.len()) != part@,
        decreases text_len - i,
    {
        if same_text(text.substring_char(i, i + part_len), part) {
            return true;
        }
        if i == text_len - part_len {
            return false;
        }
        i += 1;
    }
    false
}

/// The ASCII lower-case form of a character; every other character stands for itself.
pub open spec fn lowered_char(c: char) -> char {
    if 'A' <= c <= 'Z' {
        (c as u32 + 32) as char
    } else {
        c
    }
}

/// `text` with its ASCII letters in lower case.
pub open spec fn lowered(text: Seq<char>) -> Seq<char> {
    text.map_values(|c: char| lowered_char(c))
}

/// The text with its ASCII letters in lower case.
pub fn to_ascii_lowercase(text: &str) -> (result: String)
    ensures
        result@ == lowered(text@),
{
    let mut result = String::new();
    for c in it: text.chars()
        invariant
            it.seq() == text@,
            result@ == lowered(text@.take(it.index())),
    {
        let lower: char = if 'A' <= c && c <= 'Z' {
            (c as u8 + 32) as char
        } else {
            c
        };
        result.push(lower);
        proof {
            assert(lowered(text@.take(it.index() + 1)) == lowered(text@.take(it.index())).push(
                lowered_char(c),
            ));
        }
    }
    proof {
        assert(text@.take(text@.len() as int) == text@);
    }
    result
}

/// Whether `c` is an ASCII letter or digit.
pub open spec fn ascii_alphanumeric(c: char) -> bool {
    'a' <= c <= 'z' || 'A' <= c <= 'Z' || '0' <= c <= '9'
}

/// Whether `c` is an ASCII letter or digit.
pub fn is_ascii_alphanumeric(c: char) -> (result: bool)
    ensures
        result == ascii_alphanumeric(c),
{
    ('a' <= c && c <= 'z') || ('A' <= c && c <= 'Z') || ('0' <= c && c <= '9')
}

/// The decimal digit of a number below ten.
pub open spec fn digit_char(digit: nat) -> char {
    (48 + digit) as char
}

/// A number in decimal, without leading zeros.
pub open spec fn decimal(number: nat) -> Seq<char>
    decreases number,
{
    if number < 10 {
        seq![digit_char(number)]
    } else {
        decimal(number / 10).push(digit_char(number % 10))
    }
}

/// `number` in decimal.
pub fn decimal_text(number: u128) -> (text: String)
    ensures
        text@ == decimal(number as nat),
    decreases number,
{
    let digit: u8 = (number % 10) as u8;
    let mut text = if number < 10 {
        String::new()
    } else {
        decimal_text(number / 10)
    };
    text.push((48 + digit) as char);
    text
}

/// The position of the first line feed of `text` at or after `from`, or the length of `text`.
pub open spec fn line_end(text: Seq<char>, from: int) -> int
    decreases text.len() - from,
{
    if from < 0 || from >= text.len() || text[from] == '\n' {
        from
    } else {
        line_end(text, from + 1)
    }
}

/// A line without the carriage return before its line feed.
pub open spec fn without_return(line: Seq<char>) -> Seq<char> {
    if line.len() > 0 && line.last() == '\r' {
        line.drop_last()
    } else {
        line
    }
}

/// The lines of `text` from position `from` on: each ends at a line feed, with or without a
/// carriage return before it, and the last one may end with the text.
pub open spec fn lines_from(text: Seq<char>, from: int) -> Seq<Seq<char>>
    decreases text.len() - from,
{
    if from < 0 || from >= text.len() {
        seq![]
    } else {
        let end = line_end(text, from);
        if from <= end < text.len() {
            seq![without_return(text.subrange(from, end))] + lines_from(text, end + 1)
        } else {
            seq![text.subrange(from, text.len() as int)]
        }
    }
}

/// The lines of `text`.
pub open spec fn lines_of(text: Seq<char>) -> Seq<Seq<char>> {
    lines_from(text, 0)
}

/// The texts of a list, each by its characters.
pub open spec fn texts(list: Seq<&str>) -> Seq<Seq<char>> {
    list.map_values(|line: &str| line@)
}

pub proof fn lemma_line_end(text: Seq<char>, from: int)
    requires
        0 <= from <= text.len(),
    ensures
        from <= line_end(text, from) <= text.len(),
        line_end(text, from) < text.len() ==> text[line_end(text, from)] == '\n',
        forall|i: int| from <= i < line_end(text, from) ==> text[i] != '\n',
    decreases text.len() - from,
{
    if from < text.len() && text[from] != '\n' {
        lemma_line_end(text, from + 1);
    }
}

/// The lines of `text`, without their line endings.
pub fn lines<'a>(text: &'a str) -> (result: Vec<&'a str>)
    ensures
        texts(result@) == lines_of(text@),
{
    let chars = chars_of(text);
    let mut result: Vec<&'a str> = Vec::new();
    let mut from: usize = 0;
    proof {
        assert(texts(result@) + lines_from(text@, 0) == lines_of(text@));
    }
    while from < chars.len()
        invariant
            chars@ == text@,
            from <= chars.len(),
            texts(result@) + lines_from(text@, from as int) == lines_of(text@),
        decreases chars.len() - from,
    {
        let mut end: usize = from;
        while end < chars.len() && chars[end] != '\n'
            invariant
                chars@ == text@,
                from <= end <= chars.len(),
                line_end(text@, end as int) == line_end(text@, from as int),
            decreases chars.len() - end,
        {
            end += 1;
        }
        let ghost before = result@;
        if end < chars.len() {
            let stop: usize = if end > from && chars[end - 1] == '\r' {
                end - 1
            } else {
                end
            };
            let line: &'a str = text.substring_char(from, stop);
            result.push(line);
            proof {
                let whole = text@.subrange(from as int, end as int);
                assert(line@ == without_return(whole)) by {
                    if end > from {
                        assert(whole.last() == text@[end - 1]);
                        assert(whole.drop_last() == text@.subrange(from as int, end - 1));
                    }
                }
                assert(texts(result@) == texts(before).push(line@));
                assert(texts(result@) + lines_from(text@, end + 1) == texts(before) + (seq![line@]
                    + lines_from(text@, end + 1)));
            }
            from = end + 1;
        } else {
            let line: &'a str = text.substring_char(from, end);
            result.push(line);
            proof {
                assert(texts(result@) == texts(before).push(line@));
                assert(lines_from(text@, end as int) == Seq::<Seq<char>>::empty());
                assert(texts(result@) + lines_from(text@, end as int) == texts(before) + seq![line@]);
            }
            from = end;
        }
    }
    proof {
        assert(lines_from(text@, from as int) == Seq::<Seq<char>>::empty());
        assert(texts(result@) + Seq::<Seq<char>>::empty() == texts(result@));
    }
    result
}

/// White space is what Unicode says it is: of the ASCII characters the blank and those from the
/// tab to the carriage return, and a few others beyond them.
pub proof fn law_white_space_is_that_of_unicode(c: char)
    ensures
        white(c) <==> {
            let code = c as int;
            ||| 9 <= code <= 13
            ||| code == 32
            ||| code == 133
            ||| code == 160
            ||| code == 5760
            ||| 8192 <= code <= 8202
            ||| code == 8232
            ||| code == 8233
            ||| code == 8239
            ||| code == 8287
            ||| code == 12288
        },
{
}

proof fn lemma_trimmed_start(text: Seq<char>)
    ensures
        exists|n: int|
            0 <= n <= text.len() && trimmed_start(text) == #[trigger] text.skip(n) && (forall|i: int|
                0 <= i < n ==> white(#[trigger] text[i])) && (n < text.len() ==> !white(text[n])),
    decreases text.len(),
{
    if text.len() > 0 && white(text[0]) {
        let rest = text.skip(1);
        lemma_trimmed_start(rest);
        let n = choose|n: int|
            0 <= n <= rest.len() && trimmed_start(rest) == #[trigger] rest.skip(n) && (forall|
                i: int,
            |
                0 <= i < n ==> white(#[trigger] rest[i])) && (n < rest.len() ==> !white(rest[n]));
        assert(rest.skip(n) == text.skip(n + 1));
        assert forall|i: int| 0 <= i < n + 1 implies white(#[trigger] text[i]) by {
            if i > 0 {
                assert(rest[i - 1] == text[i]);
            }
        }
    } else {
        assert(text.skip(0) == text);
    }
}

proof fn lemma_trimmed_end(text: Seq<char>)
    ensures
        exists|n: int|
            0 <= n <= text.len() && trimmed_end(text) == #[trigger] text.take(n) && (forall|i: int|
                n <= i < text.len() ==> white(#[trigger] text[i])) && (n > 0 ==> !white(
                text[n - 1],
            )),
    decreases text.len(),
{
    if text.len() > 0 && white(text.last()) {
        let rest = text.drop_last();
        lemma_trimmed_end(rest);
        let n = choose|n: int|
            0 <= n <= rest.len() && trimmed_end(rest) == #[trigger] rest.take(n) && (forall|i: int|
                n <= i < rest.len() ==> white(#[trigger] rest[i])) && (n > 0 ==> !white(
                rest[n - 1],
            ));
        assert(rest.take(n) == text.take(n));
        assert forall|i: int| n <= i < text.len() implies white(#[trigger] text[i]) by {
            if i < rest.len() {
                assert(rest[i] == text[i]);
            }
        }
    } else {
        assert(text.take(text.len() as int) == text);
    }
}

/// Whether `words` is `text` without white space at its ends: what stands before and behind it is
/// white space, and neither its first nor its last character is.
pub open spec fn trims_to(text: Seq<char>, from: int, to: int, words: Seq<char>) -> bool {
    &&& 0 <= from <= to <= text.len()
    &&& words == text.subrange(from, to)
    &&& forall|i: int| 0 <= i < from || to <= i < text.len() ==> white(#[trigger] text[i])
    &&& words.len() > 0 ==> !white(words[0]) && !white(words.last())
}

/// Trimming a text takes away the white space at its ends and nothing else; nothing is left
/// exactly where the text is blank.
pub proof fn law_trimmed_texts_keep_their_words(text: Seq<char>)
    ensures
        exists|from: int, to: int| #[trigger] trims_to(text, from, to, trimmed(text)),
        trimmed(text).len() == 0 <==> (forall|i: int|
            0 <= i < text.len() ==> white(#[trigger] text[i])),
{
    lemma_trimmed_start(text);
    let from = choose|n: int|
        0 <= n <= text.len() && trimmed_start(text) == #[trigger] text.skip(n) && (forall|i: int|
            0 <= i < n ==> white(#[trigger] text[i])) && (n < text.len() ==> !white(text[n]));
    let rest = text.skip(from);
    lemma_trimmed_end(rest);
    let kept = choose|n: int|
        0 <= n <= rest.len() && trimmed_end(rest) == #[trigger] rest.take(n) && (forall|i: int|
            n <= i < rest.len() ==> white(#[trigger] rest[i])) && (n > 0 ==> !white(rest[n - 1]));
    let to = from + kept;
    assert(rest.take(kept) == text.subrange(from, to));
    assert forall|i: int| to <= i < text.len() implies white(#[trigger] text[i]) by {
        assert(rest[i - from] == text[i]);
    }
    if kept > 0 {
        assert(rest[0] == text[from]);
        assert(rest[kept - 1] == text[to - 1]);
        assert(!white(text[from]));
    }
    assert(trims_to(text, from, to, trimmed(text)));
}

proof fn lemma_stripped_start(text: Seq<char>, mark: char)
    ensures
        exists|n: int|
            0 <= n <= text.len() && stripped_start(text, mark) == #[trigger] text.skip(n) && (
            forall|i: int| 0 <= i < n ==> #[trigger] text[i] == mark) && (n < text.len() ==> text[n]
                != mark),
    decreases text.len(),
{
    if text.len() > 0 && text[0] == mark {
        let rest = text.skip(1);
        lemma_stripped_start(rest, mark);
        let n = choose|n: int|
            0 <= n <= rest.len() && stripped_start(rest, mark) == #[trigger] rest.skip(n) && (
            forall|i: int| 0 <= i < n ==> #[trigger] rest[i] == mark) && (n < rest.len() ==> rest[n]
                != mark);
        assert(rest.skip(n) == text.skip(n + 1));
        assert forall|i: int| 0 <= i < n + 1 implies #[trigger] text[i] == mark by {
            if i > 0 {
                assert(rest[i - 1] == text[i]);
            }
        }
    } else {
        assert(text.skip(0) == text);
    }
}

proof fn lemma_stripped_end(text: Seq<char>, mark: char)
    ensures
        exists|n: int|
            0 <= n <= text.len() && stripped_end(text, mark) == #[trigger] text.take(n) && (forall|
                i: int,
            |
                n <= i < text.len() ==> #[trigger] text[i] == mark) && (n > 0 ==> text[n - 1]
                != mark),
    decreases text.len(),
{
    if text.len() > 0 && text.last() == mark {
        let rest = text.drop_last();
        lemma_stripped_end(rest, mark);
        let n = choose|n: int|
            0 <= n <= rest.len() && stripped_end(rest, mark) == #[trigger] rest.take(n) && (forall|
                i: int,
            |
                n <= i < rest.len() ==> #[trigger] rest[i] == mark) && (n > 0 ==> rest[n - 1]
                != mark);
        assert(rest.take(n) == text.take(n));
        assert forall|i: int| n <= i < text.len() implies #[trigger] text[i] == mark by {
            if i < rest.len() {
                assert(rest[i] == text[i]);
            }
        }
    } else {
        assert(text.take(text.len() as int) == text);
    }
}

/// Whether `words` is `text` without `mark` at its ends.
pub open spec fn strips_to(
    text: Seq<char>,
    mark: char,
    from: int,
    to: int,
    words: Seq<char>,
) -> bool {
    &&& 0 <= from <= to <= text.len()
    &&& words == text.subrange(from, to)
    &&& forall|i: int| 0 <= i < from || to <= i < text.len() ==> #[trigger] text[i] == mark
    &&& words.len() > 0 ==> words[0] != mark && words.last() != mark
}

/// Stripping a text of a mark takes away that mark at its ends and nothing else.
pub proof fn law_stripped_texts_keep_their_words(text: Seq<char>, mark: char)
    ensures
        exists|from: int, to: int| #[trigger] strips_to(text, mark, from, to, stripped(text, mark)),
{
    lemma_stripped_start(text, mark);
    let from = choose|n: int|
        0 <= n <= text.len() && stripped_start(text, mark) == #[trigger] text.skip(n) && (forall|
            i: int,
        |
            0 <= i < n ==> #[trigger] text[i] == mark) && (n < text.len() ==> text[n] != mark);
    let rest = text.skip(from);
    lemma_stripped_end(rest, mark);
    let kept = choose|n: int|
        0 <= n <= rest.len() && stripped_end(rest, mark) == #[trigger] rest.take(n) && (forall|
            i: int,
        |
            n <= i < rest.len() ==> #[trigger] rest[i] == mark) && (n > 0 ==> rest[n - 1] != mark);
    let to = from + kept;
    assert(rest.take(kept) == text.subrange(from, to));
    assert forall|i: int| to <= i < text.len() implies #[trigger] text[i] == mark by {
        assert(rest[i - from] == text[i]);
    }
    if kept > 0 {
        assert(rest[0] == text[from]);
        assert(rest[kept - 1] == text[to - 1]);
    }
    assert(strips_to(text, mark, from, to, stripped(text, mark)));
}

/// A part is found wherever it stands, at the beginning and at the end too, and what follows a
/// prefix is all the rest.
pub proof fn law_parts_are_found(before: Seq<char>, part: Seq<char>, after: Seq<char>)
    ensures
        has_part(before + part + after, part),
        has_prefix(part + after, part),
        after_prefix(part + after, part) == Some(after),
        has_suffix(before + part, part),
{
    let whole = before + part + after;
    let i = before.len() as int;
    assert(whole.subrange(i, i + part.len()) == part);
    assert((part + after).take(part.len() as int) == part);
    assert((part + after).skip(part.len() as int) == after);
    assert((before + part).skip(before.len() as int) == part);
}

/// Only what stands in a text is found in it: a text is made of what stands before the part, the
/// part, and what stands behind it.
pub proof fn law_found_parts_are_there(text: Seq<char>, part: Seq<char>)
    ensures
        has_part(text, part) ==> exists|before: Seq<char>, after: Seq<char>|
            text == #[trigger] (before + part + after),
        has_prefix(text, part) ==> exists|after: Seq<char>| text == #[trigger] (part + after),
        has_suffix(text, part) ==> exists|before: Seq<char>| text == #[trigger] (before + part),
        after_prefix(text, part) matches Some(rest) ==> text == part + rest,
{
    if has_part(text, part) {
        let i = choose|i: int|
            0 <= i && i + part.len() <= text.len() && #[trigger] text.subrange(
                i,
                i + part.len(),
            ) == part;
        let before = text.take(i);
        let after = text.skip(i + part.len());
        assert(text =~= before + part + after);
    }
    if has_prefix(text, part) {
        assert(text =~= part + text.skip(part.len() as int));
    }
    if has_suffix(text, part) {
        assert(text =~= text.take(text.len() - part.len()) + part);
    }
}

/// Lower case changes the capital ASCII letters, each to its small letter, and nothing else.
pub proof fn law_lower_case_changes_capitals_only(text: Seq<char>)
    ensures
        lowered(text).len() == text.len(),
        forall|i: int|
            0 <= i < text.len() ==> {
                let from = text[i] as int;
                #[trigger] lowered(text)[i] as int == (if 65 <= from <= 90 {
                    from + 32
                } else {
                    from
                })
            },
{
    assert forall|i: int| 0 <= i < text.len() implies ({
        let from = text[i] as int;
        #[trigger] lowered(text)[i] as int == (if 65 <= from <= 90 {
            from + 32
        } else {
            from
        })
    }) by {
        assert(lowered(text)[i] == lowered_char(text[i]));
    }
}

/// The number that decimal digits stand for.
pub open spec fn number_of(digits: Seq<char>) -> int
    decreases digits.len(),
{
    if digits.len() == 0 {
        0
    } else {
        10 * number_of(digits.drop_last()) + (digits.last() as int - '0' as int)
    }
}

/// A number in decimal is made of digits, begins with a zero only where it is zero, and stands for
/// that number.
pub proof fn law_decimals_stand_for_their_number(number: nat)
    ensures
        number_of(decimal(number)) == number,
        decimal(number).len() > 0,
        forall|i: int| 0 <= i < decimal(number).len() ==> '0' <= #[trigger] decimal(number)[i]
            <= '9',
        number > 0 ==> decimal(number)[0] != '0',
    decreases number,
{
    if number < 10 {
        let digits = decimal(number);
        assert(digits.drop_last() == Seq::<char>::empty());
        assert(number_of(digits.drop_last()) == 0);
    } else {
        law_decimals_stand_for_their_number(number / 10);
        let before = decimal(number / 10);
        let digits = decimal(number);
        assert(digits == before.push(digit_char(number % 10)));
        assert(digits.drop_last() == before);
    }
}

} // verus!
