//! Operations on text. Each is stated over the sequence of characters of
//! its arguments and proved against that statement.

use vstd::prelude::*;
use vstd::std_specs::iter::IteratorSpec;

verus! {

/// `String::push` of the standard library, which appends the given
/// character to the end of the string.
pub assume_specification[ String::push ](text: &mut String, c: char)
    ensures
        final(text)@ == old(text)@.push(c),
;

/// The characters of `text` in order.
pub fn chars_of(text: &str) -> (chars: Vec<char>)
    ensures
        chars@ == text@,
{
    let mut chars: Vec<char> = Vec::new();
    for c in it: text.chars()
        invariant
            it.seq() == text@,
            chars@ == it.seq().take(it.index() as int),
    {
        chars.push(c);
    }
    chars
}

/// Whether two strings hold the same characters.
pub fn same_text(a: &str, b: &str) -> (same: bool)
    ensures
        same == (a@ == b@),
{
    let owned_a = a.to_owned();
    let owned_b = b.to_owned();
    owned_a == owned_b
}

/// The decimal digit for a value below ten.
pub open spec fn digit_char(d: nat) -> char {
    if d == 0 {
        '0'
    } else if d == 1 {
        '1'
    } else if d == 2 {
        '2'
    } else if d == 3 {
        '3'
    } else if d == 4 {
        '4'
    } else if d == 5 {
        '5'
    } else if d == 6 {
        '6'
    } else if d == 7 {
        '7'
    } else if d == 8 {
        '8'
    } else {
        '9'
    }
}

/// The decimal notation of `n`, without sign or leading zeros.
pub open spec fn decimal(n: nat) -> Seq<char>
    decreases n,
{
    if n < 10 {
        seq![digit_char(n)]
    } else {
        decimal(n / 10).push(digit_char(n % 10))
    }
}

fn digit_text(d: u64) -> (text: &'static str)
    requires
        d < 10,
    ensures
        text@ == seq![digit_char(d as nat)],
{
    proof {
        reveal_strlit("0");
        reveal_strlit("1");
        reveal_strlit("2");
        reveal_strlit("3");
        reveal_strlit("4");
        reveal_strlit("5");
        reveal_strlit("6");
        reveal_strlit("7");
        reveal_strlit("8");
        reveal_strlit("9");
    }
    let text = if d == 0 {
        "0"
    } else if d == 1 {
        "1"
    } else if d == 2 {
        "2"
    } else if d == 3 {
        "3"
    } else if d == 4 {
        "4"
    } else if d == 5 {
        "5"
    } else if d == 6 {
        "6"
    } else if d == 7 {
        "7"
    } else if d == 8 {
        "8"
    } else {
        "9"
    };
    assert(text@ =~= seq![digit_char(d as nat)]);
    text
}

/// The decimal notation of `n`.
pub fn decimal_text(n: u64) -> (text: String)
    ensures
        text@ == decimal(n as nat),
    decreases n,
{
    if n < 10 {
        digit_text(n).to_owned()
    } else {
        let mut text = decimal_text(n / 10);
        text.append(digit_text(n % 10));
        assert(text@ =~= decimal(n as nat));
        text
    }
}

/// Whether the characters of `text` from position `at` on begin with `pattern`.
pub open spec fn occurs_at(text: Seq<char>, pattern: Seq<char>, at: int) -> bool {
    0 <= at && at + pattern.len() <= text.len() && text.subrange(at, at + pattern.len())
        == pattern
}

/// `text` with every occurrence of `pattern` replaced by `with`, found from
/// left to right without overlap. An empty pattern occurs nowhere.
pub open spec fn replaced(text: Seq<char>, pattern: Seq<char>, with: Seq<char>) -> Seq<char>
    decreases text.len(),
{
    if pattern.len() == 0 || text.len() < pattern.len() {
        text
    } else if occurs_at(text, pattern, 0) {
        with + replaced(text.subrange(pattern.len() as int, text.len() as int), pattern, with)
    } else {
        seq![text[0]] + replaced(text.subrange(1, text.len() as int), pattern, with)
    }
}

fn occurs_at_index(text: &Vec<char>, pattern: &Vec<char>, at: usize) -> (found: bool)
    requires
        at + pattern.len() <= text.len(),
    ensures
        found == occurs_at(text@, pattern@, at as int),
{
    let mut k: usize = 0;
    while k < pattern.len()
        invariant
            k <= pattern.len(),
            at + pattern.len() <= text.len(),
            forall|j: int| 0 <= j < k ==> text@[at + j] == pattern@[j],
        decreases pattern.len() - k,
    {
        if text[at + k] != pattern[k] {
            assert(text@.subrange(at as int, at + pattern.len())[k as int] != pattern@[k as int]);
            return false;
        }
        k = k + 1;
    }
    assert(text@.subrange(at as int, at + pattern.len()) =~= pattern@);
    true
}

/// `text` with every occurrence of `pattern` replaced by `with`.
pub fn replace_all(text: &str, pattern: &str, with: &str) -> (out: String)
    ensures
        out@ == replaced(text@, pattern@, with@),
{
    let chars = chars_of(text);
    let pat = chars_of(pattern);
    let n = chars.len();
    let m = pat.len();
    if m == 0 || n < m {
        return text.to_owned();
    }
    let mut out = String::new();
    let mut start: usize = 0;
    let mut i: usize = 0;
    assert(text@.subrange(0, 0) =~= Seq::<char>::empty());
    assert(text@.subrange(0, n as int) =~= text@);
    while i <= n - m
        invariant
            0 < m <= n,
            n == text@.len(),
            m == pattern@.len(),
            chars@ == text@,
            pat@ == pattern@,
            start <= i <= n,
            out@ + text@.subrange(start as int, i as int) + replaced(
                text@.subrange(i as int, n as int),
                pattern@,
                with@,
            ) == replaced(text@, pattern@, with@),
        decreases n - i,
    {
        let ghost rest = text@.subrange(i as int, n as int);
        let ghost pending = text@.subrange(start as int, i as int);
        let ghost before = out@;
        let found = occurs_at_index(&chars, &pat, i);
        assert(rest.subrange(0, m as int) =~= text@.subrange(i as int, i + m));
        if found {
            assert(occurs_at(rest, pattern@, 0));
            assert(rest.subrange(m as int, rest.len() as int) =~= text@.subrange(
                i + m,
                n as int,
            ));
            out.append(text.substring_char(start, i));
            out.append(with);
            i = i + m;
            start = i;
            assert(text@.subrange(start as int, i as int) =~= Seq::<char>::empty());
            assert(out@ + text@.subrange(start as int, i as int) + replaced(
                text@.subrange(i as int, n as int),
                pattern@,
                with@,
            ) =~= (before + pending) + (with@ + replaced(
                text@.subrange(i as int, n as int),
                pattern@,
                with@,
            ))) by {
                assert(out@ =~= before + pending + with@);
            }
        } else {
            assert(!occurs_at(rest, pattern@, 0));
            assert(rest.subrange(1, rest.len() as int) =~= text@.subrange(i + 1, n as int));
            assert(pending + seq![rest[0]] =~= text@.subrange(start as int, i + 1));
            assert((out@ + pending) + (seq![rest[0]] + replaced(
                text@.subrange(i + 1, n as int),
                pattern@,
                with@,
            )) =~= out@ + text@.subrange(start as int, i + 1) + replaced(
                text@.subrange(i + 1, n as int),
                pattern@,
                with@,
            ));
            i = i + 1;
        }
    }
    assert(text@.subrange(start as int, i as int) + text@.subrange(i as int, n as int)
        =~= text@.subrange(start as int, n as int));
    assert(out@ + text@.subrange(start as int, i as int) + text@.subrange(i as int, n as int)
        =~= out@ + text@.subrange(start as int, n as int));
    out.append(text.substring_char(start, n));
    out
}

/// Whether `c` is white space: a character with the Unicode property
/// `White_Space`.
pub open spec fn is_space(c: char) -> bool {
    let u = c as u32;
    ||| 0x09 <= u <= 0x0d
    ||| u == 0x20
    ||| u == 0x85
    ||| u == 0xa0
    ||| u == 0x1680
    ||| 0x2000 <= u <= 0x200a
    ||| u == 0x2028
    ||| u == 0x2029
    ||| u == 0x202f
    ||| u == 0x205f
    ||| u == 0x3000
}

/// Whether `c` is white space.
pub fn is_space_char(c: char) -> (space: bool)
    ensures
        space == is_space(c),
{
    let u: u32 = c as u32;
    (0x09 <= u && u <= 0x0d) || u == 0x20 || u == 0x85 || u == 0xa0 || u == 0x1680 || (0x2000
        <= u && u <= 0x200a) || u == 0x2028 || u == 0x2029 || u == 0x202f || u == 0x205f || u
        == 0x3000
}

/// `text` without its leading white space.
pub open spec fn trimmed_start(text: Seq<char>) -> Seq<char>
    decreases text.len(),
{
    if text.len() > 0 && is_space(text[0]) {
        trimmed_start(text.drop_first())
    } else {
        text
    }
}

/// `text` without its trailing white space.
pub open spec fn trimmed_end(text: Seq<char>) -> Seq<char>
    decreases text.len(),
{
    if text.len() > 0 && is_space(text.last()) {
        trimmed_end(text.drop_last())
    } else {
        text
    }
}

/// `text` without leading and trailing white space.
pub open spec fn trimmed(text: Seq<char>) -> Seq<char> {
    trimmed_end(trimmed_start(text))
}

/// `text` without leading and trailing white space.
pub fn trim(text: &str) -> (out: String)
    ensures
        out@ == trimmed(text@),
{
    let chars = chars_of(text);
    let n = chars.len();
    let mut start: usize = 0;
    assert(text@.subrange(0, n as int) =~= text@);
    while start < n && is_space_char(chars[start])
        invariant
            start <= n,
            n == text@.len(),
            chars@ == text@,
            trimmed_start(text@) == trimmed_start(text@.subrange(start as int, n as int)),
        decreases n - start,
    {
        assert(text@.subrange(start as int, n as int).drop_first() =~= text@.subrange(
            start + 1,
            n as int,
        ));
        start = start + 1;
    }
    let mut end: usize = n;
    while end > start && is_space_char(chars[end - 1])
        invariant
            start <= end <= n,
            n == text@.len(),
            chars@ == text@,
            trimmed_start(text@) == text@.subrange(start as int, n as int),
            trimmed(text@) == trimmed_end(text@.subrange(start as int, end as int)),
        decreases end,
    {
        assert(text@.subrange(start as int, end as int).drop_last() =~= text@.subrange(
            start as int,
            end - 1,
        ));
        end = end - 1;
    }
    text.substring_char(start, end).to_owned()
}

/// Whether `c` is one of the digits `0` to `9`.
pub open spec fn is_digit(c: char) -> bool {
    0x30 <= c as u32 <= 0x39
}

/// The value of the digit `c`.
pub open spec fn digit_value(c: char) -> nat {
    (c as u32 - 0x30) as nat
}

/// Whether `text` holds decimal digits only.
pub open spec fn all_digits(text: Seq<char>) -> bool {
    forall|i: int| 0 <= i < text.len() ==> is_digit(#[trigger] text[i])
}

/// The number that the digits of `text` denote.
pub open spec fn digits_value(text: Seq<char>) -> nat
    decreases text.len(),
{
    if text.len() == 0 {
        0
    } else {
        digits_value(text.drop_last()) * 10 + digit_value(text.last())
    }
}

/// The number that `text` denotes: decimal digits, at least one, after an
/// optional `+`, with a value that fits in 32 bits. Anything else denotes
/// no number.
pub open spec fn parsed_u32(text: Seq<char>) -> Option<u32> {
    if text.len() > 0 && text[0] == '+' {
        digits_u32(text.drop_first())
    } else {
        digits_u32(text)
    }
}

/// The number that `digits` denotes: decimal digits, at least one, with a
/// value that fits in 32 bits.
pub open spec fn digits_u32(digits: Seq<char>) -> Option<u32> {
    if digits.len() > 0 && all_digits(digits) && digits_value(digits) <= u32::MAX {
        Some(digits_value(digits) as u32)
    } else {
        None
    }
}

/// A longer run of digits denotes no smaller number than its beginning.
proof fn lemma_digits_value_grows(text: Seq<char>, k: int)
    requires
        0 <= k <= text.len(),
    ensures
        digits_value(text.take(k)) <= digits_value(text),
    decreases text.len(),
{
    if k == text.len() {
        assert(text.take(k) =~= text);
    } else {
        assert(text.drop_last().take(k) =~= text.take(k));
        lemma_digits_value_grows(text.drop_last(), k);
    }
}

/// Reads `text` as an unsigned number of 32 bits.
pub fn parse_u32(text: &str) -> (number: Option<u32>)
    ensures
        number == parsed_u32(text@),
{
    let chars = chars_of(text);
    let n = chars.len();
    let first: usize = if n > 0 && chars[0] == '+' {
        1
    } else {
        0
    };
    if first == n {
        return None;
    }
    let ghost digits = text@.subrange(first as int, n as int);
    assert(digits =~= if text@.len() > 0 && text@[0] == '+' {
        text@.drop_first()
    } else {
        text@
    });
    let mut value: u64 = 0;
    let mut i: usize = first;
    assert(digits.take(0) =~= Seq::<char>::empty());
    while i < n
        invariant
            first <= i <= n,
            n == text@.len(),
            chars@ == text@,
            first < n,
            digits == text@.subrange(first as int, n as int),
            parsed_u32(text@) == digits_u32(digits),
            all_digits(digits.take(i - first)),
            value == digits_value(digits.take(i - first)),
            value <= u32::MAX,
        decreases n - i,
    {
        let c = chars[i];
        let u: u32 = c as u32;
        assert(digits[i - first] == c);
        if u < 0x30 || u > 0x39 {
            assert(!all_digits(digits));
            return None;
        }
        let ghost longer = digits.take(i - first + 1);
        assert(longer.drop_last() =~= digits.take(i - first));
        assert(longer.last() == c);
        assert(all_digits(longer)) by {
            assert forall|j: int| 0 <= j < longer.len() implies is_digit(#[trigger] longer[j]) by {
                if j < i - first {
                    assert(digits.take(i - first)[j] == longer[j]);
                }
            }
        }
        let next: u64 = value * 10 + (u - 0x30) as u64;
        assert(next == digits_value(longer));
        if next > 0xffff_ffff {
            proof {
                lemma_digits_value_grows(digits, i - first + 1);
            }
            return None;
        }
        value = next;
        i = i + 1;
    }
    assert(digits.take(n - first) =~= digits);
    Some(value as u32)
}

/// The characters of `text` after its last line feed, or all of them where
/// it has none.
pub open spec fn after_last_newline(text: Seq<char>) -> Seq<char>
    decreases text.len(),
{
    if text.len() == 0 || text.last() == '\n' {
        Seq::empty()
    } else {
        after_last_newline(text.drop_last()).push(text.last())
    }
}

/// The last line of `text`. Lines end in a line feed; the one that ends the
/// text begins no further line, and a carriage return just before a line feed
/// belongs to the line ending. A text without characters has the empty
/// line as its last.
pub open spec fn last_line(text: Seq<char>) -> Seq<char> {
    if text.len() > 0 && text.last() == '\n' {
        let line = after_last_newline(text.drop_last());
        if line.len() > 0 && line.last() == '\r' {
            line.drop_last()
        } else {
            line
        }
    } else {
        after_last_newline(text)
    }
}

/// The last line of `text`, without its line ending.
pub fn get_last_line(text: &str) -> (line: String)
    ensures
        line@ == last_line(text@),
{
    let chars = chars_of(text);
    let n = chars.len();
    let ended = n > 0 && chars[n - 1] == '\n';
    let end: usize = if ended {
        n - 1
    } else {
        n
    };
    let ghost body = text@.subrange(0, end as int);
    assert(body =~= if ended {
        text@.drop_last()
    } else {
        text@
    });
    let mut start: usize = end;
    assert(body.subrange(end as int, end as int) =~= Seq::<char>::empty());
    assert(body.subrange(0, end as int) =~= body);
    while start > 0 && chars[start - 1] != '\n'
        invariant
            start <= end <= n,
            n == text@.len(),
            chars@ == text@,
            body == text@.subrange(0, end as int),
            after_last_newline(body) == after_last_newline(body.subrange(0, start as int))
                + body.subrange(start as int, end as int),
        decreases start,
    {
        let ghost head = body.subrange(0, start as int);
        assert(head.drop_last() =~= body.subrange(0, start - 1));
        assert(head.last() == chars@[start - 1]);
        assert(after_last_newline(head.drop_last()).push(head.last()) + body.subrange(
            start as int,
            end as int,
        ) =~= after_last_newline(head.drop_last()) + body.subrange(start - 1, end as int));
        start = start - 1;
    }
    assert(after_last_newline(body.subrange(0, start as int)) =~= Seq::<char>::empty());
    assert(after_last_newline(body) =~= text@.subrange(start as int, end as int));
    let stop: usize = if ended && end > start && chars[end - 1] == '\r' {
        end - 1
    } else {
        end
    };
    if end > start {
        assert(text@.subrange(start as int, end as int).drop_last() =~= text@.subrange(
            start as int,
            end - 1,
        ));
    }
    text.substring_char(start, stop).to_owned()
}

/// The items of `items` in order, with `separator` between neighbours.
pub open spec fn joined(items: Seq<Seq<char>>, separator: Seq<char>) -> Seq<char>
    decreases items.len(),
{
    if items.len() == 0 {
        Seq::empty()
    } else if items.len() == 1 {
        items[0]
    } else {
        joined(items.drop_last(), separator) + separator + items.last()
    }
}

/// The views of the strings of `items`.
pub open spec fn texts_of(items: Seq<String>) -> Seq<Seq<char>> {
    items.map_values(|item: String| item@)
}

/// The strings of `items` in order, with `separator` between neighbours.
pub fn join(items: &Vec<String>, separator: &str) -> (out: String)
    ensures
        out@ == joined(texts_of(items@), separator@),
{
    let mut out = String::new();
    let mut i: usize = 0;
    assert(texts_of(items@).take(0) =~= Seq::<Seq<char>>::empty());
    while i < items.len()
        invariant
            i <= items.len(),
            out@ == joined(texts_of(items@).take(i as int), separator@),
        decreases items.len() - i,
    {
        let ghost longer = texts_of(items@).take(i + 1);
        assert(longer.drop_last() =~= texts_of(items@).take(i as int));
        assert(longer.last() == items@[i as int]@);
        if i > 0 {
            out.append(separator);
        }
        out.append(items[i].as_str());
        assert(out@ =~= joined(longer, separator@));
        i = i + 1;
    }
    assert(texts_of(items@).take(items.len() as int) =~= texts_of(items@));
    out
}

} // verus!
