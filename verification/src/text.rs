//! Text of attribute files: trimming a line, reading and writing hexadecimal.

use vstd::prelude::*;

verus! {

/// The characters of an optional text.
pub open spec fn opt_text(text: Option<String>) -> Option<Seq<char>> {
    match text {
        Some(t) => Some(t@),
        None => None,
    }
}

/// The characters of each of a list of optional texts.
pub open spec fn opt_texts(texts: Seq<Option<String>>) -> Seq<Option<Seq<char>>> {
    Seq::new(texts.len(), |i: int| opt_text(texts[i]))
}

/// Whether `c` is whitespace: a character with the Unicode property
/// White_Space.
pub open spec fn is_whitespace(c: char) -> bool {
    let u = c as u32;
    ||| 0x09 <= u <= 0x0d
    ||| u == 0x20
    ||| u == 0x85
    ||| u == 0xa0
    ||| u == 0x1680
    ||| 0x2000 <= u <= 0x200a
    ||| u == 0x2028
    ||| u == 0x2029
    ||| u == 0x202f
    ||| u == 0x205f
    ||| u == 0x3000
}

/// Whether `c` is whitespace.
pub fn whitespace(c: char) -> (b: bool)
    ensures
        b == is_whitespace(c),
{
    let u: u32 = c as u32;
    (0x09 <= u && u <= 0x0d) || u == 0x20 || u == 0x85 || u == 0xa0 || u == 0x1680 || (0x2000 <= u
        && u <= 0x200a) || u == 0x2028 || u == 0x2029 || u == 0x202f || u == 0x205f || u == 0x3000
}

/// `s` without its leading whitespace.
pub open spec fn trim_start(s: Seq<char>) -> Seq<char>
    decreases s.len(),
{
    if s.len() > 0 && is_whitespace(s[0]) {
        trim_start(s.skip(1))
    } else {
        s
    }
}

/// `s` without its trailing whitespace.
pub open spec fn trim_end(s: Seq<char>) -> Seq<char>
    decreases s.len(),
{
    if s.len() > 0 && is_whitespace(s.last()) {
        trim_end(s.drop_last())
    } else {
        s
    }
}

/// `s` without leading and trailing whitespace.
pub open spec fn trimmed(s: Seq<char>) -> Seq<char> {
    trim_end(trim_start(s))
}

/// Skipping `i` leading whitespace characters leaves the leading trim as it was.
proof fn lemma_trim_start_skip(s: Seq<char>, i: int)
    requires
        0 <= i <= s.len(),
        forall|k: int| 0 <= k < i ==> is_whitespace(#[trigger] s[k]),
    ensures
        trim_start(s) == trim_start(s.skip(i)),
    decreases i,
{
    if i > 0 {
        lemma_trim_start_skip(s, i - 1);
        let t = s.skip(i - 1);
        assert(t[0] == s[i - 1]);
        assert(t.skip(1) =~= s.skip(i));
    } else {
        assert(s.skip(0) =~= s);
    }
}

/// Dropping trailing whitespace down to length `j` leaves the trailing trim as it was.
proof fn lemma_trim_end_take(s: Seq<char>, j: int)
    requires
        0 <= j <= s.len(),
        forall|k: int| j <= k < s.len() ==> is_whitespace(#[trigger] s[k]),
    ensures
        trim_end(s) == trim_end(s.take(j)),
    decreases s.len() - j,
{
    if j < s.len() {
        lemma_trim_end_take(s.drop_last(), j);
        assert(s.drop_last().take(j) =~= s.take(j));
    } else {
        assert(s.take(j) =~= s);
    }
}

/// The line without the whitespace around it.
pub fn trim(line: &str) -> (out: String)
    ensures
        out@ == trimmed(line@),
{
    let n: usize = line.unicode_len();
    let mut i: usize = 0;
    while i < n && whitespace(line.get_char(i))
        invariant
            i <= n == line@.len(),
            forall|k: int| 0 <= k < i ==> is_whitespace(#[trigger] line@[k]),
        decreases n - i,
    {
        i += 1;
    }
    let mut j: usize = n;
    while j > i && whitespace(line.get_char(j - 1))
        invariant
            i <= j <= n == line@.len(),
            forall|k: int| j <= k < n ==> is_whitespace(#[trigger] line@[k]),
        decreases j,
    {
        j -= 1;
    }
    proof {
        let rest = line@.skip(i as int);
        lemma_trim_start_skip(line@, i as int);
        assert(trim_start(rest) == rest);
        lemma_trim_end_take(rest, j - i);
        let kept = rest.take(j - i);
        assert(kept =~= line@.subrange(i as int, j as int));
        assert(trim_end(kept) == kept) by {
            if kept.len() > 0 {
                assert(kept.last() == line@[j - 1]);
            }
        }
    }
    line.substring_char(i, j).to_owned()
}

/// The length of the first line of `s`, its line feed included.
pub open spec fn line_end(s: Seq<char>) -> nat
    decreases s.len(),
{
    if s.len() == 0 {
        0
    } else if s[0] == '\n' {
        1
    } else {
        1 + line_end(s.skip(1))
    }
}

/// The first line of `s`: up to and with its first line feed, or all of
/// it where it has none.
pub open spec fn first_line(s: Seq<char>) -> Seq<char> {
    s.take(line_end(s) as int)
}

/// After `i` characters that are no line feed, the line ends where the
/// rest's first line ends.
proof fn lemma_line_end_skip(s: Seq<char>, i: int)
    requires
        0 <= i <= s.len(),
        forall|k: int| 0 <= k < i ==> #[trigger] s[k] != '\n',
    ensures
        line_end(s) == i + line_end(s.skip(i)),
    decreases i,
{
    if i > 0 {
        lemma_line_end_skip(s, i - 1);
        let t = s.skip(i - 1);
        assert(t[0] == s[i - 1]);
        assert(t.skip(1) =~= s.skip(i));
    } else {
        assert(s.skip(0) =~= s);
    }
}

/// The first line of a text, with the line feed that ends it.
pub fn first_line_of(text: &str) -> (line: &str)
    ensures
        line@ == first_line(text@),
{
    let n: usize = text.unicode_len();
    let mut i: usize = 0;
    while i < n && text.get_char(i) != '\n'
        invariant
            i <= n == text@.len(),
            forall|k: int| 0 <= k < i ==> #[trigger] text@[k] != '\n',
        decreases n - i,
    {
        i += 1;
    }
    let end: usize = if i < n {
        i + 1
    } else {
        n
    };
    proof {
        lemma_line_end_skip(text@, i as int);
        if i < n {
            assert(text@.skip(i as int)[0] == text@[i as int]);
        } else {
            assert(text@.skip(i as int).len() == 0);
        }
        assert(text@.take(end as int) =~= text@.subrange(0, end as int));
    }
    text.substring_char(0, end)
}

/// Whether two texts hold the same characters.
pub fn same_text(a: &str, b: &str) -> (same: bool)
    ensures
        same == (a@ == b@),
{
    let n: usize = a.unicode_len();
    if b.unicode_len() != n {
        return false;
    }
    let mut i: usize = 0;
    while i < n
        invariant
            i <= n == a@.len() == b@.len(),
            forall|k: int| 0 <= k < i ==> a@[k] == b@[k],
        decreases n - i,
    {
        if a.get_char(i) != b.get_char(i) {
            return false;
        }
        i += 1;
    }
    assert(a@ =~= b@);
    true
}

/// The value of a hexadecimal digit, of either case.
pub open spec fn hex_digit_value(c: char) -> Option<nat> {
    let u = c as u32;
    if 0x30 <= u <= 0x39 {
        Some((u - 0x30) as nat)
    } else if 0x61 <= u <= 0x66 {
        Some((u - 0x61 + 10) as nat)
    } else if 0x41 <= u <= 0x46 {
        Some((u - 0x41 + 10) as nat)
    } else {
        None
    }
}

/// The number that a run of hexadecimal digits writes, if all of them are digits.
pub open spec fn hex_value(digits: Seq<char>) -> Option<nat>
    decreases digits.len(),
{
    if digits.len() == 0 {
        Some(0)
    } else {
        match (hex_value(digits.drop_last()), hex_digit_value(digits.last())) {
            (Some(high), Some(low)) => Some(16 * high + low),
            _ => None,
        }
    }
}

/// What a text means as a 16-bit hexadecimal number: an optional `+`, then
/// one or more digits whose value fits. Anything else means nothing.
pub open spec fn hex16_of(text: Seq<char>) -> Option<u16> {
    let digits = if text.len() > 1 && text[0] == '+' {
        text.skip(1)
    } else {
        text
    };
    if digits.len() == 0 {
        None
    } else {
        match hex_value(digits) {
            Some(v) => if v <= 0xffff {
                Some(v as u16)
            } else {
                None
            },
            None => None,
        }
    }
}

/// A run of digits that has a value has one on each of its prefixes, and no larger one.
proof fn lemma_hex_value_prefix(digits: Seq<char>, k: int)
    requires
        0 <= k <= digits.len(),
        hex_value(digits) is Some,
    ensures
        hex_value(digits.take(k)) is Some,
        hex_value(digits.take(k))->0 <= hex_value(digits)->0,
    decreases digits.len() - k,
{
    if k < digits.len() {
        lemma_hex_value_prefix(digits.drop_last(), k);
        assert(digits.drop_last().take(k) =~= digits.take(k));
    } else {
        assert(digits.take(k) =~= digits);
    }
}

/// A text that holds a character which is no hexadecimal digit, other than
/// a `+` in front of more, is no number.
pub proof fn lemma_hex16_needs_digits(text: Seq<char>, i: int)
    requires
        0 <= i < text.len(),
        hex_digit_value(text[i]) is None,
        i > 0 || text[0] != '+' || text.len() == 1,
    ensures
        hex16_of(text) is None,
{
    let start: int = if text.len() > 1 && text[0] == '+' {
        1
    } else {
        0
    };
    let digits = text.skip(start);
    assert(text.skip(0) =~= text);
    if hex_value(digits) is Some {
        lemma_hex_value_prefix(digits, i - start + 1);
        let upto = digits.take(i - start + 1);
        assert(upto.last() == text[i]);
        assert(hex_value(upto) is None);
    }
}

fn digit_of(c: char) -> (d: Option<u32>)
    ensures
        d is Some == hex_digit_value(c) is Some,
        d is Some ==> d->0 == hex_digit_value(c)->0 && d->0 < 16,
{
    let u: u32 = c as u32;
    if 0x30 <= u && u <= 0x39 {
        Some(u - 0x30)
    } else if 0x61 <= u && u <= 0x66 {
        Some(u - 0x61 + 10)
    } else if 0x41 <= u && u <= 0x46 {
        Some(u - 0x41 + 10)
    } else {
        None
    }
}

/// Reads a text as a 16-bit hexadecimal number.
pub fn parse_hex16(text: &str) -> (out: Option<u16>)
    ensures
        out == hex16_of(text@),
{
    let n: usize = text.unicode_len();
    let start: usize = if n > 1 && text.get_char(0) == '+' {
        1
    } else {
        0
    };
    if n == 0 {
        return None;
    }
    let ghost digits = text@.skip(start as int);
    proof {
        assert(text@.skip(0) =~= text@);
        assert(digits.take(0) =~= Seq::<char>::empty());
    }
    let mut value: u32 = 0;
    let mut i: usize = start;
    while i < n
        invariant
            start <= i <= n == text@.len(),
            digits == text@.skip(start as int),
            digits == if text@.len() > 1 && text@[0] == '+' {
                text@.skip(1)
            } else {
                text@
            },
            hex_value(digits.take(i - start)) == Some(value as nat),
            value <= 0xffff,
        decreases n - i,
    {
        let ghost before = digits.take(i - start);
        let ghost upto = digits.take(i + 1 - start);
        proof {
            assert(upto.drop_last() =~= before);
            assert(upto.last() == text@[i as int]);
            assert(hex_value(upto) == match (hex_value(before), hex_digit_value(upto.last())) {
                (Some(high), Some(low)) => Some(16 * high + low),
                _ => None,
            });
            if hex_value(digits) is Some {
                lemma_hex_value_prefix(digits, i + 1 - start);
            }
        }
        match digit_of(text.get_char(i)) {
            None => {
                return None;
            },
            Some(d) => {
                value = value * 16 + d;
                if value > 0xffff {
                    return None;
                }
            },
        }
        i += 1;
    }
    proof {
        assert(digits.take(n - start) =~= digits);
    }
    Some(value as u16)
}

/// The upper-case hexadecimal digit for a value below sixteen.
pub open spec fn hex_digit_char(d: int) -> char {
    if d == 0 { '0' } else if d == 1 { '1' } else if d == 2 { '2' } else if d == 3 { '3' }
    else if d == 4 { '4' } else if d == 5 { '5' } else if d == 6 { '6' } else if d == 7 { '7' }
    else if d == 8 { '8' } else if d == 9 { '9' } else if d == 10 { 'A' } else if d == 11 { 'B' }
    else if d == 12 { 'C' } else if d == 13 { 'D' } else if d == 14 { 'E' } else { 'F' }
}

/// A 16-bit number as four upper-case hexadecimal digits, zeros in front.
pub open spec fn hex4(v: u16) -> Seq<char> {
    seq![
        hex_digit_char(v as int / 4096),
        hex_digit_char(v as int / 256 % 16),
        hex_digit_char(v as int / 16 % 16),
        hex_digit_char(v as int % 16),
    ]
}

fn digit_text(d: u16) -> (s: &'static str)
    requires
        d < 16,
    ensures
        s@ == seq![hex_digit_char(d as int)],
{
    proof {
        reveal_strlit("0"); reveal_strlit("1"); reveal_strlit("2"); reveal_strlit("3");
        reveal_strlit("4"); reveal_strlit("5"); reveal_strlit("6"); reveal_strlit("7");
        reveal_strlit("8"); reveal_strlit("9"); reveal_strlit("A"); reveal_strlit("B");
        reveal_strlit("C"); reveal_strlit("D"); reveal_strlit("E"); reveal_strlit("F");
    }
    let s = match d {
        0 => "0", 1 => "1", 2 => "2", 3 => "3", 4 => "4", 5 => "5", 6 => "6", 7 => "7",
        8 => "8", 9 => "9", 10 => "A", 11 => "B", 12 => "C", 13 => "D", 14 => "E", _ => "F",
    };
    assert(s@ =~= seq![hex_digit_char(d as int)]);
    s
}

/// Appends the four hexadecimal digits of `v` to `out`.
pub fn push_hex4(out: &mut String, v: u16)
    ensures
        final(out)@ == old(out)@ + hex4(v),
{
    out.append(digit_text(v / 4096));
    out.append(digit_text(v / 256 % 16));
    out.append(digit_text(v / 16 % 16));
    out.append(digit_text(v % 16));
    assert(out@ =~= old(out)@ + hex4(v));
}

} // verus!
