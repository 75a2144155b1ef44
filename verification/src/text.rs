//! Text as sequences of characters: searching, trimming, joining, and writing
//! numbers in decimal.

use vstd::prelude::*;

verus! {

/// Whether `pattern` stands in `text` at position `at`.
pub open spec fn occurs_at(text: Seq<char>, pattern: Seq<char>, at: int) -> bool {
    0 <= at && at + pattern.len() <= text.len() && text.subrange(at, at + pattern.len())
        == pattern
}

/// Whether `text` begins with `pattern`.
pub open spec fn starts_with(text: Seq<char>, pattern: Seq<char>) -> bool {
    occurs_at(text, pattern, 0)
}

/// Whether `text` ends with `pattern`.
pub open spec fn ends_with(text: Seq<char>, pattern: Seq<char>) -> bool {
    occurs_at(text, pattern, text.len() - pattern.len())
}

/// The least position, not before `from`, at which `pattern` stands in `text`.
pub open spec fn find_from(text: Seq<char>, pattern: Seq<char>, from: int) -> Option<int>
    decreases text.len() - from,
{
    if from < 0 || from + pattern.len() > text.len() {
        None
    } else if occurs_at(text, pattern, from) {
        Some(from)
    } else if from < text.len() {
        find_from(text, pattern, from + 1)
    } else {
        None
    }
}

/// `text` without any repetition of `suffix` at its end.
pub open spec fn trim_end_matches(text: Seq<char>, suffix: Seq<char>) -> Seq<char>
    decreases text.len(),
{
    if suffix.len() > 0 && ends_with(text, suffix) {
        trim_end_matches(text.subrange(0, text.len() - suffix.len()), suffix)
    } else {
        text
    }
}

/// The character that writes a digit.
pub open spec fn digit_char(digit: nat) -> char {
    if digit == 0 {
        '0'
    } else if digit == 1 {
        '1'
    } else if digit == 2 {
        '2'
    } else if digit == 3 {
        '3'
    } else if digit == 4 {
        '4'
    } else if digit == 5 {
        '5'
    } else if digit == 6 {
        '6'
    } else if digit == 7 {
        '7'
    } else if digit == 8 {
        '8'
    } else {
        '9'
    }
}

/// A number written in decimal, without leading zeros.
pub open spec fn decimal(n: nat) -> Seq<char>
    decreases n,
{
    if n < 10 {
        seq![digit_char(n)]
    } else {
        decimal(n / 10).push(digit_char(n % 10))
    }
}

/// The lowest `width` digits of a number in decimal: the number with zeros in
/// front, where it has fewer digits.
pub open spec fn padded_decimal(n: nat, width: nat) -> Seq<char>
    decreases width,
{
    if width == 0 {
        Seq::empty()
    } else {
        padded_decimal(n / 10, (width - 1) as nat).push(digit_char(n % 10))
    }
}

/// The parts one after another, with `separator` between each two.
pub open spec fn join(parts: Seq<Seq<char>>, separator: Seq<char>) -> Seq<char>
    decreases parts.len(),
{
    if parts.len() == 0 {
        Seq::empty()
    } else if parts.len() == 1 {
        parts[0]
    } else {
        join(parts.drop_last(), separator) + separator + parts.last()
    }
}

/// Whether a character is one of the 128 of ASCII.
pub open spec fn is_ascii_char(c: char) -> bool {
    c <= '\u{7f}'
}

/// Whether a character is a hexadecimal digit, in either case.
pub open spec fn is_hex_digit(c: char) -> bool {
    ('0' <= c && c <= '9') || ('a' <= c && c <= 'f') || ('A' <= c && c <= 'F')
}

/// The characters of a text.
pub fn chars_of(text: &str) -> (chars: Vec<char>)
    ensures
        chars@ == text@,
{
    broadcast use vstd::string::group_string_axioms;

    let mut chars: Vec<char> = Vec::new();
    for c in it: text.chars()
        invariant
            it.seq() == text@,
            chars@ == it.seq().subrange(0, it.index()),
    {
        chars.push(c);
    }
    chars
}

/// Whether `pattern` stands in `text` at position `at`.
pub fn has_at(text: &Vec<char>, pattern: &Vec<char>, at: usize) -> (found: bool)
    ensures
        found == occurs_at(text@, pattern@, at as int),
{
    if pattern.len() > text.len() || at > text.len() - pattern.len() {
        return false;
    }
    let mut k: usize = 0;
    while k < pattern.len()
        invariant
            k <= pattern.len(),
            at + pattern.len() <= text.len(),
            forall|j: int| 0 <= j < k ==> text@[at + j] == pattern@[j],
        decreases pattern.len() - k,
    {
        if text[at + k] != pattern[k] {
            assert(text@.subrange(at as int, at + pattern.len())[k as int] != pattern@[k as int]);
            return false;
        }
        k += 1;
    }
    assert(text@.subrange(at as int, at + pattern.len()) =~= pattern@);
    true
}

/// The least position, not before `from`, at which `pattern` stands in `text`.
pub fn find(text: &Vec<char>, pattern: &Vec<char>, from: usize) -> (found: Option<usize>)
    ensures
        found is Some == find_from(text@, pattern@, from as int) is Some,
        found matches Some(at) ==> find_from(text@, pattern@, from as int) == Some(at as int)
            && from <= at && occurs_at(text@, pattern@, at as int),
{
    if pattern.len() > text.len() {
        return None;
    }
    let last: usize = text.len() - pattern.len();
    let mut at: usize = from;
    while at <= last
        invariant
            last == text.len() - pattern.len(),
            from <= at,
            find_from(text@, pattern@, from as int) == find_from(text@, pattern@, at as int),
        decreases last + 1 - at,
    {
        if has_at(text, pattern, at) {
            return Some(at);
        }
        if at == last {
            assert(find_from(text@, pattern@, at + 1) is None);
            return None;
        }
        at += 1;
    }
    None
}

/// How long `text` is without any repetition of `suffix` at its end.
pub fn trimmed_len(text: &Vec<char>, suffix: &Vec<char>) -> (len: usize)
    ensures
        len <= text.len(),
        text@.subrange(0, len as int) == trim_end_matches(text@, suffix@),
{
    let mut len: usize = text.len();
    assert(text@.subrange(0, len as int) =~= text@);
    if suffix.len() == 0 {
        return len;
    }
    while len >= suffix.len() && has_at(text, suffix, len - suffix.len())
        invariant
            len <= text.len(),
            suffix.len() > 0,
            trim_end_matches(text@, suffix@) == trim_end_matches(
                text@.subrange(0, len as int),
                suffix@,
            ),
        decreases len,
    {
        proof {
            let head = text@.subrange(0, len as int);
            let cut = len - suffix.len();
            assert(head.subrange(cut, cut + suffix@.len()) =~= text@.subrange(
                cut,
                cut + suffix@.len(),
            ));
            assert(head.subrange(0, cut) =~= text@.subrange(0, cut));
        }
        len -= suffix.len();
    }
    proof {
        let head = text@.subrange(0, len as int);
        if len >= suffix.len() {
            let cut = len - suffix.len();
            assert(head.subrange(cut, cut + suffix@.len()) =~= text@.subrange(
                cut,
                cut + suffix@.len(),
            ));
        }
    }
    len
}

/// The text that writes one digit.
fn digit_text(digit: u64) -> (text: &'static str)
    requires
        digit < 10,
    ensures
        text@ == seq![digit_char(digit as nat)],
{
    proof {
        reveal_strlit("0");
        reveal_strlit("1");
        reveal_strlit("2");
        reveal_strlit("3");
        reveal_strlit("4");
        reveal_strlit("5");
        reveal_strlit("6");
        reveal_strlit("7");
        reveal_strlit("8");
        reveal_strlit("9");
    }
    let text = if digit == 0 {
        "0"
    } else if digit == 1 {
        "1"
    } else if digit == 2 {
        "2"
    } else if digit == 3 {
        "3"
    } else if digit == 4 {
        "4"
    } else if digit == 5 {
        "5"
    } else if digit == 6 {
        "6"
    } else if digit == 7 {
        "7"
    } else if digit == 8 {
        "8"
    } else {
        "9"
    };
    assert(text@ =~= seq![digit_char(digit as nat)]);
    text
}

/// Appends `n`, written in decimal, to `out`.
pub fn push_decimal(out: &mut String, n: u64)
    ensures
        final(out)@ == old(out)@ + decimal(n as nat),
    decreases n,
{
    if n >= 10 {
        push_decimal(out, n / 10);
    }
    out.append(digit_text(n % 10));
    proof {
        if n >= 10 {
            assert(old(out)@ + decimal(n as nat / 10) + seq![digit_char(n as nat % 10)] =~= old(
                out,
            )@ + decimal(n as nat / 10).push(digit_char(n as nat % 10)));
        }
    }
}

/// `n` written in decimal.
pub fn decimal_string(n: u64) -> (text: String)
    ensures
        text@ == decimal(n as nat),
{
    let mut text = String::new();
    push_decimal(&mut text, n);
    assert(Seq::<char>::empty() + decimal(n as nat) =~= decimal(n as nat));
    text
}

/// The characters of each text of a sequence.
pub open spec fn texts_view(texts: Seq<String>) -> Seq<Seq<char>> {
    texts.map_values(|text: String| text@)
}

/// The texts one after another, with `separator` between each two.
pub fn join_texts(parts: &Vec<String>, separator: &str) -> (joined: String)
    ensures
        joined@ == join(texts_view(parts@), separator@),
{
    let mut joined = String::new();
    let mut i: usize = 0;
    assert(texts_view(parts@).subrange(0, 0) =~= Seq::empty());
    while i < parts.len()
        invariant
            i <= parts.len(),
            joined@ == join(texts_view(parts@).subrange(0, i as int), separator@),
        decreases parts.len() - i,
    {
        let ghost done = texts_view(parts@).subrange(0, i as int);
        let ghost next = texts_view(parts@).subrange(0, i + 1);
        assert(next.drop_last() =~= done);
        assert(next.last() == parts@[i as int]@);
        if i > 0 {
            joined.append(separator);
        }
        joined.append(parts[i].as_str());
        assert(joined@ =~= join(next, separator@));
        i += 1;
    }
    assert(texts_view(parts@).subrange(0, i as int) =~= texts_view(parts@));
    joined
}

/// Whether two texts hold the same characters.
pub fn same_text(a: &str, b: &str) -> (same: bool)
    ensures
        same == (a@ == b@),
{
    let left = String::from_str(a);
    let right = String::from_str(b);
    left == right
}

/// Whether a character is one of the 128 of ASCII.
pub fn ascii_char(c: char) -> (ascii: bool)
    ensures
        ascii == is_ascii_char(c),
{
    c <= '\u{7f}'
}

/// Whether a character is a hexadecimal digit, in either case.
pub fn hex_digit(c: char) -> (hex: bool)
    ensures
        hex == is_hex_digit(c),
{
    ('0' <= c && c <= '9') || ('a' <= c && c <= 'f') || ('A' <= c && c <= 'F')
}

} // verus!
