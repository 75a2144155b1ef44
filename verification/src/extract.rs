//! What is read out of a reply of the model: the announcement of a sale, and
//! the address of a buyer.

use crate::structs::text_view;
use crate::text::{
    ascii_char, chars_of, find, find_from, has_at, hex_digit, is_ascii_char, is_hex_digit,
    occurs_at, starts_with, trim_end_matches, trimmed_len,
};
use vstd::prelude::*;

verus! {

/// The word that opens the announcement of a sale.
pub const SOLD_MARKER: &'static str = "SOLD";

/// What stands between the name of the item and the amount.
pub const OFFER_DELIMITER: &'static str = " for ";

/// What closes the announcement, after the amount.
pub const OFFER_SUFFIX: &'static str = " ETH!";

/// The pattern of an address: `0x` and forty hexadecimal digits.
pub const ADDRESS_PATTERN: &'static str = "0x[a-fA-F0-9]{40}";

/// The number of characters of an address.
pub const ADDRESS_LEN: usize = 42;

/// The name and the amount that a reply announces as sold.
///
/// The reply begins with the marker and holds the delimiter exactly once. The
/// name is what stands between the marker, with the one ASCII character that
/// follows it, and the delimiter; the amount is what follows the delimiter,
/// without any closing suffix.
pub open spec fn sold_reply(input: Seq<char>) -> Option<(Seq<char>, Seq<char>)> {
    let start = SOLD_MARKER@.len() as int + 1;
    if !starts_with(input, SOLD_MARKER@) {
        None
    } else {
        match find_from(input, OFFER_DELIMITER@, 0) {
            None => None,
            Some(cut) => {
                let rest = cut + OFFER_DELIMITER@.len();
                if find_from(input, OFFER_DELIMITER@, rest) is Some {
                    None
                } else if cut < start {
                    None
                } else if !is_ascii_char(input[start - 1]) {
                    None
                } else {
                    Some(
                        (
                            input.subrange(start, cut),
                            trim_end_matches(
                                input.subrange(rest, input.len() as int),
                                OFFER_SUFFIX@,
                            ),
                        ),
                    )
                }
            },
        }
    }
}

/// Reads the announcement of a sale: the name of the item and the amount, as
/// they are written in the reply.
pub fn parse_sold_reply(input: &str) -> (parts: Option<(String, String)>)
    ensures
        match parts {
            Some((name, amount)) => sold_reply(input@) == Some((name@, amount@)),
            None => sold_reply(input@) is None,
        },
{
    let chars = chars_of(input);
    let marker = chars_of(SOLD_MARKER);
    let delimiter = chars_of(OFFER_DELIMITER);
    let suffix = chars_of(OFFER_SUFFIX);
    if !has_at(&chars, &marker, 0) {
        return None;
    }
    match find(&chars, &delimiter, 0) {
        None => None,
        Some(cut) => {
            assert(cut + delimiter.len() <= chars.len()) by {
                assert(occurs_at(chars@, delimiter@, cut as int));
            }
            let rest: usize = cut + delimiter.len();
            if find(&chars, &delimiter, rest).is_some() {
                return None;
            }
            if cut <= marker.len() {
                return None;
            }
            let start: usize = marker.len() + 1;
            if !ascii_char(chars[start - 1]) {
                return None;
            }
            let name = input.substring_char(start, cut);
            let tail = input.substring_char(rest, chars.len());
            let tail_chars = chars_of(tail);
            let kept = trimmed_len(&tail_chars, &suffix);
            let amount = tail.substring_char(0, kept);
            Some((String::from_str(name), String::from_str(amount)))
        },
    }
}

/// Whether a text is an address: `0x` and forty hexadecimal digits.
pub open spec fn is_address(text: Seq<char>) -> bool {
    &&& text.len() == ADDRESS_LEN
    &&& text[0] == '0'
    &&& text[1] == 'x'
    &&& forall|i: int| 2 <= i < text.len() ==> is_hex_digit(#[trigger] text[i])
}

/// Whether a text is an address.
pub fn check_address(text: &str) -> (valid: bool)
    ensures
        valid == is_address(text@),
{
    let chars = chars_of(text);
    if chars.len() != ADDRESS_LEN {
        return false;
    }
    if chars[0] != '0' || chars[1] != 'x' {
        return false;
    }
    let mut i: usize = 2;
    while i < chars.len()
        invariant
            2 <= i <= chars.len(),
            chars@ == text@,
            forall|j: int| 2 <= j < i ==> is_hex_digit(#[trigger] chars@[j]),
        decreases chars.len() - i,
    {
        if !hex_digit(chars[i]) {
            return false;
        }
        i += 1;
    }
    true
}

/// Whether an address stands in `text` at position `at`.
pub open spec fn address_at(text: Seq<char>, at: int) -> bool {
    0 <= at && at + ADDRESS_LEN <= text.len() && is_address(text.subrange(at, at + ADDRESS_LEN))
}

/// The least position, not before `from`, at which an address stands in `text`.
pub open spec fn first_address_from(text: Seq<char>, from: int) -> Option<int>
    decreases text.len() - from,
{
    if from < 0 || from + ADDRESS_LEN > text.len() {
        None
    } else if address_at(text, from) {
        Some(from)
    } else {
        first_address_from(text, from + 1)
    }
}

/// The first address that stands in a text.
pub open spec fn first_address(text: Seq<char>) -> Option<Seq<char>> {
    match first_address_from(text, 0) {
        Some(at) => Some(text.subrange(at, at + ADDRESS_LEN)),
        None => None,
    }
}

/// The search finds the least position at which an address stands, and finds
/// nothing only where no address stands.
pub proof fn lemma_first_address_from(text: Seq<char>, from: int)
    requires
        0 <= from,
    ensures
        match first_address_from(text, from) {
            Some(at) => from <= at && address_at(text, at) && forall|i: int|
                from <= i < at ==> !address_at(text, i),
            None => forall|i: int| from <= i ==> !address_at(text, i),
        },
    decreases text.len() - from,
{
    if from + ADDRESS_LEN <= text.len() && !address_at(text, from) {
        lemma_first_address_from(text, from + 1);
    }
}

/// What is found in a text as its first address is an address, and stands in the
/// text.
pub proof fn law_found_address_stands_in_the_text(text: Seq<char>)
    ensures
        first_address(text) matches Some(address) ==> is_address(address) && exists|at: int|
            0 <= at && at + address.len() <= text.len() && #[trigger] text.subrange(
                at,
                at + address.len(),
            ) == address,
        first_address(text) is None ==> forall|at: int| !address_at(text, at),
{
    lemma_first_address_from(text, 0);
    match first_address_from(text, 0) {
        Some(at) => {
            let address = text.subrange(at, at + ADDRESS_LEN);
            assert(text.subrange(at, at + address.len()) == address);
        },
        None => {},
    }
}

/// A text that is an address is found whole as its first address.
pub proof fn law_address_alone_is_found(text: Seq<char>)
    requires
        is_address(text),
    ensures
        first_address(text) == Some(text),
{
    assert(text.subrange(0, ADDRESS_LEN as int) =~= text);
}

/// Compiles `pattern` with `regex::Regex::new` and searches `text` with
/// `regex::Regex::find`. Not proved: that for the pattern of an address the
/// leftmost match is the first run of `0x` and forty hexadecimal digits in the
/// text, and that nothing matches where the text holds no such run.
#[verifier::external_body]
pub(crate) fn first_match(pattern: &str, text: &str) -> (found: Option<String>)
    requires
        pattern@ == ADDRESS_PATTERN@,
    ensures
        text_view(found) == first_address(text@),
{
    match regex::Regex::new(pattern) {
        Ok(compiled) => match compiled.find(text) {
            Some(matched) => Some(matched.as_str().to_string()),
            None => None,
        },
        Err(_) => None,
    }
}

/// The address that a candidate stands for: the candidate itself where it is an
/// address, nothing otherwise.
pub open spec fn accepted_address(candidate: Option<Seq<char>>) -> Option<Seq<char>> {
    match candidate {
        Some(text) => if is_address(text) {
            Some(text)
        } else {
            None
        },
        None => None,
    }
}

/// Keeps a candidate that is an address, and drops any other.
pub fn accept_address(candidate: Option<String>) -> (address: Option<String>)
    ensures
        text_view(address) == accepted_address(text_view(candidate)),
{
    match candidate {
        Some(text) => {
            if check_address(text.as_str()) {
                Some(text)
            } else {
                None
            }
        },
        None => None,
    }
}

/// The first address in a reply.
pub fn find_address(text: &str) -> (address: Option<String>)
    ensures
        text_view(address) == first_address(text@),
{
    proof {
        law_found_address_stands_in_the_text(text@);
    }
    accept_address(first_match(ADDRESS_PATTERN, text))
}

} // verus!
