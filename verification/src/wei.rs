//! Amounts of wei: unsigned integers of 256 bits, held as four limbs of 64
//! bits. Prices are read from text and written back as amounts of ether, by way
//! of the unit functions of `alloy_primitives`.

use crate::structs::AuctionError;
use crate::text::{decimal, padded_decimal};
use vstd::prelude::*;
use vstd::utf8::is_ascii_chars;

verus! {

/// The number that four limbs stand for, the least significant limb first: the
/// limbs weigh one, two to the power 64, two to the power 128 and two to the
/// power 192.
pub open spec fn limbs_value(w0: u64, w1: u64, w2: u64, w3: u64) -> nat {
    (w0 as nat) + (w1 as nat) * 0x1_0000_0000_0000_0000 + (w2 as nat)
        * 0x1_0000_0000_0000_0000_0000_0000_0000_0000 + (w3 as nat)
        * 0x1_0000_0000_0000_0000_0000_0000_0000_0000_0000_0000_0000_0000
}

/// An amount of wei. Its view is the number it holds.
#[derive(Clone, Copy, Debug, PartialEq, Eq, Hash, Structural)]
pub struct Wei {
    w0: u64,
    w1: u64,
    w2: u64,
    w3: u64,
}

impl View for Wei {
    type V = nat;

    closed spec fn view(&self) -> nat {
        limbs_value(self.w0, self.w1, self.w2, self.w3)
    }
}

impl Wei {
    /// The amount zero.
    pub fn zero() -> (w: Wei)
        ensures
            w@ == 0,
    {
        Wei { w0: 0, w1: 0, w2: 0, w3: 0 }
    }

    /// The amount `x`.
    pub fn from_u64(x: u64) -> (w: Wei)
        ensures
            w@ == x,
    {
        Wei { w0: x, w1: 0, w2: 0, w3: 0 }
    }

    /// The amount whose limbs are `limbs`, the least significant first.
    pub fn from_limbs(limbs: [u64; 4]) -> (w: Wei)
        ensures
            w@ == limbs_value(limbs[0], limbs[1], limbs[2], limbs[3]),
    {
        Wei { w0: limbs[0], w1: limbs[1], w2: limbs[2], w3: limbs[3] }
    }

    /// The four limbs of the amount, the least significant first.
    pub fn limbs(&self) -> (limbs: [u64; 4])
        ensures
            self@ == limbs_value(limbs[0], limbs[1], limbs[2], limbs[3]),
    {
        [self.w0, self.w1, self.w2, self.w3]
    }

    /// Whether the amount is zero.
    pub fn is_zero(&self) -> (b: bool)
        ensures
            b == (self@ == 0),
    {
        self.w0 == 0 && self.w1 == 0 && self.w2 == 0 && self.w3 == 0
    }

    /// Whether `self` is at least `other`.
    pub fn ge(&self, other: &Wei) -> (b: bool)
        ensures
            b == (self@ >= other@),
    {
        !self.lt(other)
    }

    /// Whether `self` is less than `other`.
    pub fn lt(&self, other: &Wei) -> (b: bool)
        ensures
            b == (self@ < other@),
    {
        if self.w3 != other.w3 {
            self.w3 < other.w3
        } else if self.w2 != other.w2 {
            self.w2 < other.w2
        } else if self.w1 != other.w1 {
            self.w1 < other.w1
        } else {
            self.w0 < other.w0
        }
    }

    /// The larger of the two amounts.
    pub fn max(self, other: Wei) -> (m: Wei)
        ensures
            m@ == if self@ >= other@ {
                self@
            } else {
                other@
            },
            m == self || m == other,
    {
        if self.lt(&other) {
            other
        } else {
            self
        }
    }
}

/// The error of the unit functions of `alloy_primitives`; nothing is read from it.
#[verifier::external_type_specification]
#[verifier::external_body]
pub struct ExUnitsError(alloy_primitives::utils::UnitsError);

/// The amount of wei that `alloy_primitives::utils::parse_ether` reads out of
/// `amount`, or `None` where it returns an error.
pub uninterp spec fn ether_to_wei(amount: Seq<char>) -> Option<nat>;

/// The number of wei in one ether.
pub open spec fn wei_per_ether() -> nat {
    1_000_000_000_000_000_000
}

/// An amount of wei written as an amount of ether: the whole ethers in decimal,
/// a point, and the rest in eighteen digits.
pub open spec fn ether_text(wei: nat) -> Seq<char> {
    decimal(wei / wei_per_ether()) + seq!['.'] + padded_decimal(wei % wei_per_ether(), 18)
}

/// Whether a text begins with a minus sign.
pub open spec fn is_signed(text: Seq<char>) -> bool {
    text.len() > 0 && text[0] == '-'
}

/// The amount of wei that a price text stands for. A price is written in ASCII
/// and without a minus sign, and the unit parser has to accept it.
pub open spec fn amount_of(text: Seq<char>) -> Option<nat> {
    if is_ascii_chars(text) && !is_signed(text) {
        ether_to_wei(text)
    } else {
        None
    }
}

/// Calls `alloy_primitives::utils::parse_ether`. Not proved: that its result is
/// the one named `ether_to_wei`, the result being a function of the text alone.
/// The texts left out are those on which the parser may panic: it cuts decimals
/// at a byte offset, and it multiplies signed numbers with an overflow check.
#[verifier::external_body]
fn parse_ether(amount: &str) -> (parsed: Result<Wei, alloy_primitives::utils::UnitsError>)
    requires
        is_ascii_chars(amount@),
        !is_signed(amount@),
    ensures
        match parsed {
            Ok(wei) => ether_to_wei(amount@) == Some(wei@),
            Err(_) => ether_to_wei(amount@) is None,
        },
{
    match alloy_primitives::utils::parse_ether(amount) {
        Ok(value) => {
            let limbs = value.into_limbs();
            Ok(Wei { w0: limbs[0], w1: limbs[1], w2: limbs[2], w3: limbs[3] })
        },
        Err(error) => Err(error),
    }
}

/// Calls `alloy_primitives::utils::format_ether`. Not proved: that it writes the
/// quotient of the amount by ten to the power 18 in decimal, a point, and the
/// remainder with zeros in front up to eighteen digits, as its source does.
#[verifier::external_body]
pub(crate) fn format_ether(amount: &Wei) -> (text: String)
    ensures
        text@ == ether_text(amount@),
{
    alloy_primitives::utils::format_ether(
        alloy_primitives::U256::from_limbs([amount.w0, amount.w1, amount.w2, amount.w3]),
    )
}

/// Calls `to_string` on the `alloy_primitives::U256` of the amount, which goes
/// by its `Display`. Not proved: that it writes the amount in decimal, without
/// zeros in front.
#[verifier::external_body]
pub(crate) fn format_wei(amount: &Wei) -> (text: String)
    ensures
        text@ == decimal(amount@),
{
    alloy_primitives::U256::from_limbs([amount.w0, amount.w1, amount.w2, amount.w3]).to_string()
}

/// Reads a price, written as an amount of ether, into wei.
pub fn parse_amount(text: &str) -> (parsed: Result<Wei, AuctionError>)
    ensures
        match parsed {
            Ok(wei) => amount_of(text@) == Some(wei@),
            Err(error) => error == AuctionError::InvalidAmount && amount_of(text@) is None,
        },
{
    if !text.is_ascii() {
        return Err(AuctionError::InvalidAmount);
    }
    if text.unicode_len() > 0 && text.get_char(0) == '-' {
        return Err(AuctionError::InvalidAmount);
    }
    match parse_ether(text) {
        Ok(wei) => Ok(wei),
        Err(_) => Err(AuctionError::InvalidAmount),
    }
}

} // verus!
