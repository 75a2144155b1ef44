use auctioneer::structs::AuctionError;
use auctioneer::wei::{parse_amount, Wei};

#[test]
fn zero_is_zero() {
    assert!(Wei::zero().is_zero());
    assert_eq!(Wei::zero(), Wei::from_u64(0));
    assert_eq!(Wei::zero().limbs(), [0, 0, 0, 0]);
}

#[test]
fn limbs_come_back_as_given() {
    let amount = Wei::from_limbs([1, 2, 3, 4]);
    assert_eq!(amount.limbs(), [1, 2, 3, 4]);
    assert!(!amount.is_zero());
    assert_eq!(Wei::from_u64(9).limbs(), [9, 0, 0, 0]);
}

#[test]
fn higher_limbs_weigh_more() {
    let low = Wei::from_limbs([u64::MAX, 0, 0, 0]);
    let high = Wei::from_limbs([0, 1, 0, 0]);
    let higher = Wei::from_limbs([0, 0, 0, 1]);
    assert!(low.lt(&high));
    assert!(!high.lt(&low));
    assert!(high.ge(&low));
    assert!(high.lt(&higher));
    assert!(higher.ge(&higher));
    assert!(!higher.lt(&higher));
    assert_eq!(low.max(high), high);
    assert_eq!(high.max(low), high);
    assert_eq!(Wei::from_u64(3).max(Wei::from_u64(3)), Wei::from_u64(3));
}

#[test]
fn amounts_of_ether_are_read_into_wei() {
    assert_eq!(parse_amount("0.5"), Ok(Wei::from_u64(500_000_000_000_000_000)));
    assert_eq!(parse_amount("1"), Ok(Wei::from_u64(1_000_000_000_000_000_000)));
    assert_eq!(parse_amount("0"), Ok(Wei::zero()));
    assert_eq!(parse_amount("0.000000000000000001"), Ok(Wei::from_u64(1)));
    assert_eq!(
        parse_amount("20"),
        Ok(Wei::from_limbs([1_553_255_926_290_448_384, 1, 0, 0]))
    );
}

#[test]
fn what_is_no_amount_is_refused() {
    assert_eq!(parse_amount("a lot"), Err(AuctionError::InvalidAmount));
    assert_eq!(parse_amount("0.5 ETH"), Err(AuctionError::InvalidAmount));
    assert_eq!(parse_amount("1.2.3"), Err(AuctionError::InvalidAmount));
}

#[test]
fn signed_amounts_are_refused() {
    assert_eq!(parse_amount("-0.6"), Err(AuctionError::InvalidAmount));
    assert_eq!(parse_amount("-"), Err(AuctionError::InvalidAmount));
}

#[test]
fn amounts_outside_ascii_are_refused() {
    assert_eq!(parse_amount("1.000000000000000000\u{e9}"), Err(AuctionError::InvalidAmount));
    assert_eq!(parse_amount("\u{661}"), Err(AuctionError::InvalidAmount));
}

#[test]
fn errors_say_what_went_wrong() {
    assert_eq!(AuctionError::InvalidAmount.message(), "the price is not a valid amount of ether");
    assert_eq!(AuctionError::ModelUnavailable.message(), "the language model is unavailable");
}
