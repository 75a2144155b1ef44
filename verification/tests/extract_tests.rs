use auctioneer::extract::{accept_address, check_address, find_address, parse_sold_reply};

const BUYER: &str = "0xAbCdEf0123456789abcdef0123456789ABCDEF01";

fn parts(name: &str, amount: &str) -> Option<(String, String)> {
    Some((name.to_string(), amount.to_string()))
}

#[test]
fn sale_is_read_out_of_the_reply() {
    assert_eq!(parse_sold_reply("SOLD Clock for 0.6 ETH!"), parts("Clock", "0.6"));
    assert_eq!(parse_sold_reply("SOLD Old Clock for 12 ETH!"), parts("Old Clock", "12"));
}

#[test]
fn suffix_is_optional_and_may_repeat() {
    assert_eq!(parse_sold_reply("SOLD Clock for 0.6"), parts("Clock", "0.6"));
    assert_eq!(parse_sold_reply("SOLD Clock for 0.6 ETH! ETH!"), parts("Clock", "0.6"));
    assert_eq!(parse_sold_reply("SOLD Clock for 0.6 ETH!."), parts("Clock", "0.6 ETH!."));
}

#[test]
fn any_one_ascii_character_may_follow_the_marker() {
    assert_eq!(parse_sold_reply("SOLD:Clock for 1 ETH!"), parts("Clock", "1"));
    assert_eq!(parse_sold_reply("SOLDxClock for 1 ETH!"), parts("Clock", "1"));
    assert_eq!(parse_sold_reply("SOLD\u{e9}Clock for 1 ETH!"), None);
}

#[test]
fn reply_without_the_marker_is_no_sale() {
    assert_eq!(parse_sold_reply("sold Clock for 0.6 ETH!"), None);
    assert_eq!(parse_sold_reply(" SOLD Clock for 0.6 ETH!"), None);
    assert_eq!(parse_sold_reply("I SOLD Clock for 0.6 ETH!"), None);
    assert_eq!(parse_sold_reply(""), None);
    assert_eq!(parse_sold_reply("SOL"), None);
}

#[test]
fn delimiter_must_stand_exactly_once() {
    assert_eq!(parse_sold_reply("SOLD Clock 0.6 ETH!"), None);
    assert_eq!(parse_sold_reply("SOLD Clock for you for 0.6 ETH!"), None);
    assert_eq!(parse_sold_reply("SOLD Clock for 0.6 ETH! for real"), None);
}

#[test]
fn nothing_after_the_marker_is_no_sale() {
    assert_eq!(parse_sold_reply("SOLD for 0.6 ETH!"), None);
    assert_eq!(parse_sold_reply("SOLD  for 0.6 ETH!"), parts("", "0.6"));
}

#[test]
fn address_is_hex_of_the_right_length() {
    assert!(check_address(BUYER));
    assert!(check_address("0x0000000000000000000000000000000000000000"));
    assert!(!check_address("0xAbCdEf0123456789abcdef0123456789ABCDEF0"));
    assert!(!check_address("0xAbCdEf0123456789abcdef0123456789ABCDEF012"));
    assert!(!check_address("1xAbCdEf0123456789abcdef0123456789ABCDEF01"));
    assert!(!check_address("0XAbCdEf0123456789abcdef0123456789ABCDEF01"));
    assert!(!check_address("0xAbCdEf0123456789abcdef0123456789ABCDEG01"));
    assert!(!check_address(""));
}

#[test]
fn candidates_that_are_no_address_are_dropped() {
    assert_eq!(accept_address(Some(BUYER.to_string())), Some(BUYER.to_string()));
    assert_eq!(accept_address(Some("0x1234".to_string())), None);
    assert_eq!(accept_address(None), None);
}

#[test]
fn address_is_found_anywhere_in_a_reply() {
    let reply = format!("Thank you, reserving offer for {} right away", BUYER);
    assert_eq!(find_address(&reply), Some(BUYER.to_string()));
    assert_eq!(find_address(BUYER), Some(BUYER.to_string()));
}

#[test]
fn first_of_two_addresses_is_taken() {
    let other = "0x1111111111111111111111111111111111111111";
    let reply = format!("{} or {}", other, BUYER);
    assert_eq!(find_address(&reply), Some(other.to_string()));
}

#[test]
fn reply_without_an_address_has_none() {
    assert_eq!(find_address("my address is 0x1234"), None);
    assert_eq!(find_address("no address here"), None);
    assert_eq!(find_address(""), None);
    assert_eq!(find_address("0xAbCdEf0123456789abcdef0123456789ABCDEG01"), None);
}

#[test]
fn longer_run_of_hex_gives_its_first_forty_digits() {
    let reply = format!("{}ff", BUYER);
    assert_eq!(find_address(&reply), Some(BUYER.to_string()));
}

#[test]
fn address_begins_at_the_first_place_that_fits() {
    let reply = format!("0x{}", BUYER);
    assert_eq!(find_address(&reply), Some(BUYER.to_string()));
    let reply = format!("0xAbCdEf0123456789 and then {} and more", BUYER);
    assert_eq!(find_address(&reply), Some(BUYER.to_string()));
    let reply = format!("\u{e9}\u{4e2d}{}\u{e9}", BUYER);
    assert_eq!(find_address(&reply), Some(BUYER.to_string()));
    let overlapping = "0x0x0000000000000000000000000000000000000000";
    assert_eq!(
        find_address(overlapping),
        Some("0x0000000000000000000000000000000000000000".to_string())
    );
}
