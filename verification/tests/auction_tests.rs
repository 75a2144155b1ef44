use auctioneer::manager::ContextManager;
use auctioneer::structs::{
    AddNFTArgs, AuctioneerCommand, FinalizedOfferCommand, LinkAddressCommand, NFTKey,
    TentativeOfferCommand,
};
use auctioneer::wei::Wei;

const BUYER: &str = "0xAbCdEf0123456789abcdef0123456789ABCDEF01";

fn clock_key() -> NFTKey {
    NFTKey { id: 7, chain: 10, address: "0x00000000000000000000000000000000000000aa".to_string() }
}

fn clock_args(min_price: &str) -> AddNFTArgs {
    AddNFTArgs {
        nft_name: "Clock".to_string(),
        nft_address: "0x00000000000000000000000000000000000000aa".to_string(),
        nft_id: 7,
        chain_id: 10,
        nft_description: Some("a clock that runs backwards".to_string()),
        sell_prompt: None,
        min_price: min_price.to_string(),
    }
}

fn six_tenths() -> Wei {
    Wei::from_u64(600_000_000_000_000_000)
}

fn manager_with_clock() -> ContextManager {
    let mut manager = ContextManager::new(&[]);
    assert_eq!(manager.add_nft(clock_args("0.5")), Ok(()));
    manager
}

#[test]
fn reply_at_the_minimum_is_a_claim() {
    let mut manager = manager_with_clock();
    manager.chat(1, "I bid 0.6 for the clock");
    let command = manager.context(1).unwrap().extract_command("SOLD Clock for 0.6 ETH!");
    assert_eq!(
        command,
        AuctioneerCommand::TentativeOffer(TentativeOfferCommand {
            nft_key: clock_key(),
            price: six_tenths(),
        })
    );
    assert_eq!(manager.act(1, "SOLD Clock for 0.6 ETH!"), None);
    let context = manager.context(1).unwrap();
    let data = context.get(&clock_key()).unwrap();
    assert!(data.state.tentative_offer);
    assert_eq!(data.state.highest_bid, six_tenths());
    assert!(context.has_offer_item_without_buyer());
}

#[test]
fn reply_below_the_minimum_is_nothing() {
    let mut manager = manager_with_clock();
    manager.chat(1, "I bid 0.3 for the clock");
    let command = manager.context(1).unwrap().extract_command("SOLD Clock for 0.3 ETH!");
    assert_eq!(command, AuctioneerCommand::Empty);
    assert_eq!(manager.act(1, "SOLD Clock for 0.3 ETH!"), None);
    let context = manager.context(1).unwrap();
    let data = context.get(&clock_key()).unwrap();
    assert!(!data.state.tentative_offer);
    assert_eq!(data.state.highest_bid, Wei::zero());
    assert_eq!(context.buyer_address(), &None);
}

#[test]
fn address_after_a_claim_finalizes() {
    let mut manager = manager_with_clock();
    manager.chat(1, "I bid 0.6 for the clock");
    assert_eq!(manager.act(1, "SOLD Clock for 0.6 ETH!"), None);
    let reply = format!("Thank you, reserving offer for {}", BUYER);
    let command = manager.context(1).unwrap().extract_command(&reply);
    assert_eq!(
        command,
        AuctioneerCommand::LinkAddress(LinkAddressCommand {
            nft_key: clock_key(),
            buyer_address: BUYER.to_string(),
        })
    );
    let offer = manager.act(1, &reply);
    assert_eq!(
        offer,
        Some(FinalizedOfferCommand {
            nft_key: clock_key(),
            buyer_address: BUYER.to_string(),
            price: six_tenths(),
        })
    );
}

#[test]
fn other_conversation_is_told_once() {
    let mut manager = manager_with_clock();
    manager.chat(1, "I bid 0.6 for the clock");
    manager.chat(2, "what do you have?");
    assert_eq!(manager.act(1, "SOLD Clock for 0.6 ETH!"), None);
    let offer = manager.act(1, &format!("your address is {} then", BUYER)).unwrap();
    manager.finalize_and_remove(&offer.nft_key, 1);
    assert_eq!(manager.listings_len(), 0);
    assert!(manager.context(2).unwrap().get(&clock_key()).is_none());
    let notice = manager.additional_text(2).unwrap();
    assert!(notice.contains("Clock"));
    assert_eq!(manager.additional_text(2), None);
    assert_eq!(manager.additional_text(1), None);
}
