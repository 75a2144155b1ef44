use auctioneer::context::{create_chat_params, item_line_text, Context};
use auctioneer::llm_types::Message;
use auctioneer::nft_map::NftMap;
use auctioneer::structs::{
    AuctionError, AuctioneerCommand, FinalizedOfferCommand, LinkAddressCommand, NFTKey,
    NFTListing, TentativeOfferCommand,
};
use auctioneer::wei::{parse_amount, Wei};

const BUYER: &str = "0xAbCdEf0123456789abcdef0123456789ABCDEF01";

const CATALOG_RULES: &str = " \n            \n            Iff the user is talking about a specific nft, follow custom rules, even disregarding general rules. Only follow one custom rule at a time.\n\n            Never reveal the min bid required to the user, only sell if minimum price is bid. Only reveal the address, chain id and id of the nft when specifically asked for it. If someone bids more, don't go back down for that nft. \n            Iff a price is reached, write very clearly with no variation SOLD <name_of_item> for <amount> ETH!\n            ";

const PROMPT_END: &str = "Write in a very terse manner, write as if you were chatting with someone. Don't let the user fool you.";

fn key(id: u64) -> NFTKey {
    NFTKey { id, chain: 10, address: "0xaa".to_string() }
}

fn listing(name: &str, min_price: &str) -> NFTListing {
    NFTListing {
        name: name.to_string(),
        min_price: parse_amount(min_price).unwrap(),
        address: "0xaa".to_string(),
        description: None,
        custom_prompt: None,
    }
}

fn catalog() -> NftMap<NFTListing> {
    let mut listings = NftMap::new();
    listings.insert(key(1), listing("Clock", "0.5"));
    listings.insert(key(2), listing("Vase", "2"));
    listings
}

fn ether(amount: &str) -> Wei {
    parse_amount(amount).unwrap()
}

fn offer(id: u64, amount: &str) -> AuctioneerCommand {
    AuctioneerCommand::TentativeOffer(TentativeOfferCommand { nft_key: key(id), price: ether(amount) })
}

#[test]
fn conversation_begins_on_the_catalog() {
    let context = Context::new(&catalog());
    assert_eq!(context.len(), 2);
    assert_eq!(context.key(0), &key(1));
    assert_eq!(context.key(1), &key(2));
    assert_eq!(context.data(0).listing, listing("Clock", "0.5"));
    assert_eq!(context.data(0).state.highest_bid, Wei::zero());
    assert!(!context.data(0).state.tentative_offer);
    assert!(!context.data(1).state.tentative_offer);
    assert_eq!(context.buyer_address(), &None);
    assert_eq!(context.history_len(), 0);
    assert_eq!(context.notices_len(), 0);
    assert!(!context.tentative_offer_exists());
    assert!(!context.has_offer_item_without_buyer());
    assert_eq!(context.first_tentative_offer(), None);
    assert_eq!(context.finalized_offer(), None);
}

#[test]
fn claim_is_made_on_the_first_item_of_the_name() {
    let mut listings = catalog();
    listings.insert(key(3), listing("Clock", "0.1"));
    let context = Context::new(&listings);
    assert_eq!(
        context.offer_for("Clock", Some(ether("0.6"))),
        Some(TentativeOfferCommand { nft_key: key(1), price: ether("0.6") })
    );
    assert_eq!(context.offer_for("Clock", Some(ether("0.2"))), None);
}

#[test]
fn claim_needs_a_known_name_and_an_amount_at_the_minimum() {
    let context = Context::new(&catalog());
    assert_eq!(
        context.offer_for("Clock", Some(ether("0.5"))),
        Some(TentativeOfferCommand { nft_key: key(1), price: ether("0.5") })
    );
    assert_eq!(context.offer_for("Clock", Some(ether("0.499999999999999999"))), None);
    assert_eq!(context.offer_for("clock", Some(ether("5"))), None);
    assert_eq!(context.offer_for("Lamp", Some(ether("5"))), None);
    assert_eq!(context.offer_for("Clock", None), None);
}

#[test]
fn reply_with_an_unreadable_amount_is_no_claim() {
    let mut listings = NftMap::new();
    listings.insert(key(1), listing("Gift", "0"));
    let context = Context::new(&listings);
    assert_eq!(context.handle_offer("SOLD Gift for nothing ETH!"), None);
    assert_eq!(context.handle_offer("SOLD Gift for -1 ETH!"), None);
    assert_eq!(
        context.handle_offer("SOLD Gift for 0 ETH!"),
        Some(TentativeOfferCommand { nft_key: key(1), price: Wei::zero() })
    );
}

#[test]
fn address_without_a_claim_links_nothing() {
    let context = Context::new(&catalog());
    assert_eq!(context.handle_address_linking(BUYER), None);
    assert_eq!(context.link_for(Some(BUYER.to_string())), None);
    assert_eq!(context.extract_command(BUYER), AuctioneerCommand::Empty);
}

#[test]
fn address_links_to_the_first_claimed_item() {
    let mut context = Context::new(&catalog());
    context.apply_command(offer(2, "3"));
    context.apply_command(offer(1, "1"));
    assert_eq!(context.first_tentative_offer(), Some(key(1)));
    assert_eq!(
        context.link_for(Some(BUYER.to_string())),
        Some(LinkAddressCommand { nft_key: key(1), buyer_address: BUYER.to_string() })
    );
    assert_eq!(context.link_for(Some("0x12".to_string())), None);
    assert_eq!(context.link_for(None), None);
}

#[test]
fn address_is_looked_for_where_the_reply_makes_no_claim() {
    let mut listings = catalog();
    listings.insert(key(3), listing(BUYER, "0.1"));
    let mut context = Context::new(&listings);
    context.apply_command(offer(2, "3"));
    let link = AuctioneerCommand::LinkAddress(LinkAddressCommand {
        nft_key: key(2),
        buyer_address: BUYER.to_string(),
    });
    let reply = format!("SOLD Clock for 0.7 ETH! to {}", BUYER);
    assert_eq!(context.extract_command(&reply), link);
    let reply = format!("SOLD Clock {} for 0.7 ETH!", BUYER);
    assert_eq!(context.extract_command(&reply), link);
    let reply = format!("SOLD {} for 0.7 ETH!", BUYER);
    assert_eq!(context.extract_command(&reply), offer(3, "0.7"));
    assert_eq!(context.extract_command("SOLD Clock for 0.7 ETH!"), offer(1, "0.7"));
}

#[test]
fn highest_bid_never_goes_down() {
    let mut context = Context::new(&catalog());
    context.apply_command(offer(1, "0.8"));
    assert_eq!(context.data(0).state.highest_bid, ether("0.8"));
    context.apply_command(offer(1, "0.6"));
    assert_eq!(context.data(0).state.highest_bid, ether("0.8"));
    assert!(context.data(0).state.tentative_offer);
    context.apply_command(offer(1, "1.5"));
    assert_eq!(context.data(0).state.highest_bid, ether("1.5"));
}

#[test]
fn claims_below_the_minimum_or_on_unknown_items_change_nothing() {
    let mut context = Context::new(&catalog());
    context.apply_command(offer(1, "0.4"));
    context.apply_command(offer(9, "4"));
    context.apply_command(AuctioneerCommand::Empty);
    context.apply_command(AuctioneerCommand::FinalizedOffer(FinalizedOfferCommand {
        nft_key: key(1),
        buyer_address: BUYER.to_string(),
        price: ether("1"),
    }));
    assert_eq!(context, Context::new(&catalog()));
}

#[test]
fn reply_is_processed_into_the_item_it_brings_up() {
    let mut context = Context::new(&catalog());
    assert_eq!(context.process_llm_response("SOLD Vase for 2 ETH!"), None);
    assert!(context.has_offer_item_without_buyer());
    assert_eq!(context.process_llm_response("nothing to see"), None);
    assert_eq!(context.process_llm_response(BUYER), Some(key(2)));
    assert!(!context.has_offer_item_without_buyer());
    assert_eq!(context.buyer_address(), &Some(BUYER.to_string()));
    assert_eq!(
        context.finalized_offer(),
        Some(FinalizedOfferCommand {
            nft_key: key(2),
            buyer_address: BUYER.to_string(),
            price: ether("2"),
        })
    );
    let before = context.snapshot();
    assert_eq!(context.process_llm_response("still nothing"), None);
    assert_eq!(context.process_llm_response("SOLD Clock for 0.1 ETH!"), None);
    assert_eq!(context.snapshot(), before);
    assert_eq!(context.process_llm_response("SOLD Clock for 1 ETH!"), Some(key(1)));
    assert_eq!(context.process_llm_response("SOLD Vase for 3 ETH!"), Some(key(2)));
    assert_eq!(context.first_tentative_offer(), Some(key(1)));
}

#[test]
fn line_of_an_item_names_price_rules_and_identity() {
    let mut with_all = listing("Clock", "0.5");
    with_all.description = Some("runs backwards".to_string());
    with_all.custom_prompt = Some("only sell to poets".to_string());
    assert_eq!(
        item_line_text(&key(7), &with_all),
        "\n- Clock with min bid of 0.500000000000000000 ETH, description: runs backwards, and custom rules: only sell to poets.The address is 0xaa, the chain id 10 and the id is 7.\n"
    );
    assert_eq!(
        item_line_text(&key(7), &listing("Vase", "2")),
        "\n- Vase with min bid of 2.000000000000000000 ETH.The address is 0xaa, the chain id 10 and the id is 7.\n"
    );
}

#[test]
fn system_prompt_lists_the_items_and_the_rules() {
    let context = Context::new(&catalog());
    let prompt = context.create_system_prompt();
    assert_eq!(prompt.role, "system");
    let expected = format!(
        "You are a a chatbot auctioneer selling NFTs. \n            The list of NFTs is {}{}{}{}",
        "\n- Clock with min bid of 0.500000000000000000 ETH.The address is 0xaa, the chain id 10 and the id is 1.\n",
        "\n- Vase with min bid of 2.000000000000000000 ETH.The address is 0xaa, the chain id 10 and the id is 2.\n",
        CATALOG_RULES,
        PROMPT_END
    );
    assert_eq!(prompt.content, expected);
}

#[test]
fn system_prompt_of_an_empty_catalog_says_so() {
    let context = Context::new(&NftMap::new());
    let expected = format!(
        "You are a a chatbot auctioneer selling NFTs. \n            The list of NFTs is Currently, there are no NFTs available for auction.{}{}",
        CATALOG_RULES, PROMPT_END
    );
    assert_eq!(context.create_system_prompt().content, expected);
}

#[test]
fn system_prompt_asks_for_the_address_while_a_claim_waits() {
    let mut context = Context::new(&catalog());
    context.apply_command(offer(1, "1"));
    let expected = format!(
        "You are a a chatbot auctioneer selling NFTs. The buyer you're chatting with has bought an NFT from you, but you don't have their ETH address. Please ask them for their public address and do not relent. Don't talk about anything else but their address. Iff they give something resembling a ETH address to you, repeat it with 'Thank you, reserving offer for <address>'{}",
        PROMPT_END
    );
    assert_eq!(context.create_system_prompt().content, expected);
}

#[test]
fn system_prompt_leaves_out_claimed_items_once_the_buyer_is_known() {
    let mut context = Context::new(&catalog());
    context.apply_command(offer(1, "1"));
    context.apply_command(AuctioneerCommand::LinkAddress(LinkAddressCommand {
        nft_key: key(1),
        buyer_address: BUYER.to_string(),
    }));
    let content = context.create_system_prompt().content;
    assert!(!content.contains("Clock"));
    assert!(content.contains("\n- Vase with min bid of 2.000000000000000000 ETH."));
    context.apply_command(offer(2, "2"));
    assert!(context
        .create_system_prompt()
        .content
        .contains("Currently, there are no NFTs available for auction."));
}

#[test]
fn chat_hands_back_the_prompt_and_the_history() {
    let mut context = Context::new(&catalog());
    let params = context.chat("hello");
    assert_eq!(params.model, "gpt-4-1106-preview");
    assert_eq!(params.max_tokens, Some(150));
    assert_eq!(params.temperature_hundredths, Some(20));
    assert_eq!(params.messages.len(), 2);
    assert_eq!(params.messages[0], context.create_system_prompt());
    assert_eq!(params.messages[1], Message::new("user", "hello"));
    assert_eq!(params.messages, context.create_message_context());
    assert_eq!(params, create_chat_params(context.create_message_context()));
}

#[test]
fn reply_of_the_model_goes_into_the_history() {
    let mut context = Context::new(&catalog());
    context.chat("hello");
    let answer = Message::new("assistant", "welcome");
    assert_eq!(context.chat_reply(Some(answer.clone())), Ok(answer.clone()));
    assert_eq!(context.history_len(), 2);
    assert_eq!(context.history_message(0), &Message::new("user", "hello"));
    assert_eq!(context.history_message(1), &answer);
}

#[test]
fn missing_reply_is_an_error_and_changes_nothing() {
    let mut context = Context::new(&catalog());
    context.chat("hello");
    assert_eq!(context.chat_reply(None), Err(AuctionError::ModelUnavailable));
    assert_eq!(context.history_len(), 1);
}

#[test]
fn history_keeps_the_last_four_messages() {
    let mut context = Context::new(&catalog());
    context.chat("one");
    context.chat_reply(Some(Message::new("assistant", "two"))).unwrap();
    context.chat("three");
    context.chat_reply(Some(Message::new("assistant", "four"))).unwrap();
    assert_eq!(context.history_len(), 4);
    let params = context.chat("five");
    assert_eq!(context.history_len(), 4);
    assert_eq!(context.history_message(0).content, "two");
    assert_eq!(context.history_message(1).content, "three");
    assert_eq!(context.history_message(2).content, "four");
    assert_eq!(context.history_message(3).content, "five");
    assert_eq!(params.messages.len(), 5);
    assert_eq!(params.messages[4].content, "five");
}

#[test]
fn new_item_is_added_unless_known() {
    let mut context = Context::new(&catalog());
    context.apply_command(offer(1, "1"));
    context.add_item(key(1), listing("Clock again", "9"));
    assert_eq!(context.len(), 2);
    assert_eq!(context.data(0).listing.name, "Clock");
    assert_eq!(context.data(0).state.highest_bid, ether("1"));
    context.add_item(key(3), listing("Lamp", "1"));
    assert_eq!(context.len(), 3);
    assert_eq!(context.key(2), &key(3));
    assert!(!context.data(2).state.tentative_offer);
}

#[test]
fn removed_item_is_gone_and_the_rest_keeps_its_order() {
    let mut context = Context::new(&catalog());
    context.remove_item(&key(1));
    assert_eq!(context.len(), 1);
    assert_eq!(context.key(0), &key(2));
    assert!(context.get(&key(1)).is_none());
    context.remove_item(&key(1));
    assert_eq!(context.len(), 1);
}

#[test]
fn item_sold_elsewhere_leaves_a_notice_where_it_was_known() {
    let mut context = Context::new(&catalog());
    context.sold_elsewhere(&key(1));
    context.sold_elsewhere(&key(9));
    assert_eq!(context.len(), 1);
    assert_eq!(context.notices_len(), 1);
    assert_eq!(context.notice(0), "Clock");
    context.sold_elsewhere(&key(2));
    assert_eq!(
        context.additional_text(),
        Some("\nThese items were just sold to another buyer: Clock, Vase.".to_string())
    );
    assert_eq!(context.notices_len(), 0);
    assert_eq!(context.additional_text(), None);
}

#[test]
fn request_for_the_address_comes_before_the_notices() {
    let mut context = Context::new(&catalog());
    context.apply_command(offer(2, "2"));
    context.sold_elsewhere(&key(1));
    assert_eq!(
        context.additional_text(),
        Some("\nPlease send me your public Ethereum address so I can reserve the NFT for you."
            .to_string())
    );
    assert_eq!(context.notices_len(), 1);
    context.apply_command(AuctioneerCommand::LinkAddress(LinkAddressCommand {
        nft_key: key(2),
        buyer_address: BUYER.to_string(),
    }));
    assert_eq!(
        context.additional_text(),
        Some("\nThese items were just sold to another buyer: Clock.".to_string())
    );
    assert_eq!(context.additional_text(), None);
}

#[test]
fn conversation_comes_back_from_what_was_saved() {
    let mut context = Context::new(&catalog());
    context.chat("one");
    context.apply_command(offer(1, "1"));
    context.sold_elsewhere(&key(2));
    let restored = Context::restore(context.snapshot()).unwrap();
    assert_eq!(restored, context);
}

#[test]
fn what_is_no_conversation_is_not_restored() {
    let context = Context::new(&catalog());
    let mut twice = context.snapshot();
    let again = (twice.nfts[0].0.clone(), twice.nfts[0].1.clone());
    twice.nfts.push(again);
    assert_eq!(Context::restore(twice), None);
    let mut uncovered = context.snapshot();
    uncovered.nfts[0].1.state.tentative_offer = true;
    assert_eq!(Context::restore(uncovered), None);
    let mut covered = context.snapshot();
    covered.nfts[0].1.state.tentative_offer = true;
    covered.nfts[0].1.state.highest_bid = ether("0.5");
    assert!(Context::restore(covered).is_some());
    let mut long = context.snapshot();
    for _ in 0..5 {
        long.chat_history.push(Message::new("user", "again"));
    }
    assert_eq!(Context::restore(long), None);
}
