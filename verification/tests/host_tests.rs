use auctioneer::host::{
    begin_turn, buy_message, chain_of_subscription, classify_source, finish_turn, list_nfts,
    modify_state, restarts_session, route, sale_outcome, seller_topic, status_label, valid_until,
    Endpoint, NFTSummary, Reply, Source, State, Turn,
};
use auctioneer::llm_types::Message;
use auctioneer::manager::ContextManager;
use auctioneer::structs::{
    AddNFTArgs, AuctionError, FinalizedOfferCommand, HttpRequestOutcome, InitialConfig, NFTKey,
};
use auctioneer::wei::parse_amount;

const BUYER: &str = "0xAbCdEf0123456789abcdef0123456789ABCDEF01";

fn args(id: u64, name: &str, min_price: &str) -> AddNFTArgs {
    AddNFTArgs {
        nft_name: name.to_string(),
        nft_address: "0xaa".to_string(),
        nft_id: id,
        chain_id: 10,
        nft_description: Some("old".to_string()),
        sell_prompt: None,
        min_price: min_price.to_string(),
    }
}

fn key(id: u64) -> NFTKey {
    NFTKey { id, chain: 10, address: "0xaa".to_string() }
}

fn config() -> InitialConfig {
    InitialConfig {
        openai_key: "SECRET-REDACTED".to_string(),
        telegram_bot_api_key: "SECRET-REDACTED".to_string(),
        wallet_pk: "SECRET-REDACTED".to_string(),
        hosted_url: "https://example.org".to_string(),
    }
}

fn stocked() -> ContextManager {
    let mut manager = ContextManager::new(&[]);
    manager.add_nft(args(1, "Clock", "0.5")).unwrap();
    manager
}

#[test]
fn messages_are_told_apart_by_their_process() {
    assert_eq!(classify_source("http_server:distro:sys"), Source::Http);
    assert_eq!(classify_source("eth:distro:sys"), Source::Eth);
    assert_eq!(classify_source("tg:auctioneer:template.os"), Source::Internal);
    assert_eq!(classify_source(""), Source::Internal);
}

#[test]
fn paths_lead_to_their_endpoints() {
    assert_eq!(route("/status"), Endpoint::Status);
    assert_eq!(route("/config"), Endpoint::Config);
    assert_eq!(route("/addnft"), Endpoint::AddNft);
    assert_eq!(route("/removenft"), Endpoint::RemoveNft);
    assert_eq!(route("/listnfts"), Endpoint::ListNfts);
    assert_eq!(route("/"), Endpoint::Unknown);
    assert_eq!(route("/Status"), Endpoint::Unknown);
    assert_eq!(route("/status/"), Endpoint::Unknown);
}

#[test]
fn status_says_what_the_owner_does_next() {
    assert_eq!(status_label(true), "manage-nfts");
    assert_eq!(status_label(false), "config");
}

#[test]
fn subscriptions_listen_to_their_chains() {
    assert_eq!(chain_of_subscription(1), 11155111);
    assert_eq!(chain_of_subscription(2), 10);
    assert_eq!(chain_of_subscription(3), 8453);
    assert_eq!(chain_of_subscription(4), 42161);
    assert_eq!(chain_of_subscription(0), 0);
    assert_eq!(chain_of_subscription(5), 0);
}

#[test]
fn sale_on_a_chain_takes_the_item_off() {
    assert_eq!(
        sale_outcome(3, "0xaa".to_string(), 7),
        HttpRequestOutcome::RemoveNFT(NFTKey { id: 7, chain: 8453, address: "0xaa".to_string() })
    );
}

#[test]
fn configuration_makes_a_state_where_there_is_none() {
    let (state, save) = modify_state(None, HttpRequestOutcome::Config(config()));
    assert!(save);
    assert_eq!(state, Some(State::new(config())));
    let mut other = config();
    other.hosted_url = "https://other.example".to_string();
    let (kept, save) = modify_state(state, HttpRequestOutcome::Config(other));
    assert!(save);
    assert_eq!(kept, Some(State::new(config())));
}

#[test]
fn items_are_listed_and_removed_only_in_a_state() {
    let add = HttpRequestOutcome::AddNFT(args(1, "Clock", "0.5"));
    assert_eq!(modify_state(None, add.clone()), (None, false));
    assert_eq!(modify_state(None, HttpRequestOutcome::RemoveNFT(key(1))), (None, false));
    assert_eq!(modify_state(None, HttpRequestOutcome::Nothing), (None, false));
    let (state, save) = modify_state(Some(State::new(config())), add);
    assert!(save);
    let state = state.unwrap();
    assert_eq!(state.context_manager.listings_len(), 1);
    assert_eq!(state.config, config());
    let bad = HttpRequestOutcome::AddNFT(args(2, "Vase", "much"));
    let (state, save) = modify_state(Some(state), bad);
    assert!(save);
    assert_eq!(state.as_ref().unwrap().context_manager.listings_len(), 1);
    let (state, save) = modify_state(state, HttpRequestOutcome::Nothing);
    assert!(!save);
    let (state, save) = modify_state(state, HttpRequestOutcome::RemoveNFT(key(1)));
    assert!(save);
    assert_eq!(state.unwrap().context_manager.listings_len(), 0);
}

#[test]
fn only_a_configuration_restarts_the_session() {
    assert!(restarts_session(&HttpRequestOutcome::Config(config())));
    assert!(!restarts_session(&HttpRequestOutcome::AddNFT(args(1, "Clock", "1"))));
    assert!(!restarts_session(&HttpRequestOutcome::RemoveNFT(key(1))));
    assert!(!restarts_session(&HttpRequestOutcome::Nothing));
}

#[test]
fn reset_forgets_the_conversation() {
    let mut manager = stocked();
    manager.chat(1, "hello");
    assert_eq!(begin_turn(&mut manager, 1, "/reset"), Turn::Reset("Reset succesful!".to_string()));
    assert!(!manager.has_context(1));
    assert_eq!(begin_turn(&mut manager, 2, "/reset"), Turn::Reset("Reset succesful!".to_string()));
    assert!(!manager.has_context(2));
}

#[test]
fn any_other_text_is_asked_of_the_model() {
    let mut manager = stocked();
    let turn = begin_turn(&mut manager, 1, "/reset please");
    let context = manager.context(1).unwrap();
    assert_eq!(context.history_len(), 1);
    match turn {
        Turn::Ask(params) => assert_eq!(params.messages, context.create_message_context()),
        Turn::Reset(_) => panic!("the conversation was reset"),
    }
}

#[test]
fn turn_without_a_reply_fails() {
    let mut manager = stocked();
    begin_turn(&mut manager, 1, "hello");
    let before = manager.snapshot();
    assert_eq!(finish_turn(&mut manager, 1, None), Err(AuctionError::ModelUnavailable));
    assert_eq!(manager.snapshot(), before);
}

#[test]
fn turn_ends_with_the_reply_and_what_is_added() {
    let mut manager = stocked();
    begin_turn(&mut manager, 1, "hello");
    let reply = finish_turn(&mut manager, 1, Some(Message::new("assistant", "welcome")));
    assert_eq!(reply, Ok(Reply { text: "welcome".to_string(), offer: None }));
    begin_turn(&mut manager, 1, "0.6 for the clock");
    let sold = Message::new("assistant", "SOLD Clock for 0.6 ETH!");
    let reply = finish_turn(&mut manager, 1, Some(sold));
    assert_eq!(
        reply,
        Ok(Reply {
            text: "SOLD Clock for 0.6 ETH!\nPlease send me your public Ethereum address so I can reserve the NFT for you.".to_string(),
            offer: None,
        })
    );
    assert_eq!(manager.context(1).unwrap().history_len(), 4);
}

#[test]
fn settled_turn_removes_the_item_and_tells_the_others() {
    let mut manager = stocked();
    begin_turn(&mut manager, 1, "0.6 for the clock");
    finish_turn(&mut manager, 1, Some(Message::new("assistant", "SOLD Clock for 0.6 ETH!")))
        .unwrap();
    begin_turn(&mut manager, 2, "what is for sale?");
    begin_turn(&mut manager, 1, BUYER);
    let thanks = format!("Thank you, reserving offer for {}", BUYER);
    let reply = finish_turn(&mut manager, 1, Some(Message::new("assistant", &thanks))).unwrap();
    assert_eq!(reply.text, thanks);
    assert_eq!(
        reply.offer,
        Some(FinalizedOfferCommand {
            nft_key: key(1),
            buyer_address: BUYER.to_string(),
            price: parse_amount("0.6").unwrap(),
        })
    );
    assert_eq!(manager.listings_len(), 0);
    assert_eq!(manager.context(1).unwrap().len(), 0);
    let reply = finish_turn(&mut manager, 2, Some(Message::new("assistant", "a clock")));
    assert_eq!(
        reply,
        Ok(Reply {
            text: "a clock\nThese items were just sold to another buyer: Clock.".to_string(),
            offer: None,
        })
    );
    let reply = finish_turn(&mut manager, 2, Some(Message::new("assistant", "sorry")));
    assert_eq!(reply, Ok(Reply { text: "sorry".to_string(), offer: None }));
}

#[test]
fn offers_are_valid_for_an_hour() {
    assert_eq!(valid_until(0), 3600);
    assert_eq!(valid_until(1_700_000_000), 1_700_003_600);
    assert_eq!(valid_until(u64::MAX - 3600), u64::MAX);
}

#[test]
fn link_carries_the_offer_and_its_signature() {
    let offer = FinalizedOfferCommand {
        nft_key: NFTKey { id: 7, chain: 8453, address: "0xaa".to_string() },
        buyer_address: BUYER.to_string(),
        price: parse_amount("0.6").unwrap(),
    };
    assert_eq!(
        buy_message("https://example.org", &offer, 1_700_003_600, 42, &[0, 1, 15, 16, 171, 255]),
        "buy it at the link: https://example.org/buy?nft=0xaa&id=7&price=600000000000000000&valid=1700003600&uid=42&sig=0x00010f10abff&chain=8453"
    );
    let large = FinalizedOfferCommand {
        nft_key: NFTKey { id: 0, chain: 0, address: String::new() },
        buyer_address: BUYER.to_string(),
        price: parse_amount("1000000000000000000000").unwrap(),
    };
    assert_eq!(
        buy_message("", &large, 0, 0, &[]),
        "buy it at the link: /buy?nft=&id=0&price=1000000000000000000000000000000000000000&valid=0&uid=0&sig=0x&chain=0"
    );
}

#[test]
fn catalog_is_shown_with_prices_in_ether() {
    let mut manager = stocked();
    manager.add_nft(args(2, "Vase", "12.25")).unwrap();
    assert_eq!(
        list_nfts(&manager),
        vec![
            NFTSummary {
                id: 1,
                chain: 10,
                name: "Clock".to_string(),
                min_price: "0.500000000000000000".to_string(),
                address: "0xaa".to_string(),
                description: Some("old".to_string()),
                custom_prompt: None,
            },
            NFTSummary {
                id: 2,
                chain: 10,
                name: "Vase".to_string(),
                min_price: "12.250000000000000000".to_string(),
                address: "0xaa".to_string(),
                description: Some("old".to_string()),
                custom_prompt: None,
            },
        ]
    );
    assert_eq!(list_nfts(&ContextManager::new(&[])), vec![]);
}

#[test]
fn topic_is_the_address_after_twelve_zeros() {
    let mut address = [0u8; 20];
    for (i, byte) in address.iter_mut().enumerate() {
        *byte = i as u8 + 1;
    }
    let topic = seller_topic(&address);
    assert_eq!(&topic[..12], &[0u8; 12]);
    assert_eq!(&topic[12..], &address);
}

#[test]
fn prices_keep_eighteen_digits_after_the_point() {
    let mut manager = ContextManager::new(&[]);
    manager.add_nft(args(1, "Dust", "0.000000000000000001")).unwrap();
    manager.add_nft(args(2, "Free", "0")).unwrap();
    manager.add_nft(args(3, "Tower", "123456789012345678901234567890.5")).unwrap();
    let prices: Vec<String> =
        list_nfts(&manager).into_iter().map(|summary| summary.min_price).collect();
    assert_eq!(
        prices,
        vec![
            "0.000000000000000001".to_string(),
            "0.000000000000000000".to_string(),
            "123456789012345678901234567890.500000000000000000".to_string(),
        ]
    );
}
