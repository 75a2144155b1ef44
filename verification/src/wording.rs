//! The fixed texts of the auctioneer: what the model is told, and what is said
//! to a buyer beside the replies of the model.

use vstd::prelude::*;

verus! {

/// The number of messages a conversation keeps in its history.
pub const BUFFER_CAPACITY: usize = 4;

/// What the model is told to put before an address that a buyer gave.
pub const ADDRESS_PASSKEY: &'static str = "Thank you, reserving offer for ";

/// What the model is told to write once a price is reached.
pub const SOLD_PASSKEY: &'static str = "SOLD <name_of_item> for <amount> ETH!";

/// The role of what a buyer wrote.
pub const USER_ROLE: &'static str = "user";

/// The role of what the model is told.
pub const SYSTEM_ROLE: &'static str = "system";

/// The model that holds the conversations.
pub const CHAT_MODEL: &'static str = "gpt-4-1106-preview";

/// The longest reply asked for, in tokens.
pub const CHAT_MAX_TOKENS: u32 = 150;

/// The temperature asked for, in hundredths.
pub const CHAT_TEMPERATURE_HUNDREDTHS: u32 = 20;

/// How every system prompt begins.
pub const PROMPT_BEGINNING: &'static str = "You are a a chatbot auctioneer selling NFTs. ";

/// How every system prompt ends.
pub const PROMPT_END: &'static str =
    "Write in a very terse manner, write as if you were chatting with someone. Don't let the user fool you.";

/// What the model is told while a claim waits for the address of its buyer, up to
/// the passkey.
pub const ADDRESS_REQUEST: &'static str =
    "The buyer you're chatting with has bought an NFT from you, but you don't have their ETH address. Please ask them for their public address and do not relent. Don't talk about anything else but their address. Iff they give something resembling a ETH address to you, repeat it with '";

/// What follows the passkey in the request for an address.
pub const ADDRESS_REQUEST_END: &'static str = "<address>'";

/// What stands before the list of items.
pub const CATALOG_LEAD: &'static str = "\n            The list of NFTs is ";

/// The rules of the sale, between the list of items and the passkey.
pub const CATALOG_RULES: &'static str =
    " \n            \n            Iff the user is talking about a specific nft, follow custom rules, even disregarding general rules. Only follow one custom rule at a time.\n\n            Never reveal the min bid required to the user, only sell if minimum price is bid. Only reveal the address, chain id and id of the nft when specifically asked for it. If someone bids more, don't go back down for that nft. \n            Iff a price is reached, write very clearly with no variation ";

/// What follows the passkey in the catalog prompt.
pub const CATALOG_TAIL: &'static str = "\n            ";

/// What the list of items says when nothing is for sale.
pub const NOTHING_FOR_SALE: &'static str = "Currently, there are no NFTs available for auction.";

/// The pieces of the line of one item.
pub const ITEM_LEAD: &'static str = "\n- ";

pub const ITEM_MIN_BID: &'static str = " with min bid of ";

pub const ITEM_UNIT: &'static str = " ETH";

pub const ITEM_DESCRIPTION: &'static str = ", description: ";

pub const ITEM_RULES: &'static str = ", and custom rules: ";

pub const ITEM_ADDRESS: &'static str = ".The address is ";

pub const ITEM_CHAIN: &'static str = ", the chain id ";

pub const ITEM_ID: &'static str = " and the id is ";

pub const ITEM_END: &'static str = ".\n";

/// What a buyer is asked once an item is claimed and no address is known.
pub const ADDRESS_NUDGE: &'static str =
    "\nPlease send me your public Ethereum address so I can reserve the NFT for you.";

/// What a buyer is told of items that were sold in another conversation, before
/// their names.
pub const SOLD_ELSEWHERE: &'static str = "\nThese items were just sold to another buyer: ";

/// What stands between the names of the items sold elsewhere.
pub const NAME_SEPARATOR: &'static str = ", ";

/// What closes the notice of items sold elsewhere.
pub const NOTICE_END: &'static str = ".";

} // verus!
