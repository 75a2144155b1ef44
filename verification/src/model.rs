//! The auction as plain values: what a conversation and the whole auctioneer
//! hold, and what each operation makes of them.

use crate::buffer::pushed;
use crate::extract::{accepted_address, first_address, sold_reply};
use crate::llm_types::{ChatParamsView, MessageView};
use crate::nft_map::{
    added, distinct_keys, inserted, keys_of, lemma_position, lookup, position, without,
};
use crate::seqs::first_index;
use crate::structs::{
    unclaimed, CommandView, DataView, FinalizedOfferView, KeyView, LinkAddressView, ListingView,
    StateView, TentativeOfferView,
};
use crate::text::{decimal, join};
use crate::wei::{amount_of, ether_text};
use crate::wording::{
    ADDRESS_NUDGE, ADDRESS_PASSKEY, ADDRESS_REQUEST, ADDRESS_REQUEST_END, BUFFER_CAPACITY,
    CATALOG_LEAD, CATALOG_RULES, CATALOG_TAIL, CHAT_MAX_TOKENS, CHAT_MODEL,
    CHAT_TEMPERATURE_HUNDREDTHS, ITEM_ADDRESS, ITEM_CHAIN, ITEM_DESCRIPTION, ITEM_END, ITEM_ID,
    ITEM_LEAD, ITEM_MIN_BID, ITEM_RULES, ITEM_UNIT, NAME_SEPARATOR, NOTHING_FOR_SALE, NOTICE_END,
    PROMPT_BEGINNING, PROMPT_END, SOLD_ELSEWHERE, SOLD_PASSKEY, SYSTEM_ROLE, USER_ROLE,
};
use vstd::prelude::*;

verus! {

/// An item that a conversation has not bid on.
pub open spec fn fresh_item(listing: ListingView) -> DataView {
    DataView { listing, state: unclaimed() }
}

/// The items of a conversation that begins: those of the catalog, none bid on.
pub open spec fn fresh_items(listings: Seq<(KeyView, ListingView)>) -> Seq<(KeyView, DataView)> {
    listings.map_values(|entry: (KeyView, ListingView)| (entry.0, fresh_item(entry.1)))
}

/// The test for an item that is tentatively claimed.
pub open spec fn claimed() -> spec_fn((KeyView, DataView)) -> bool {
    |entry: (KeyView, DataView)| entry.1.state.tentative_offer
}

/// The test for an item of a given name.
pub open spec fn named(name: Seq<char>) -> spec_fn((KeyView, DataView)) -> bool {
    |entry: (KeyView, DataView)| entry.1.listing.name == name
}

/// A claimed item has a recorded bid that reaches its minimum price.
pub open spec fn claim_is_covered(item: DataView) -> bool {
    item.state.tentative_offer ==> item.state.highest_bid >= item.listing.min_price
}

/// An item once a bid of `price` is recorded as a claim on it: the highest bid
/// never goes down.
pub open spec fn with_claim(item: DataView, price: nat) -> DataView {
    DataView {
        listing: item.listing,
        state: StateView {
            highest_bid: if item.state.highest_bid < price {
                price
            } else {
                item.state.highest_bid
            },
            tentative_offer: true,
        },
    }
}

/// The line that offers one item in the system prompt.
pub open spec fn item_line(key: KeyView, listing: ListingView) -> Seq<char> {
    ITEM_LEAD@ + listing.name + ITEM_MIN_BID@ + ether_text(listing.min_price) + ITEM_UNIT@
        + (match listing.description {
        Some(description) => ITEM_DESCRIPTION@ + description,
        None => Seq::empty(),
    }) + (match listing.custom_prompt {
        Some(rules) => ITEM_RULES@ + rules,
        None => Seq::empty(),
    }) + ITEM_ADDRESS@ + listing.address + ITEM_CHAIN@ + decimal(key.chain as nat) + ITEM_ID@
        + decimal(key.id as nat) + ITEM_END@
}

/// The lines of the items that are not claimed, in their order.
pub open spec fn item_lines(items: Seq<(KeyView, DataView)>) -> Seq<char>
    decreases items.len(),
{
    if items.len() == 0 {
        Seq::empty()
    } else if items.last().1.state.tentative_offer {
        item_lines(items.drop_last())
    } else {
        item_lines(items.drop_last()) + item_line(items.last().0, items.last().1.listing)
    }
}

/// The names of the items sold elsewhere, as a buyer is told of them.
pub open spec fn notice_text(names: Seq<Seq<char>>) -> Seq<char> {
    SOLD_ELSEWHERE@ + join(names, NAME_SEPARATOR@) + NOTICE_END@
}

/// Taking an item out leaves every claimed item with a bid that reaches its
/// minimum price.
pub proof fn lemma_without_covered(items: Seq<(KeyView, DataView)>, key: KeyView)
    requires
        forall|i: int| 0 <= i < items.len() ==> claim_is_covered((#[trigger] items[i]).1),
    ensures
        forall|i: int|
            0 <= i < without(items, key).len() ==> claim_is_covered(
                (#[trigger] without(items, key)[i]).1,
            ),
{
    lemma_position(items, key);
    match position(items, key) {
        Some(at) => {
            let rest = items.remove(at);
            assert forall|i: int| 0 <= i < rest.len() implies claim_is_covered(
                (#[trigger] rest[i]).1,
            ) by {
                let from = if i < at {
                    i
                } else {
                    i + 1
                };
                assert(rest[i] == items[from]);
            }
        },
        None => {},
    }
}

/// What one conversation holds.
pub struct ContextView {
    /// The items, each with the listing the conversation was shown and its state.
    pub nfts: Seq<(KeyView, DataView)>,
    /// The address of the buyer, once it is known.
    pub buyer_address: Option<Seq<char>>,
    /// The latest messages, the oldest first.
    pub chat_history: Seq<MessageView>,
    /// The names of items sold in other conversations, not yet told to the buyer.
    pub notices: Seq<Seq<char>>,
}

impl ContextView {
    /// What holds of every conversation: no item is there twice, the history is
    /// within its capacity, and every claimed item has a bid that reaches its
    /// minimum price.
    pub open spec fn wf(self) -> bool {
        &&& distinct_keys(self.nfts)
        &&& self.chat_history.len() <= BUFFER_CAPACITY
        &&& forall|i: int|
            0 <= i < self.nfts.len() ==> claim_is_covered((#[trigger] self.nfts[i]).1)
    }

    /// The conversation that begins on a catalog.
    pub open spec fn fresh(listings: Seq<(KeyView, ListingView)>) -> ContextView {
        ContextView {
            nfts: fresh_items(listings),
            buyer_address: None,
            chat_history: Seq::empty(),
            notices: Seq::empty(),
        }
    }

    /// The first item that is tentatively claimed.
    pub open spec fn first_tentative_offer(self) -> Option<KeyView> {
        match first_index(self.nfts, claimed()) {
            Some(at) => Some(self.nfts[at].0),
            None => None,
        }
    }

    /// Whether some item is tentatively claimed.
    pub open spec fn tentative_offer_exists(self) -> bool {
        self.first_tentative_offer() is Some
    }

    /// Whether an item is claimed while the address of the buyer is not known.
    pub open spec fn has_offer_item_without_buyer(self) -> bool {
        self.tentative_offer_exists() && self.buyer_address is None
    }

    /// The claim that a sale of `name` for `amount` makes: on the first item of
    /// that name, where the amount is known and reaches its minimum price.
    pub open spec fn offer_for(self, name: Seq<char>, amount: Option<nat>) -> Option<
        TentativeOfferView,
    > {
        match (first_index(self.nfts, named(name)), amount) {
            (Some(at), Some(price)) => if price >= self.nfts[at].1.listing.min_price {
                Some(TentativeOfferView { nft_key: self.nfts[at].0, price })
            } else {
                None
            },
            _ => None,
        }
    }

    /// The claim that a reply makes.
    pub open spec fn handle_offer(self, input: Seq<char>) -> Option<TentativeOfferView> {
        match sold_reply(input) {
            Some((name, amount)) => self.offer_for(name, amount_of(amount)),
            None => None,
        }
    }

    /// The link that a candidate address makes: of the first claimed item to the
    /// candidate, where the candidate is an address.
    pub open spec fn link_for(self, candidate: Option<Seq<char>>) -> Option<LinkAddressView> {
        match (accepted_address(candidate), self.first_tentative_offer()) {
            (Some(address), Some(key)) => Some(
                LinkAddressView { nft_key: key, buyer_address: address },
            ),
            _ => None,
        }
    }

    /// The link that a reply makes.
    pub open spec fn handle_address_linking(self, input: Seq<char>) -> Option<LinkAddressView> {
        self.link_for(first_address(input))
    }

    /// The command that a reply holds: a claim, or else a link, or else nothing.
    pub open spec fn command(self, input: Seq<char>) -> CommandView {
        match self.handle_offer(input) {
            Some(offer) => CommandView::TentativeOffer(offer),
            None => match self.handle_address_linking(input) {
                Some(link) => CommandView::LinkAddress(link),
                None => CommandView::Empty,
            },
        }
    }

    /// The conversation once a command is applied to it. A claim is recorded on
    /// its item, if the conversation has it and the price reaches its minimum; a
    /// link sets the address of the buyer; any other command changes nothing.
    pub open spec fn apply(self, command: CommandView) -> ContextView {
        match command {
            CommandView::TentativeOffer(offer) => match position(self.nfts, offer.nft_key) {
                Some(at) => if offer.price >= self.nfts[at].1.listing.min_price {
                    ContextView {
                        nfts: self.nfts.update(
                            at,
                            (self.nfts[at].0, with_claim(self.nfts[at].1, offer.price)),
                        ),
                        ..self
                    }
                } else {
                    self
                },
                None => self,
            },
            CommandView::LinkAddress(link) => ContextView {
                buyer_address: Some(link.buyer_address),
                ..self
            },
            _ => self,
        }
    }

    /// The conversation once the command of a reply is applied to it.
    pub open spec fn process(self, input: Seq<char>) -> ContextView {
        self.apply(self.command(input))
    }

    /// The item that a command brings up for settlement: the item of a claim,
    /// where the address of the buyer is known; the item of a link; and none for
    /// any other command.
    pub open spec fn offered_item(self, command: CommandView) -> Option<KeyView> {
        match command {
            CommandView::TentativeOffer(offer) => if self.buyer_address is Some {
                Some(offer.nft_key)
            } else {
                None
            },
            CommandView::LinkAddress(link) => Some(link.nft_key),
            _ => None,
        }
    }

    /// The offer that can be settled: the first claimed item, the buyer, and the
    /// highest bid recorded on the item.
    pub open spec fn finalized(self) -> Option<FinalizedOfferView> {
        match (first_index(self.nfts, claimed()), self.buyer_address) {
            (Some(at), Some(buyer)) => Some(
                FinalizedOfferView {
                    nft_key: self.nfts[at].0,
                    buyer_address: buyer,
                    price: self.nfts[at].1.state.highest_bid,
                },
            ),
            _ => None,
        }
    }

    /// The conversation once a message is added to its history.
    pub open spec fn push_message(self, message: MessageView) -> ContextView {
        ContextView {
            chat_history: pushed(self.chat_history, BUFFER_CAPACITY as nat, message),
            ..self
        }
    }

    /// What the list of items says in the system prompt.
    pub open spec fn auctions(self) -> Seq<char> {
        if item_lines(self.nfts).len() == 0 {
            NOTHING_FOR_SALE@
        } else {
            item_lines(self.nfts)
        }
    }

    /// What the model is told before the history: to ask for an address and for
    /// nothing else while a claim waits for its buyer, and else the items for sale
    /// and the rules of the sale.
    pub open spec fn system_prompt(self) -> Seq<char> {
        if self.has_offer_item_without_buyer() {
            PROMPT_BEGINNING@ + ADDRESS_REQUEST@ + ADDRESS_PASSKEY@ + ADDRESS_REQUEST_END@
                + PROMPT_END@
        } else {
            PROMPT_BEGINNING@ + CATALOG_LEAD@ + self.auctions() + CATALOG_RULES@ + SOLD_PASSKEY@
                + CATALOG_TAIL@ + PROMPT_END@
        }
    }

    /// The messages sent to the model: the system prompt, then the history.
    pub open spec fn message_context(self) -> Seq<MessageView> {
        seq![MessageView { role: SYSTEM_ROLE@, content: self.system_prompt() }]
            + self.chat_history
    }

    /// The request sent to the model.
    pub open spec fn chat_params(self) -> ChatParamsView {
        ChatParamsView {
            model: CHAT_MODEL@,
            messages: self.message_context(),
            max_tokens: Some(CHAT_MAX_TOKENS),
            temperature_hundredths: Some(CHAT_TEMPERATURE_HUNDREDTHS),
        }
    }

    /// The conversation once the buyer has written `text`.
    pub open spec fn heard(self, text: Seq<char>) -> ContextView {
        self.push_message(MessageView { role: USER_ROLE@, content: text })
    }

    /// The conversation once the item of `key` is for sale: as it was where it
    /// knows the item, and else with the item, not bid on, at the end.
    pub open spec fn add_item(self, key: KeyView, listing: ListingView) -> ContextView {
        ContextView { nfts: added(self.nfts, key, fresh_item(listing)), ..self }
    }

    /// The conversation without the item of `key`.
    pub open spec fn remove_item(self, key: KeyView) -> ContextView {
        ContextView { nfts: without(self.nfts, key), ..self }
    }

    /// The conversation once the item of `key` was sold in another one: without
    /// the item and, where it had the item, with its name among the notices.
    pub open spec fn sold_elsewhere(self, key: KeyView) -> ContextView {
        match lookup(self.nfts, key) {
            Some(item) => ContextView {
                nfts: without(self.nfts, key),
                notices: self.notices.push(item.listing.name),
                ..self
            },
            None => self,
        }
    }

    /// What is said to the buyer beside the reply of the model: a request for an
    /// address while a claim waits for one, and else the notice of the items sold
    /// elsewhere, if there are any.
    pub open spec fn additional_text(self) -> Option<Seq<char>> {
        if self.has_offer_item_without_buyer() {
            Some(ADDRESS_NUDGE@)
        } else if self.notices.len() > 0 {
            Some(notice_text(self.notices))
        } else {
            None
        }
    }

    /// The conversation once the additional text was said: the notices are told
    /// unless a request for an address took their place.
    pub open spec fn told(self) -> ContextView {
        if self.has_offer_item_without_buyer() {
            self
        } else {
            ContextView { notices: Seq::empty(), ..self }
        }
    }
}

/// What the auctioneer holds: the catalog, and one conversation for each chat
/// that is open.
pub struct ManagerView {
    /// The items for sale, in the order in which they were first listed.
    pub nft_listings: Seq<(KeyView, ListingView)>,
    /// The conversations, by the identifier of their chat.
    pub contexts: Map<i64, ContextView>,
}

impl ManagerView {
    /// What holds of every auctioneer: no item is listed twice, and every
    /// conversation is well formed and has the items of the catalog, in its order.
    pub open spec fn wf(self) -> bool {
        &&& distinct_keys(self.nft_listings)
        &&& forall|id: i64| #[trigger]
            self.contexts.contains_key(id) ==> self.contexts[id].wf() && keys_of(
                self.contexts[id].nfts,
            ) == keys_of(self.nft_listings)
    }

    /// The auctioneer with a conversation for `id`: the one it had, or else one
    /// that begins on the catalog.
    pub open spec fn with_context(self, id: i64) -> ManagerView {
        if self.contexts.contains_key(id) {
            self
        } else {
            ManagerView {
                contexts: self.contexts.insert(id, ContextView::fresh(self.nft_listings)),
                ..self
            }
        }
    }

    /// The conversation of `id`, as it is or as it would begin.
    pub open spec fn context(self, id: i64) -> ContextView {
        self.with_context(id).contexts[id]
    }

    /// The auctioneer with `context` as the conversation of `id`.
    pub open spec fn with(self, id: i64, context: ContextView) -> ManagerView {
        ManagerView { contexts: self.contexts.insert(id, context), ..self }
    }

    /// The auctioneer once an item is listed: the catalog maps its key to the new
    /// listing, and every conversation that did not know the item gets it, not
    /// bid on.
    pub open spec fn add_nft(self, key: KeyView, listing: ListingView) -> ManagerView {
        ManagerView {
            nft_listings: inserted(self.nft_listings, key, listing),
            contexts: Map::new(
                |id: i64| self.contexts.contains_key(id),
                |id: i64| self.contexts[id].add_item(key, listing),
            ),
        }
    }

    /// The auctioneer once an item is taken off the catalog and out of every
    /// conversation.
    pub open spec fn remove_nft(self, key: KeyView) -> ManagerView {
        ManagerView {
            nft_listings: without(self.nft_listings, key),
            contexts: Map::new(
                |id: i64| self.contexts.contains_key(id),
                |id: i64| self.contexts[id].remove_item(key),
            ),
        }
    }

    /// The auctioneer once the sale of an item is settled in the conversation
    /// `origin`: the item leaves the catalog and every conversation, and every
    /// other conversation that had it is left a notice.
    pub open spec fn finalize_and_remove(self, key: KeyView, origin: i64) -> ManagerView {
        ManagerView {
            nft_listings: without(self.nft_listings, key),
            contexts: Map::new(
                |id: i64| self.contexts.contains_key(id),
                |id: i64|
                    if id == origin {
                        self.contexts[id].remove_item(key)
                    } else {
                        self.contexts[id].sold_elsewhere(key)
                    },
            ),
        }
    }

    /// The auctioneer without the conversation of `id`.
    pub open spec fn clear(self, id: i64) -> ManagerView {
        ManagerView { contexts: self.contexts.remove(id), ..self }
    }

    /// The auctioneer once the buyer of `id` has written `text`.
    pub open spec fn heard(self, id: i64, text: Seq<char>) -> ManagerView {
        self.with_context(id).with(id, self.context(id).heard(text))
    }

    /// The auctioneer once the reply of the model to `id` is in its history.
    pub open spec fn answered(self, id: i64, reply: MessageView) -> ManagerView {
        self.with_context(id).with(id, self.context(id).push_message(reply))
    }

    /// The auctioneer once the command of a reply to `id` is applied.
    pub open spec fn act(self, id: i64, reply: Seq<char>) -> ManagerView {
        self.with_context(id).with(id, self.context(id).process(reply))
    }

    /// The auctioneer once the additional text was said to `id`.
    pub open spec fn told(self, id: i64) -> ManagerView {
        self.with_context(id).with(id, self.context(id).told())
    }
}

} // verus!
