//! One conversation: its view of the catalog, the bids and the buyer it has
//! recorded, its bounded history, and the notices that wait for its buyer.

use crate::buffer::Buffer;
use crate::extract::{accept_address, first_match, parse_sold_reply, ADDRESS_PATTERN};
use crate::llm_types::{
    lemma_pushed_messages, messages_view, ChatParams, ChatParamsView, Message, MessageView,
};
use crate::model::{
    claim_is_covered, claimed, item_line, item_lines, lemma_without_covered, named, ContextView,
};
use crate::nft_map::{entries_view, lemma_absent, lemma_position, lookup, NftMap};
use crate::seqs::{first_from, first_index};
use crate::snapshot::ContextSnapshot;
use crate::structs::{
    clone_text, text_view, view_of, AuctionError, AuctioneerCommand, FinalizedOfferCommand,
    LinkAddressCommand, NFTData, NFTKey, NFTListing, NFTState, TentativeOfferCommand,
};
use crate::text::{join_texts, push_decimal, texts_view};
use crate::wei::{format_ether, parse_amount, Wei};
use crate::wording::{
    ADDRESS_NUDGE, ADDRESS_PASSKEY, ADDRESS_REQUEST, ADDRESS_REQUEST_END, BUFFER_CAPACITY,
    CATALOG_LEAD, CATALOG_RULES, CATALOG_TAIL, CHAT_MAX_TOKENS, CHAT_MODEL,
    CHAT_TEMPERATURE_HUNDREDTHS, ITEM_ADDRESS, ITEM_CHAIN, ITEM_DESCRIPTION, ITEM_END, ITEM_ID,
    ITEM_LEAD, ITEM_MIN_BID, ITEM_RULES, ITEM_UNIT, NAME_SEPARATOR, NOTHING_FOR_SALE, NOTICE_END,
    PROMPT_BEGINNING, PROMPT_END, SOLD_ELSEWHERE, SOLD_PASSKEY, SYSTEM_ROLE, USER_ROLE,
};
use vstd::prelude::*;

verus! {

/// The auction as one conversation sees it.
#[derive(Debug, PartialEq, Eq)]
pub struct Context {
    /// The items, each with the listing the conversation was shown and its state.
    nfts: NftMap<NFTData>,
    /// The address of the buyer, set as soon as the buyer gives it.
    buyer_address: Option<String>,
    /// The latest messages of the conversation.
    chat_history: Buffer<Message>,
    /// The names of items sold in other conversations, not yet told to the buyer.
    notices: Vec<String>,
}

impl View for Context {
    type V = ContextView;

    closed spec fn view(&self) -> ContextView {
        ContextView {
            nfts: self.nfts@,
            buyer_address: text_view(self.buyer_address),
            chat_history: messages_view(self.chat_history@.items),
            notices: texts_view(self.notices@),
        }
    }
}

impl Context {
    /// The capacity of the history.
    pub closed spec fn history_capacity(&self) -> nat {
        self.chat_history@.capacity
    }

    /// The conversation is well formed, and its history has the capacity of every
    /// conversation.
    pub open spec fn wf(&self) -> bool {
        self@.wf() && self.history_capacity() == BUFFER_CAPACITY
    }

    /// The conversation that begins on a catalog: every item of it, none bid on,
    /// no buyer, no history and no notice.
    pub fn new(listings: &NftMap<NFTListing>) -> (context: Context)
        requires
            listings.wf(),
        ensures
            context@ == ContextView::fresh(listings@),
            context.wf(),
    {
        let mut nfts: NftMap<NFTData> = NftMap::new();
        let mut i: usize = 0;
        while i < listings.len()
            invariant
                i <= listings@.len(),
                listings.wf(),
                nfts.wf(),
                nfts@ == ContextView::fresh(listings@).nfts.subrange(0, i as int),
            decreases listings@.len() - i,
        {
            let key = listings.key(i).clone();
            let data = NFTData { listing: listings.value(i).clone(), state: NFTState::default() };
            proof {
                assert forall|j: int| 0 <= j < nfts@.len() implies (#[trigger] nfts@[j]).0
                    != key@ by {
                    assert(nfts@[j].0 == listings@[j].0);
                }
                lemma_absent(nfts@, key@);
            }
            nfts.insert_if_absent(key, data);
            assert(nfts@ =~= ContextView::fresh(listings@).nfts.subrange(0, i + 1));
            i += 1;
        }
        assert(nfts@ =~= ContextView::fresh(listings@).nfts);
        let context = Context {
            nfts,
            buyer_address: None,
            chat_history: Buffer::new(BUFFER_CAPACITY),
            notices: Vec::new(),
        };
        assert(context@.chat_history =~= Seq::empty());
        assert(context@.notices =~= Seq::empty());
        context
    }

    /// The number of items the conversation knows.
    pub fn len(&self) -> (len: usize)
        ensures
            len == self@.nfts.len(),
    {
        self.nfts.len()
    }

    /// The key of the item at position `at`.
    pub fn key(&self, at: usize) -> (key: &NFTKey)
        requires
            at < self@.nfts.len(),
        ensures
            key@ == self@.nfts[at as int].0,
    {
        self.nfts.key(at)
    }

    /// The item at position `at`: the listing it was shown with, and its state.
    pub fn data(&self, at: usize) -> (data: &NFTData)
        requires
            at < self@.nfts.len(),
        ensures
            data@ == self@.nfts[at as int].1,
    {
        self.nfts.value(at)
    }

    /// What the conversation holds of the item of `key`.
    pub fn get(&self, key: &NFTKey) -> (found: Option<&NFTData>)
        ensures
            match found {
                Some(data) => lookup(self@.nfts, key@) == Some(data@),
                None => lookup(self@.nfts, key@) is None,
            },
    {
        self.nfts.get(key)
    }

    /// The address of the buyer, once it is known.
    pub fn buyer_address(&self) -> (address: &Option<String>)
        ensures
            text_view(*address) == self@.buyer_address,
    {
        &self.buyer_address
    }

    /// The number of messages in the history.
    pub fn history_len(&self) -> (len: usize)
        ensures
            len == self@.chat_history.len(),
    {
        self.chat_history.len()
    }

    /// The message at position `at` of the history, counted from the oldest.
    pub fn history_message(&self, at: usize) -> (message: &Message)
        requires
            at < self@.chat_history.len(),
        ensures
            message@ == self@.chat_history[at as int],
    {
        self.chat_history.get(at)
    }

    /// The number of notices that wait for the buyer.
    pub fn notices_len(&self) -> (len: usize)
        ensures
            len == self@.notices.len(),
    {
        self.notices.len()
    }

    /// The notice at position `at`: the name of an item sold elsewhere.
    pub fn notice(&self, at: usize) -> (name: &String)
        requires
            at < self@.notices.len(),
        ensures
            name@ == self@.notices[at as int],
    {
        &self.notices[at]
    }

    /// The position of the first item that is tentatively claimed.
    fn first_claimed(&self) -> (found: Option<usize>)
        ensures
            match found {
                Some(at) => first_index(self@.nfts, claimed()) == Some(at as int) && at
                    < self@.nfts.len(),
                None => first_index(self@.nfts, claimed()) is None,
            },
    {
        let mut at: usize = 0;
        while at < self.nfts.len()
            invariant
                at <= self@.nfts.len(),
                first_index(self@.nfts, claimed()) == first_from(self@.nfts, claimed(), at as int),
            decreases self@.nfts.len() - at,
        {
            if self.nfts.value(at).state.tentative_offer {
                return Some(at);
            }
            at += 1;
        }
        None
    }

    /// The first item that is tentatively claimed.
    pub fn first_tentative_offer(&self) -> (key: Option<NFTKey>)
        ensures
            view_of(key) == self@.first_tentative_offer(),
    {
        match self.first_claimed() {
            Some(at) => Some(self.nfts.key(at).clone()),
            None => None,
        }
    }

    /// Whether some item is tentatively claimed.
    pub fn tentative_offer_exists(&self) -> (exists: bool)
        ensures
            exists == self@.tentative_offer_exists(),
    {
        self.first_claimed().is_some()
    }

    /// Whether an item is claimed while the address of the buyer is not known.
    pub fn has_offer_item_without_buyer(&self) -> (waiting: bool)
        ensures
            waiting == self@.has_offer_item_without_buyer(),
    {
        let tentatively_offered = self.tentative_offer_exists();
        let no_address = self.buyer_address.is_none();
        tentatively_offered && no_address
    }

    /// The position of the first item of a given name.
    fn first_named(&self, name: &str) -> (found: Option<usize>)
        ensures
            match found {
                Some(at) => first_index(self@.nfts, named(name@)) == Some(at as int) && at
                    < self@.nfts.len(),
                None => first_index(self@.nfts, named(name@)) is None,
            },
    {
        let wanted = String::from_str(name);
        let mut at: usize = 0;
        while at < self.nfts.len()
            invariant
                at <= self@.nfts.len(),
                wanted@ == name@,
                first_index(self@.nfts, named(name@)) == first_from(
                    self@.nfts,
                    named(name@),
                    at as int,
                ),
            decreases self@.nfts.len() - at,
        {
            if self.nfts.value(at).listing.name == wanted {
                return Some(at);
            }
            at += 1;
        }
        None
    }

    /// The claim that a sale of `name` for `amount` makes: on the first item of
    /// that name, where the amount is known and reaches the minimum price of the
    /// item.
    pub fn offer_for(&self, name: &str, amount: Option<Wei>) -> (offer: Option<
        TentativeOfferCommand,
    >)
        ensures
            view_of(offer) == self@.offer_for(name@, view_of(amount)),
    {
        match (self.first_named(name), amount) {
            (Some(at), Some(price)) => {
                if price.ge(&self.nfts.value(at).listing.min_price) {
                    Some(TentativeOfferCommand { nft_key: self.nfts.key(at).clone(), price })
                } else {
                    None
                }
            },
            _ => None,
        }
    }

    /// Reads the announcement of a sale out of a reply, and makes the claim of it.
    pub fn handle_offer(&self, input: &str) -> (offer: Option<TentativeOfferCommand>)
        ensures
            view_of(offer) == self@.handle_offer(input@),
    {
        match parse_sold_reply(input) {
            Some((name, amount_text)) => {
                let amount = match parse_amount(amount_text.as_str()) {
                    Ok(price) => Some(price),
                    Err(_) => None,
                };
                self.offer_for(name.as_str(), amount)
            },
            None => None,
        }
    }

    /// The link that a candidate address makes: of the first claimed item to the
    /// candidate, where the candidate is an address.
    pub fn link_for(&self, candidate: Option<String>) -> (link: Option<LinkAddressCommand>)
        ensures
            view_of(link) == self@.link_for(text_view(candidate)),
    {
        match accept_address(candidate) {
            Some(address) => match self.first_tentative_offer() {
                Some(nft_key) => Some(LinkAddressCommand { nft_key, buyer_address: address }),
                None => None,
            },
            None => None,
        }
    }

    /// Looks for the address of a buyer in a reply, and links it to the claimed
    /// item.
    pub fn handle_address_linking(&self, llm_response: &str) -> (link: Option<LinkAddressCommand>)
        ensures
            view_of(link) == self@.handle_address_linking(llm_response@),
    {
        self.link_for(first_match(ADDRESS_PATTERN, llm_response))
    }

    /// The command that a reply holds: a claim, or else a link, or else nothing.
    pub fn extract_command(&self, llm_response: &str) -> (command: AuctioneerCommand)
        ensures
            command@ == self@.command(llm_response@),
    {
        match self.handle_offer(llm_response) {
            Some(offer) => AuctioneerCommand::TentativeOffer(offer),
            None => match self.handle_address_linking(llm_response) {
                Some(link) => AuctioneerCommand::LinkAddress(link),
                None => AuctioneerCommand::Empty,
            },
        }
    }

    /// Applies a command: a claim is recorded on its item, a link sets the address
    /// of the buyer.
    pub fn apply_command(&mut self, command: AuctioneerCommand)
        requires
            old(self).wf(),
        ensures
            final(self)@ == old(self)@.apply(command@),
            final(self).wf(),
    {
        match command {
            AuctioneerCommand::TentativeOffer(offer) => {
                match self.nfts.position(&offer.nft_key) {
                    Some(at) => {
                        let data = self.nfts.value(at);
                        if offer.price.ge(&data.listing.min_price) {
                            let claimed = NFTData {
                                listing: data.listing.clone(),
                                state: NFTState {
                                    highest_bid: data.state.highest_bid.max(offer.price),
                                    tentative_offer: true,
                                },
                            };
                            self.nfts.set_value(at, claimed);
                            proof {
                                let after = final(self)@;
                                assert forall|i: int| 0 <= i < after.nfts.len() implies
                                    claim_is_covered((#[trigger] after.nfts[i]).1) by {
                                    if i != at {
                                        assert(after.nfts[i] == old(self)@.nfts[i]);
                                    }
                                }
                            }
                        }
                    },
                    None => {},
                }
            },
            AuctioneerCommand::LinkAddress(link) => {
                self.buyer_address = Some(link.buyer_address);
            },
            _ => {},
        }
    }

    /// Reads a reply of the model and applies what it asks for. Hands back the
    /// item that the reply brings up for settlement: the item it claims, where the
    /// address of the buyer is known; the item it links an address to; and none
    /// where the reply asks for nothing.
    pub fn process_llm_response(&mut self, llm_response: &str) -> (offered: Option<NFTKey>)
        requires
            old(self).wf(),
        ensures
            final(self)@ == old(self)@.process(llm_response@),
            final(self).wf(),
            view_of(offered) == old(self)@.offered_item(old(self)@.command(llm_response@)),
            old(self)@.handle_offer(llm_response@) is None && old(self)@.handle_address_linking(
                llm_response@,
            ) is None ==> offered is None && final(self)@ == old(self)@,
    {
        let command = self.extract_command(llm_response);
        let offered = match &command {
            AuctioneerCommand::TentativeOffer(offer) => {
                if self.buyer_address.is_some() {
                    Some(offer.nft_key.clone())
                } else {
                    None
                }
            },
            AuctioneerCommand::LinkAddress(link) => Some(link.nft_key.clone()),
            _ => None,
        };
        self.apply_command(command);
        offered
    }

    /// The offer that can be settled: the first claimed item, the buyer, and the
    /// highest bid recorded on the item.
    pub fn finalized_offer(&self) -> (offer: Option<FinalizedOfferCommand>)
        ensures
            view_of(offer) == self@.finalized(),
    {
        match (self.first_claimed(), &self.buyer_address) {
            (Some(at), Some(buyer)) => Some(
                FinalizedOfferCommand {
                    nft_key: self.nfts.key(at).clone(),
                    buyer_address: buyer.clone(),
                    price: self.nfts.value(at).state.highest_bid,
                },
            ),
            _ => None,
        }
    }
}

/// The line that offers one item in the system prompt.
pub fn item_line_text(key: &NFTKey, listing: &NFTListing) -> (line: String)
    ensures
        line@ == item_line(key@, listing@),
{
    let mut line = String::from_str(ITEM_LEAD);
    line.append(listing.name.as_str());
    line.append(ITEM_MIN_BID);
    let price = format_ether(&listing.min_price);
    line.append(price.as_str());
    line.append(ITEM_UNIT);
    let ghost head = line@;
    match &listing.description {
        Some(description) => {
            line.append(ITEM_DESCRIPTION);
            line.append(description.as_str());
            assert(line@ =~= head + (ITEM_DESCRIPTION@ + description@));
        },
        None => {
            assert(line@ =~= head + Seq::<char>::empty());
        },
    }
    let ghost described = line@;
    match &listing.custom_prompt {
        Some(rules) => {
            line.append(ITEM_RULES);
            line.append(rules.as_str());
            assert(line@ =~= described + (ITEM_RULES@ + rules@));
        },
        None => {
            assert(line@ =~= described + Seq::<char>::empty());
        },
    }
    line.append(ITEM_ADDRESS);
    line.append(listing.address.as_str());
    line.append(ITEM_CHAIN);
    push_decimal(&mut line, key.chain);
    line.append(ITEM_ID);
    push_decimal(&mut line, key.id);
    line.append(ITEM_END);
    line
}

/// The request that carries `messages` to the model that holds the
/// conversations: short replies, and little chance in them.
pub fn create_chat_params(messages: Vec<Message>) -> (params: ChatParams)
    ensures
        params@ == (ChatParamsView {
            model: CHAT_MODEL@,
            messages: messages_view(messages@),
            max_tokens: Some(CHAT_MAX_TOKENS),
            temperature_hundredths: Some(CHAT_TEMPERATURE_HUNDREDTHS),
        }),
{
    ChatParams {
        model: String::from_str(CHAT_MODEL),
        messages,
        max_tokens: Some(CHAT_MAX_TOKENS),
        temperature_hundredths: Some(CHAT_TEMPERATURE_HUNDREDTHS),
    }
}

impl Context {
    /// The lines of the items that are not claimed, or the sentence that says that
    /// nothing is for sale.
    fn auctions(&self) -> (text: String)
        ensures
            text@ == self@.auctions(),
    {
        let mut lines = String::new();
        let mut i: usize = 0;
        assert(self@.nfts.subrange(0, 0) =~= Seq::empty());
        while i < self.nfts.len()
            invariant
                i <= self@.nfts.len(),
                lines@ == item_lines(self@.nfts.subrange(0, i as int)),
            decreases self@.nfts.len() - i,
        {
            let data = self.nfts.value(i);
            assert(self@.nfts.subrange(0, i + 1).drop_last() =~= self@.nfts.subrange(0, i as int));
            assert(self@.nfts.subrange(0, i + 1).last() == self@.nfts[i as int]);
            if !data.state.tentative_offer {
                let line = item_line_text(self.nfts.key(i), &data.listing);
                lines.append(line.as_str());
            }
            i += 1;
        }
        assert(self@.nfts.subrange(0, i as int) =~= self@.nfts);
        if lines.as_str().unicode_len() == 0 {
            String::from_str(NOTHING_FOR_SALE)
        } else {
            lines
        }
    }

    /// The system prompt: the items for sale with their rules, or, while a claim
    /// waits for the address of its buyer, the request to ask for it and for
    /// nothing else.
    pub fn create_system_prompt(&self) -> (message: Message)
        ensures
            message@ == (MessageView { role: SYSTEM_ROLE@, content: self@.system_prompt() }),
    {
        let mut content = String::from_str(PROMPT_BEGINNING);
        if self.has_offer_item_without_buyer() {
            content.append(ADDRESS_REQUEST);
            content.append(ADDRESS_PASSKEY);
            content.append(ADDRESS_REQUEST_END);
        } else {
            let auctions = self.auctions();
            content.append(CATALOG_LEAD);
            content.append(auctions.as_str());
            content.append(CATALOG_RULES);
            content.append(SOLD_PASSKEY);
            content.append(CATALOG_TAIL);
        }
        content.append(PROMPT_END);
        Message { role: String::from_str(SYSTEM_ROLE), content }
    }

    /// The messages to send to the model: the system prompt, then the history.
    pub fn create_message_context(&self) -> (messages: Vec<Message>)
        ensures
            messages_view(messages@) == self@.message_context(),
    {
        let mut messages: Vec<Message> = Vec::new();
        messages.push(self.create_system_prompt());
        let mut i: usize = 0;
        while i < self.chat_history.len()
            invariant
                i <= self.chat_history@.items.len(),
                messages_view(messages@) == self@.message_context().subrange(0, i + 1),
            decreases self.chat_history@.items.len() - i,
        {
            let ghost before = messages@;
            let copy = self.chat_history.get(i).clone();
            messages.push(copy);
            proof {
                assert(messages_view(messages@) =~= messages_view(before).push(copy@));
                assert(self@.message_context()[i + 1] == self@.chat_history[i as int]);
                let sent = self@.message_context();
                assert(sent.subrange(0, i + 2) =~= sent.subrange(0, i + 1).push(copy@));
            }
            i += 1;
        }
        assert(messages_view(messages@) =~= self@.message_context());
        messages
    }

    /// Takes in what the buyer wrote, and hands back the request to send to the
    /// model: the system prompt and the history, the new message last.
    pub fn chat(&mut self, text: &str) -> (params: ChatParams)
        requires
            old(self).wf(),
        ensures
            final(self)@ == old(self)@.heard(text@),
            final(self).wf(),
            params@ == final(self)@.chat_params(),
    {
        let message = Message::new(USER_ROLE, text);
        proof {
            lemma_pushed_messages(self.chat_history@.items, BUFFER_CAPACITY as nat, message);
        }
        self.chat_history.push(message);
        create_chat_params(self.create_message_context())
    }

    /// Takes in the outcome of the request: the reply of the model goes into the
    /// history and is handed back; without a reply nothing changes.
    pub fn chat_reply(&mut self, answer: Option<Message>) -> (reply: Result<Message, AuctionError>)
        requires
            old(self).wf(),
        ensures
            final(self).wf(),
            match answer {
                Some(message) => final(self)@ == old(self)@.push_message(message@) && (
                reply matches Ok(told) && told@ == message@),
                None => final(self)@ == old(self)@ && reply == Err::<Message, AuctionError>(
                    AuctionError::ModelUnavailable,
                ),
            },
    {
        match answer {
            Some(message) => {
                let copy = message.clone();
                proof {
                    lemma_pushed_messages(self.chat_history@.items, BUFFER_CAPACITY as nat, copy);
                }
                self.chat_history.push(copy);
                Ok(message)
            },
            None => Err(AuctionError::ModelUnavailable),
        }
    }
}

impl Context {
    /// Takes in an item that is now for sale: a conversation that knows the item
    /// keeps what it has of it, and any other gets it, not bid on.
    pub fn add_item(&mut self, key: NFTKey, listing: NFTListing)
        requires
            old(self).wf(),
        ensures
            final(self)@ == old(self)@.add_item(key@, listing@),
            final(self).wf(),
    {
        let data = NFTData { listing, state: NFTState::default() };
        proof {
            lemma_position(self@.nfts, key@);
        }
        self.nfts.insert_if_absent(key, data);
        proof {
            let after = final(self)@;
            assert forall|i: int| 0 <= i < after.nfts.len() implies claim_is_covered(
                (#[trigger] after.nfts[i]).1,
            ) by {
                if i < old(self)@.nfts.len() {
                    assert(after.nfts[i] == old(self)@.nfts[i]);
                }
            }
        }
    }

    /// Takes out the item of `key`, if the conversation has it.
    pub fn remove_item(&mut self, key: &NFTKey)
        requires
            old(self).wf(),
        ensures
            final(self)@ == old(self)@.remove_item(key@),
            final(self).wf(),
    {
        proof {
            lemma_position(self@.nfts, key@);
        }
        self.nfts.remove(key);
        proof {
            lemma_without_covered(old(self)@.nfts, key@);
        }
    }

    /// Takes out the item of `key` because it was sold in another conversation;
    /// where the conversation had the item, its name is kept as a notice for the
    /// buyer.
    pub fn sold_elsewhere(&mut self, key: &NFTKey)
        requires
            old(self).wf(),
        ensures
            final(self)@ == old(self)@.sold_elsewhere(key@),
            final(self).wf(),
    {
        proof {
            lemma_position(self@.nfts, key@);
            lemma_without_covered(self@.nfts, key@);
        }
        match self.nfts.remove(key) {
            Some(data) => {
                let ghost before = self.notices@;
                self.notices.push(data.listing.name);
                assert(texts_view(self.notices@) =~= texts_view(before).push(
                    data.listing.name@,
                ));
            },
            None => {},
        }
    }

    /// What is said to the buyer beside the reply of the model: a request for an
    /// address while a claim waits for one, and else the notice of the items sold
    /// elsewhere, which are then told.
    pub fn additional_text(&mut self) -> (text: Option<String>)
        requires
            old(self).wf(),
        ensures
            text_view(text) == old(self)@.additional_text(),
            final(self)@ == old(self)@.told(),
            final(self).wf(),
    {
        if self.has_offer_item_without_buyer() {
            return Some(String::from_str(ADDRESS_NUDGE));
        }
        if self.notices.len() > 0 {
            let mut text = String::from_str(SOLD_ELSEWHERE);
            let names = join_texts(&self.notices, NAME_SEPARATOR);
            text.append(names.as_str());
            text.append(NOTICE_END);
            self.notices.clear();
            assert(texts_view(self.notices@) =~= Seq::empty());
            Some(text)
        } else {
            assert(texts_view(self.notices@) =~= Seq::empty());
            None
        }
    }
}

impl Context {
    /// The conversation as plain data, as it is saved.
    pub fn snapshot(&self) -> (snapshot: ContextSnapshot)
        ensures
            snapshot@ == self@,
    {
        let mut nfts: Vec<(NFTKey, NFTData)> = Vec::new();
        let mut i: usize = 0;
        while i < self.nfts.len()
            invariant
                i <= self@.nfts.len(),
                nfts@.len() == i,
                forall|j: int|
                    0 <= j < i ==> (#[trigger] nfts@[j]).0@ == self@.nfts[j].0 && nfts@[j].1@
                        == self@.nfts[j].1,
            decreases self@.nfts.len() - i,
        {
            nfts.push((self.nfts.key(i).clone(), self.nfts.value(i).clone()));
            i += 1;
        }
        assert(entries_view(nfts@) =~= self@.nfts);
        let mut chat_history: Vec<Message> = Vec::new();
        let mut i: usize = 0;
        while i < self.chat_history.len()
            invariant
                i <= self.chat_history@.items.len(),
                chat_history@.len() == i,
                forall|j: int|
                    0 <= j < i ==> (#[trigger] chat_history@[j])@ == self.chat_history@.items[j]@,
            decreases self.chat_history@.items.len() - i,
        {
            chat_history.push(self.chat_history.get(i).clone());
            i += 1;
        }
        assert(messages_view(chat_history@) =~= self@.chat_history);
        let mut notices: Vec<String> = Vec::new();
        let mut i: usize = 0;
        while i < self.notices.len()
            invariant
                i <= self.notices@.len(),
                notices@.len() == i,
                forall|j: int| 0 <= j < i ==> (#[trigger] notices@[j])@ == self.notices@[j]@,
            decreases self.notices@.len() - i,
        {
            notices.push(self.notices[i].clone());
            i += 1;
        }
        assert(texts_view(notices@) =~= self@.notices);
        ContextSnapshot {
            nfts,
            buyer_address: clone_text(&self.buyer_address),
            chat_history,
            notices,
        }
    }

    /// The conversation that was saved, unless what was saved is no well-formed
    /// conversation: an item that is there twice, a history over its capacity, or
    /// a claimed item whose bid does not reach its minimum price.
    pub fn restore(snapshot: ContextSnapshot) -> (restored: Option<Context>)
        ensures
            match restored {
                Some(context) => context@ == snapshot@ && context.wf(),
                None => !snapshot@.wf(),
            },
    {
        broadcast use vstd::std_specs::vec::axiom_spec_into_iter;

        let ghost wanted = snapshot@;
        let ContextSnapshot { nfts, buyer_address, chat_history, notices } = snapshot;
        let nfts = match NftMap::from_entries(nfts) {
            Some(nfts) => nfts,
            None => {
                return None;
            },
        };
        let mut i: usize = 0;
        while i < nfts.len()
            invariant
                i <= nfts@.len(),
                wanted == snapshot@,
                nfts@ == wanted.nfts,
                forall|j: int| 0 <= j < i ==> claim_is_covered((#[trigger] nfts@[j]).1),
            decreases nfts@.len() - i,
        {
            let data = nfts.value(i);
            if data.state.tentative_offer && data.state.highest_bid.lt(&data.listing.min_price) {
                assert(!claim_is_covered(wanted.nfts[i as int].1));
                return None;
            }
            i += 1;
        }
        if chat_history.len() > BUFFER_CAPACITY {
            assert(messages_view(chat_history@).len() == chat_history@.len());
            return None;
        }
        let ghost saved = chat_history@;
        let mut history: Buffer<Message> = Buffer::new(BUFFER_CAPACITY);
        for message in it: chat_history.into_iter()
            invariant
                it.seq() == saved,
                saved.len() <= BUFFER_CAPACITY,
                history@.capacity == BUFFER_CAPACITY,
                history@.items == saved.subrange(0, it.index()),
        {
            history.push(message);
            assert(history@.items =~= saved.subrange(0, it.index() + 1));
        }
        assert(history@.items =~= saved);
        assert(messages_view(saved).len() == saved.len());
        Some(Context { nfts, buyer_address, chat_history: history, notices })
    }
}

} // verus!
