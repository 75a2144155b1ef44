//! The auctioneer: the catalog and the conversations, and the operations that
//! the host calls on them.

use crate::context::Context;
use crate::laws::{law_apply_keeps_claims_covered, law_fresh_conversation};
use crate::llm_types::{ChatParams, Message};
use crate::model::{fresh_item, ContextView, ManagerView};
use crate::nft_map::{
    entries_view, inserted, keys_of, lemma_keys_kept, lemma_position, lookup, without, NftMap,
};
use crate::snapshot::{
    contexts_by_chat, contexts_view, lemma_contexts_by_chat, ContextSnapshot, ManagerSnapshot,
};
use crate::structs::{
    text_view, view_of, AddNFTArgs, AuctionError, FinalizedOfferCommand, KeyView, ListingView,
    NFTKey, NFTListing,
};
use crate::wei::{amount_of, parse_amount, Wei};
use crate::wording::BUFFER_CAPACITY;
use std::collections::HashMap;
use vstd::prelude::*;
use vstd::std_specs::hash::group_hash_axioms;
use vstd::std_specs::iter::IteratorSpec;

verus! {

/// The identifier of a chat.
pub type ChatId = i64;

/// The address given to the items that an auctioneer is seeded with.
pub const PLACEHOLDER_ADDRESS: &'static str = "placeholder for debugging";

/// The chain given to the items that an auctioneer is seeded with.
pub const PLACEHOLDER_CHAIN: u64 = 1;

/// The key of a seeded item.
pub open spec fn seed_key(id: i64) -> KeyView {
    KeyView { id: id as u64, chain: PLACEHOLDER_CHAIN, address: PLACEHOLDER_ADDRESS@ }
}

/// The listing of a seeded item.
pub open spec fn seed_listing(name: Seq<char>, min_price: nat) -> ListingView {
    ListingView {
        name,
        min_price,
        address: PLACEHOLDER_ADDRESS@,
        description: None,
        custom_prompt: None,
    }
}

/// The catalog that a list of seeds makes: each seed is listed in its turn, a
/// later one in the place of an earlier one of the same identifier.
pub open spec fn seeded(seeds: Seq<(i64, &str, Wei)>) -> Seq<(KeyView, ListingView)>
    decreases seeds.len(),
{
    if seeds.len() == 0 {
        Seq::empty()
    } else {
        inserted(
            seeded(seeds.drop_last()),
            seed_key(seeds.last().0),
            seed_listing(seeds.last().1@, seeds.last().2@),
        )
    }
}

/// Manages the listed items and the conversations of the chats.
#[derive(Debug, PartialEq, Eq)]
pub struct ContextManager {
    nft_listings: NftMap<NFTListing>,
    contexts: HashMap<ChatId, Context>,
}

impl View for ContextManager {
    type V = ManagerView;

    closed spec fn view(&self) -> ManagerView {
        ManagerView {
            nft_listings: self.nft_listings@,
            contexts: Map::new(
                |id: i64| self.contexts@.contains_key(id),
                |id: i64| self.contexts@[id]@,
            ),
        }
    }
}

impl ContextManager {
    /// The history of every conversation has the capacity of every conversation.
    pub closed spec fn capacities_hold(&self) -> bool {
        forall|id: i64| #[trigger]
            self.contexts@.contains_key(id) ==> self.contexts@[id].history_capacity()
                == BUFFER_CAPACITY
    }

    /// The auctioneer is well formed.
    pub open spec fn wf(&self) -> bool {
        self@.wf() && self.capacities_hold()
    }

    /// An auctioneer without conversations, seeded with items given by
    /// identifier, name and minimum price.
    pub fn new(nft_consts: &[(i64, &str, Wei)]) -> (manager: Self)
        ensures
            manager@.nft_listings == seeded(nft_consts@),
            manager@.contexts == Map::<i64, ContextView>::empty(),
            manager.wf(),
    {
        broadcast use group_hash_axioms;

        let mut nft_listings: NftMap<NFTListing> = NftMap::new();
        let mut i: usize = 0;
        assert(nft_consts@.subrange(0, 0) =~= Seq::empty());
        while i < nft_consts.len()
            invariant
                i <= nft_consts@.len(),
                nft_listings.wf(),
                nft_listings@ == seeded(nft_consts@.subrange(0, i as int)),
            decreases nft_consts@.len() - i,
        {
            let (id, name, price) = nft_consts[i];
            assert(nft_consts@.subrange(0, i + 1).drop_last() =~= nft_consts@.subrange(
                0,
                i as int,
            ));
            assert(nft_consts@.subrange(0, i + 1).last() == nft_consts@[i as int]);
            nft_listings.insert(
                NFTKey {
                    id: id as u64,
                    address: String::from_str(PLACEHOLDER_ADDRESS),
                    chain: PLACEHOLDER_CHAIN,
                },
                NFTListing {
                    name: String::from_str(name),
                    address: String::from_str(PLACEHOLDER_ADDRESS),
                    description: None,
                    custom_prompt: None,
                    min_price: price,
                },
            );
            i += 1;
        }
        assert(nft_consts@.subrange(0, i as int) =~= nft_consts@);
        let manager = ContextManager { nft_listings, contexts: HashMap::new() };
        assert(manager@.contexts =~= Map::<i64, ContextView>::empty());
        manager
    }

    /// The conversation that begins on a catalog.
    pub fn new_context(nft_listings: &NftMap<NFTListing>) -> (context: Context)
        requires
            nft_listings.wf(),
        ensures
            context@ == ContextView::fresh(nft_listings@),
            context.wf(),
    {
        Context::new(nft_listings)
    }

    /// The number of items listed.
    pub fn listings_len(&self) -> (len: usize)
        ensures
            len == self@.nft_listings.len(),
    {
        self.nft_listings.len()
    }

    /// The key of the item listed at position `at`.
    pub fn listing_key(&self, at: usize) -> (key: &NFTKey)
        requires
            at < self@.nft_listings.len(),
        ensures
            key@ == self@.nft_listings[at as int].0,
    {
        self.nft_listings.key(at)
    }

    /// The listing at position `at`.
    pub fn listing(&self, at: usize) -> (listing: &NFTListing)
        requires
            at < self@.nft_listings.len(),
        ensures
            listing@ == self@.nft_listings[at as int].1,
    {
        self.nft_listings.value(at)
    }

    /// The listing of the item of `key`.
    pub fn get_listing(&self, key: &NFTKey) -> (found: Option<&NFTListing>)
        ensures
            match found {
                Some(listing) => lookup(self@.nft_listings, key@) == Some(
                    listing@,
                ),
                None => lookup(self@.nft_listings, key@) is None,
            },
    {
        self.nft_listings.get(key)
    }

    /// Whether the chat `chat_id` has a conversation.
    pub fn has_context(&self, chat_id: ChatId) -> (found: bool)
        ensures
            found == self@.contexts.contains_key(chat_id),
    {
        broadcast use group_hash_axioms;

        self.contexts.contains_key(&chat_id)
    }

    /// The conversation of the chat `chat_id`.
    pub fn context(&self, chat_id: ChatId) -> (found: Option<&Context>)
        ensures
            match found {
                Some(context) => self@.contexts.contains_key(chat_id) && context@
                    == self@.contexts[chat_id] && (self.wf() ==> context.wf()),
                None => !self@.contexts.contains_key(chat_id),
            },
    {
        broadcast use group_hash_axioms;

        self.contexts.get(&chat_id)
    }

    /// Every conversation is well formed and has the items of the catalog, in its
    /// order.
    closed spec fn contexts_ok(&self) -> bool {
        forall|id: i64| #[trigger]
            self.contexts@.contains_key(id) ==> self.contexts@[id].wf() && keys_of(
                self.contexts@[id]@.nfts,
            ) == keys_of(self.nft_listings@)
    }

    /// What it is for the auctioneer to be well formed, said of its parts.
    proof fn lemma_wf(&self)
        ensures
            self.wf() <==> (self.nft_listings.wf() && self.contexts_ok()),
    {
        if self.wf() {
            assert forall|id: i64| #[trigger]
                self.contexts@.contains_key(id) implies self.contexts@[id].wf() && keys_of(
                self.contexts@[id]@.nfts,
            ) == keys_of(self.nft_listings@) by {
                assert(self@.contexts.contains_key(id));
                assert(self@.contexts[id] == self.contexts@[id]@);
            }
        }
        if self.nft_listings.wf() && self.contexts_ok() {
            assert forall|id: i64| #[trigger]
                self@.contexts.contains_key(id) implies self@.contexts[id].wf() && keys_of(
                self@.contexts[id].nfts,
            ) == keys_of(self@.nft_listings) by {
                assert(self.contexts@.contains_key(id));
            }
        }
    }

    /// Makes sure that the chat `chat_id` has a conversation: one that begins on
    /// the catalog, unless it has one already.
    fn chat_context(&mut self, chat_id: ChatId)
        requires
            old(self).wf(),
        ensures
            final(self)@ == old(self)@.with_context(chat_id),
            final(self).wf(),
            final(self).contexts@.contains_key(chat_id),
    {
        broadcast use group_hash_axioms;

        proof {
            self.lemma_wf();
        }
        if !self.contexts.contains_key(&chat_id) {
            let context = Self::new_context(&self.nft_listings);
            proof {
                law_fresh_conversation(self.nft_listings@);
            }
            self.contexts.insert(chat_id, context);
            assert(final(self)@.contexts =~= old(self)@.with_context(chat_id).contexts);
        }
        proof {
            final(self).lemma_wf();
        }
    }

    /// Takes the conversation of a chat out of the auctioneer.
    fn take(&mut self, chat_id: ChatId) -> (context: Context)
        requires
            old(self).contexts_ok(),
            old(self).contexts@.contains_key(chat_id),
        ensures
            context == old(self).contexts@[chat_id],
            context.wf(),
            keys_of(context@.nfts) == keys_of(old(self).nft_listings@),
            final(self).contexts@ == old(self).contexts@.remove(chat_id),
            final(self).nft_listings == old(self).nft_listings,
            final(self).contexts_ok(),
    {
        broadcast use group_hash_axioms;

        let taken = self.contexts.remove(&chat_id);
        taken.unwrap()
    }

    /// Puts a conversation into the auctioneer, as that of the chat `chat_id`.
    fn put(&mut self, chat_id: ChatId, context: Context)
        requires
            old(self).contexts_ok(),
            context.wf(),
            keys_of(context@.nfts) == keys_of(old(self).nft_listings@),
        ensures
            final(self).contexts@ == old(self).contexts@.insert(chat_id, context),
            final(self).nft_listings == old(self).nft_listings,
            final(self).contexts_ok(),
    {
        broadcast use group_hash_axioms;

        self.contexts.insert(chat_id, context);
    }

    /// Takes in what the buyer of the chat `chat_id` wrote, in a conversation that
    /// begins now if the chat had none, and hands back the request to send to the
    /// model.
    pub fn chat(&mut self, chat_id: ChatId, text: &str) -> (params: ChatParams)
        requires
            old(self).wf(),
        ensures
            final(self)@ == old(self)@.heard(chat_id, text@),
            final(self).wf(),
            params@ == final(self)@.contexts[chat_id].chat_params(),
    {
        self.chat_context(chat_id);
        proof {
            self.lemma_wf();
        }
        let mut context = self.take(chat_id);
        let params = context.chat(text);
        self.put(chat_id, context);
        proof {
            final(self).lemma_wf();
            assert(final(self)@.contexts =~= old(self)@.heard(chat_id, text@).contexts);
        }
        params
    }

    /// Takes in the outcome of the request for the chat `chat_id`. The reply of
    /// the model goes into the history of the conversation, and its text is handed
    /// back as it is; without a reply nothing changes.
    pub fn chat_reply(&mut self, chat_id: ChatId, answer: Option<Message>) -> (reply: Result<
        String,
        AuctionError,
    >)
        requires
            old(self).wf(),
        ensures
            final(self).wf(),
            match answer {
                Some(message) => final(self)@ == old(self)@.answered(chat_id, message@) && (
                reply matches Ok(text) && text@ == message@.content),
                None => final(self)@ == old(self)@ && reply == Err::<String, AuctionError>(
                    AuctionError::ModelUnavailable,
                ),
            },
    {
        match answer {
            Some(message) => {
                self.chat_context(chat_id);
                proof {
                    self.lemma_wf();
                }
                let mut context = self.take(chat_id);
                let told = context.chat_reply(Some(message));
                self.put(chat_id, context);
                proof {
                    final(self).lemma_wf();
                    assert(final(self)@.contexts =~= old(self)@.answered(
                        chat_id,
                        message@,
                    ).contexts);
                }
                match told {
                    Ok(reply) => Ok(reply.content),
                    Err(error) => Err(error),
                }
            },
            None => Err(AuctionError::ModelUnavailable),
        }
    }

    /// Reads a reply of the model to the chat `chat_id`, applies what it asks for,
    /// and hands back the offer that can now be settled: there is one exactly when
    /// the conversation has a claimed item and the address of its buyer.
    pub fn act(&mut self, chat_id: ChatId, llm_response: &str) -> (offer: Option<
        FinalizedOfferCommand,
    >)
        requires
            old(self).wf(),
        ensures
            final(self)@ == old(self)@.act(chat_id, llm_response@),
            final(self).wf(),
            view_of(offer) == final(self)@.contexts[chat_id].finalized(),
            offer is Some <==> final(self)@.contexts[chat_id].tentative_offer_exists()
                && final(self)@.contexts[chat_id].buyer_address is Some,
    {
        self.chat_context(chat_id);
        proof {
            self.lemma_wf();
        }
        let mut context = self.take(chat_id);
        let ghost before = context@;
        context.process_llm_response(llm_response);
        proof {
            law_apply_keeps_claims_covered(before, before.command(llm_response@));
        }
        let offer = context.finalized_offer();
        self.put(chat_id, context);
        proof {
            final(self).lemma_wf();
            assert(final(self)@.contexts =~= old(self)@.act(chat_id, llm_response@).contexts);
        }
        offer
    }

    /// What is said to the buyer of the chat `chat_id` beside the reply of the
    /// model: a request for an address while a claim waits for one, and else the
    /// notice of the items sold in other conversations, which are then told.
    pub fn additional_text(&mut self, chat_id: ChatId) -> (text: Option<String>)
        requires
            old(self).wf(),
        ensures
            text_view(text) == old(self)@.context(chat_id).additional_text(),
            final(self)@ == old(self)@.told(chat_id),
            final(self).wf(),
    {
        self.chat_context(chat_id);
        proof {
            self.lemma_wf();
        }
        let mut context = self.take(chat_id);
        let text = context.additional_text();
        self.put(chat_id, context);
        proof {
            final(self).lemma_wf();
            assert(final(self)@.contexts =~= old(self)@.told(chat_id).contexts);
        }
        text
    }

    /// Forgets the conversation of the chat `chat_id`: its history, its bids and
    /// its buyer.
    pub fn clear(&mut self, chat_id: ChatId)
        requires
            old(self).wf(),
        ensures
            final(self)@ == old(self)@.clear(chat_id),
            final(self).wf(),
    {
        broadcast use group_hash_axioms;

        proof {
            self.lemma_wf();
        }
        self.contexts.remove(&chat_id);
        proof {
            final(self).lemma_wf();
            assert(final(self)@.contexts =~= old(self)@.clear(chat_id).contexts);
        }
    }
}

/// A change that reaches every conversation.
enum Change {
    /// An item is listed.
    Listed(NFTListing),
    /// An item is taken off the catalog.
    Removed,
    /// An item was sold in the conversation of the given chat.
    Sold(ChatId),
}

/// A change, as plain values.
enum ChangeView {
    Listed(ListingView),
    Removed,
    Sold(i64),
}

impl View for Change {
    type V = ChangeView;

    closed spec fn view(&self) -> ChangeView {
        match self {
            Change::Listed(listing) => ChangeView::Listed(listing@),
            Change::Removed => ChangeView::Removed,
            Change::Sold(origin) => ChangeView::Sold(*origin),
        }
    }
}

/// What a change to the item of `key` makes of the conversation of the chat `id`.
spec fn changed(context: ContextView, id: i64, key: KeyView, change: ChangeView) -> ContextView {
    match change {
        ChangeView::Listed(listing) => context.add_item(key, listing),
        ChangeView::Removed => context.remove_item(key),
        ChangeView::Sold(origin) => if id == origin {
            context.remove_item(key)
        } else {
            context.sold_elsewhere(key)
        },
    }
}

/// What a change to the item of `key` makes of the catalog.
spec fn changed_listings(
    listings: Seq<(KeyView, ListingView)>,
    key: KeyView,
    change: ChangeView,
) -> Seq<(KeyView, ListingView)> {
    match change {
        ChangeView::Listed(listing) => inserted(listings, key, listing),
        _ => without(listings, key),
    }
}

/// A change makes of a conversation with the items of the catalog a
/// conversation with the items of the changed catalog.
proof fn lemma_changed_keys(
    context: ContextView,
    listings: Seq<(KeyView, ListingView)>,
    id: i64,
    key: KeyView,
    change: ChangeView,
)
    requires
        keys_of(context.nfts) == keys_of(listings),
    ensures
        keys_of(changed(context, id, key, change).nfts) == keys_of(
            changed_listings(listings, key, change),
        ),
{
    lemma_position(context.nfts, key);
    match change {
        ChangeView::Listed(listing) => {
            lemma_keys_kept(context.nfts, listings, key, fresh_item(listing), listing);
        },
        _ => {
            lemma_keys_kept(context.nfts, listings, key, arbitrary(), arbitrary());
        },
    }
}

impl ContextManager {
    /// The chats that have a conversation, each once.
    pub fn chat_ids(&self) -> (ids: Vec<ChatId>)
        ensures
            ids@.no_duplicates(),
            ids@.to_set() == self@.contexts.dom(),
    {
        broadcast use group_hash_axioms;

        let mut ids: Vec<ChatId> = Vec::new();
        let ghost all: Seq<i64> = self.contexts.keys().remaining().unref();
        for id in it: self.contexts.keys()
            invariant
                it.seq().unref() == all,
                all.len() == it.seq().len(),
                all.to_set() == self.contexts@.dom(),
                all.no_duplicates(),
                ids@ == all.subrange(0, it.index()),
        {
            ids.push(*id);
        }
        assert(ids@ == all);
        assert(self@.contexts.dom() =~= self.contexts@.dom());
        ids
    }

    /// Makes a change to the item of `key` in every conversation.
    fn change_contexts(&mut self, key: &NFTKey, change: &Change)
        requires
            forall|id: i64| #[trigger]
                old(self).contexts@.contains_key(id) ==> old(self).contexts@[id].wf(),
        ensures
            final(self).nft_listings == old(self).nft_listings,
            final(self)@.contexts == Map::new(
                |id: i64| old(self)@.contexts.contains_key(id),
                |id: i64| changed(old(self)@.contexts[id], id, key@, change@),
            ),
            forall|id: i64| #[trigger]
                final(self).contexts@.contains_key(id) ==> final(self).contexts@[id].wf(),
    {
        broadcast use group_hash_axioms;

        let ids = self.chat_ids();
        let ghost before = self.contexts@;
        let mut i: usize = 0;
        while i < ids.len()
            invariant
                i <= ids.len(),
                ids@.no_duplicates(),
                ids@.to_set() == before.dom(),
                before == old(self).contexts@,
                self.nft_listings == old(self).nft_listings,
                self.contexts@.dom() == before.dom(),
                forall|id: i64| #[trigger]
                    self.contexts@.contains_key(id) ==> self.contexts@[id].wf(),
                forall|j: int|
                    0 <= j < i ==> (#[trigger] self.contexts@[ids@[j]])@ == changed(
                        before[ids@[j]]@,
                        ids@[j],
                        key@,
                        change@,
                    ),
                forall|j: int|
                    i <= j < ids.len() ==> #[trigger] self.contexts@[ids@[j]] == before[ids@[j]],
            decreases ids.len() - i,
        {
            let id = ids[i];
            assert(ids@.to_set().contains(ids@[i as int]));
            let ghost during = self.contexts@;
            let mut context = self.contexts.remove(&id).unwrap();
            match change {
                Change::Listed(listing) => {
                    context.add_item(key.clone(), listing.clone());
                },
                Change::Removed => {
                    context.remove_item(key);
                },
                Change::Sold(origin) => {
                    if id == *origin {
                        context.remove_item(key);
                    } else {
                        context.sold_elsewhere(key);
                    }
                },
            }
            self.contexts.insert(id, context);
            proof {
                assert(self.contexts@.dom() =~= before.dom());
                assert forall|j: int| 0 <= j < i + 1 implies (#[trigger] self.contexts@[ids@[j]])@
                    == changed(before[ids@[j]]@, ids@[j], key@, change@) by {
                    if j < i {
                        assert(ids@[j] != ids@[i as int]);
                        assert(self.contexts@[ids@[j]] == during[ids@[j]]);
                    }
                }
                assert forall|j: int| i + 1 <= j < ids.len() implies #[trigger]
                    self.contexts@[ids@[j]] == before[ids@[j]] by {
                    assert(ids@[j] != ids@[i as int]);
                    assert(self.contexts@[ids@[j]] == during[ids@[j]]);
                }
            }
            i += 1;
        }
        proof {
            let wanted = Map::new(
                |id: i64| old(self)@.contexts.contains_key(id),
                |id: i64| changed(old(self)@.contexts[id], id, key@, change@),
            );
            assert forall|id: i64| #[trigger] wanted.contains_key(id) implies self@.contexts[id]
                == wanted[id] by {
                assert(before.dom().contains(id));
                assert(ids@.to_set().contains(id));
                let j = choose|j: int| 0 <= j < ids@.len() && ids@[j] == id;
                let done = changed(before[ids@[j]]@, ids@[j], key@, change@);
                assert(self.contexts@[ids@[j]]@ == done);
            }
            assert(self@.contexts =~= wanted);
        }
    }

    /// Makes a change to the item of `key` in the catalog and in every
    /// conversation.
    fn change_item(&mut self, key: NFTKey, change: Change)
        requires
            old(self).wf(),
        ensures
            final(self)@.nft_listings == changed_listings(old(self)@.nft_listings, key@, change@),
            final(self)@.contexts == Map::new(
                |id: i64| old(self)@.contexts.contains_key(id),
                |id: i64| changed(old(self)@.contexts[id], id, key@, change@),
            ),
            final(self).wf(),
    {
        proof {
            self.lemma_wf();
        }
        self.change_contexts(&key, &change);
        let ghost contexts = self@.contexts;
        match change {
            Change::Listed(listing) => {
                self.nft_listings.insert(key, listing);
            },
            _ => {
                self.nft_listings.remove(&key);
            },
        }
        proof {
            assert forall|id: i64| #[trigger] self.contexts@.contains_key(id) implies keys_of(
                self.contexts@[id]@.nfts,
            ) == keys_of(self.nft_listings@) by {
                assert(self@.contexts == contexts);
                assert(self@.contexts.contains_key(id));
                assert(old(self)@.contexts.contains_key(id));
                assert(old(self).contexts@.contains_key(id));
                assert(self@.contexts[id] == changed(old(self)@.contexts[id], id, key@, change@));
                lemma_changed_keys(
                    old(self)@.contexts[id],
                    old(self)@.nft_listings,
                    id,
                    key@,
                    change@,
                );
            }
            final(self).lemma_wf();
        }
    }

    /// Lists an item, and shows it to every conversation that does not know it
    /// yet. The minimum price is read as an amount of ether; where it cannot be
    /// read, nothing changes.
    pub fn add_nft(&mut self, args: AddNFTArgs) -> (added: Result<(), AuctionError>)
        requires
            old(self).wf(),
        ensures
            final(self).wf(),
            match amount_of(args@.min_price) {
                Some(min_price) => added is Ok && final(self)@ == old(self)@.add_nft(
                    args@.key(),
                    args@.listing(min_price),
                ),
                None => final(self)@ == old(self)@ && added == Err::<(), AuctionError>(
                    AuctionError::InvalidAmount,
                ),
            },
    {
        let AddNFTArgs {
            nft_name,
            nft_address,
            nft_id,
            chain_id,
            nft_description,
            sell_prompt,
            min_price,
        } = args;
        let min_price = match parse_amount(min_price.as_str()) {
            Ok(min_price) => min_price,
            Err(error) => {
                return Err(error);
            },
        };
        let key = NFTKey { id: nft_id, address: nft_address.clone(), chain: chain_id };
        let listing = NFTListing {
            name: nft_name,
            address: nft_address,
            description: nft_description,
            custom_prompt: sell_prompt,
            min_price,
        };
        self.change_item(key, Change::Listed(listing));
        proof {
            let wanted = old(self)@.add_nft(args@.key(), args@.listing(min_price@));
            assert(final(self)@.contexts =~= wanted.contexts);
        }
        Ok(())
    }

    /// Takes an item off the catalog and out of every conversation. An item
    /// that is not listed is no error: nothing changes then.
    pub fn remove_nft(&mut self, nft_key: &NFTKey)
        requires
            old(self).wf(),
        ensures
            final(self)@ == old(self)@.remove_nft(nft_key@),
            final(self).wf(),
    {
        self.change_item(nft_key.clone(), Change::Removed);
        proof {
            assert(final(self)@.contexts =~= old(self)@.remove_nft(nft_key@).contexts);
        }
    }

    /// Settles the sale of an item that was made in the conversation of the chat
    /// `chat_id`: the item leaves the catalog and every conversation, and every
    /// other conversation that had it is left a notice with its name.
    pub fn finalize_and_remove(&mut self, nft_key: &NFTKey, chat_id: ChatId)
        requires
            old(self).wf(),
        ensures
            final(self)@ == old(self)@.finalize_and_remove(nft_key@, chat_id),
            final(self).wf(),
    {
        self.change_item(nft_key.clone(), Change::Sold(chat_id));
        proof {
            assert(final(self)@.contexts =~= old(self)@.finalize_and_remove(
                nft_key@,
                chat_id,
            ).contexts);
        }
    }
}

impl ContextManager {
    /// Whether a conversation has the items of the catalog, in its order.
    fn has_catalog_keys(&self, context: &Context) -> (same: bool)
        ensures
            same == (keys_of(context@.nfts) == keys_of(self.nft_listings@)),
    {
        if context.len() != self.nft_listings.len() {
            assert(keys_of(context@.nfts).len() != keys_of(self.nft_listings@).len());
            return false;
        }
        let mut i: usize = 0;
        while i < context.len()
            invariant
                i <= context@.nfts.len(),
                context@.nfts.len() == self.nft_listings@.len(),
                forall|j: int|
                    0 <= j < i ==> (#[trigger] context@.nfts[j]).0 == self.nft_listings@[j].0,
            decreases context@.nfts.len() - i,
        {
            if *context.key(i) != *self.nft_listings.key(i) {
                assert(keys_of(context@.nfts)[i as int] != keys_of(self.nft_listings@)[i as int]);
                return false;
            }
            i += 1;
        }
        assert(keys_of(context@.nfts) =~= keys_of(self.nft_listings@));
        true
    }

    /// The auctioneer as plain data, as it is saved.
    pub fn snapshot(&self) -> (snapshot: ManagerSnapshot)
        requires
            self.wf(),
        ensures
            snapshot@.valid(),
            snapshot@.manager() == self@,
    {
        broadcast use group_hash_axioms;

        proof {
            self.lemma_wf();
        }
        let mut nft_listings: Vec<(NFTKey, NFTListing)> = Vec::new();
        let mut i: usize = 0;
        while i < self.nft_listings.len()
            invariant
                i <= self.nft_listings@.len(),
                nft_listings@.len() == i,
                forall|j: int|
                    0 <= j < i ==> (#[trigger] nft_listings@[j]).0@ == self.nft_listings@[j].0
                        && nft_listings@[j].1@ == self.nft_listings@[j].1,
            decreases self.nft_listings@.len() - i,
        {
            let key = self.nft_listings.key(i).clone();
            let listing = self.nft_listings.value(i).clone();
            nft_listings.push((key, listing));
            i += 1;
        }
        assert(entries_view(nft_listings@) =~= self.nft_listings@);
        let ids = self.chat_ids();
        let mut contexts: Vec<(i64, ContextSnapshot)> = Vec::new();
        let mut i: usize = 0;
        while i < ids.len()
            invariant
                i <= ids.len(),
                ids@.to_set() == self@.contexts.dom(),
                self.contexts_ok(),
                contexts@.len() == i,
                forall|j: int|
                    0 <= j < i ==> (#[trigger] contexts@[j]).0 == ids@[j] && contexts@[j].1@
                        == self.contexts@[ids@[j]]@,
            decreases ids.len() - i,
        {
            let id = ids[i];
            assert(ids@.to_set().contains(ids@[i as int]));
            assert(self@.contexts.contains_key(id));
            match self.contexts.get(&id) {
                Some(context) => {
                    contexts.push((id, context.snapshot()));
                },
                None => {},
            }
            i += 1;
        }
        let snapshot = ManagerSnapshot { nft_listings, contexts };
        proof {
            let saved = snapshot@.contexts;
            assert(saved.len() == ids@.len());
            assert forall|j: int| 0 <= j < saved.len() implies (#[trigger] saved[j]).0 == ids@[j]
                && saved[j].1 == self.contexts@[ids@[j]]@ by {
                assert(saved[j] == (snapshot.contexts@[j].0, snapshot.contexts@[j].1@));
            }
            assert forall|j: int| 0 <= j < saved.len() implies (#[trigger] saved[j]).1.wf()
                && keys_of(saved[j].1.nfts) == keys_of(snapshot@.nft_listings) by {
                assert(ids@.to_set().contains(ids@[j]));
                assert(self@.contexts.contains_key(ids@[j]));
                assert(self.contexts@.contains_key(ids@[j]));
            }
            assert forall|id: i64| #[trigger]
                contexts_by_chat(saved).contains_key(id) == self@.contexts.contains_key(id) by {
                lemma_contexts_by_chat(saved, id);
                if self@.contexts.contains_key(id) {
                    assert(ids@.to_set().contains(id));
                    let j = choose|j: int| 0 <= j < ids@.len() && ids@[j] == id;
                    assert(saved[j].0 == id);
                }
                if contexts_by_chat(saved).contains_key(id) {
                    let j = choose|j: int| 0 <= j < saved.len() && (#[trigger] saved[j]).0 == id;
                    assert(ids@.to_set().contains(ids@[j]));
                }
            }
            assert forall|id: i64| #[trigger]
                contexts_by_chat(saved).contains_key(id) implies contexts_by_chat(saved)[id]
                == self@.contexts[id] by {
                lemma_contexts_by_chat(saved, id);
                let j = choose|j: int| 0 <= j < saved.len() && (#[trigger] saved[j]).0 == id;
                assert(contexts_by_chat(saved)[id] == saved[j].1);
            }
            assert(contexts_by_chat(saved) =~= self@.contexts);
        }
        snapshot
    }

    /// The auctioneer that was saved, unless what was saved is no well-formed
    /// auctioneer: an item listed twice, a chat with two conversations, or a
    /// conversation that is not well formed or has other items than the catalog.
    pub fn restore(snapshot: ManagerSnapshot) -> (restored: Option<ContextManager>)
        ensures
            match restored {
                Some(manager) => snapshot@.valid() && manager@ == snapshot@.manager()
                    && manager.wf(),
                None => !snapshot@.valid(),
            },
    {
        broadcast use group_hash_axioms;
        broadcast use vstd::std_specs::vec::axiom_spec_into_iter;

        let ghost wanted = snapshot@;
        let ManagerSnapshot { nft_listings, contexts } = snapshot;
        let nft_listings = match NftMap::from_entries(nft_listings) {
            Some(nft_listings) => nft_listings,
            None => {
                return None;
            },
        };
        let mut manager = ContextManager { nft_listings, contexts: HashMap::new() };
        let ghost saved = contexts@;
        for entry in it: contexts.into_iter()
            invariant
                it.seq() == saved,
                wanted == snapshot@,
                wanted.contexts == contexts_view(saved),
                manager.nft_listings@ == wanted.nft_listings,
                manager.nft_listings.wf(),
                manager.contexts_ok(),
                forall|j: int, k: int|
                    0 <= j < k < it.index() ==> (#[trigger] saved[j]).0 != (#[trigger] saved[k]).0,
                forall|j: int|
                    0 <= j < it.index() ==> manager.contexts@.contains_key((#[trigger] saved[j]).0)
                        && manager.contexts@[saved[j].0]@ == saved[j].1@ && saved[j].1@.wf()
                        && keys_of(saved[j].1@.nfts) == keys_of(wanted.nft_listings),
                forall|id: i64| #[trigger]
                    manager.contexts@.contains_key(id) ==> exists|j: int|
                        0 <= j < it.index() && (#[trigger] saved[j]).0 == id,
        {
            let ghost at = it.index();
            let (id, saved_context) = entry;
            assert(wanted.contexts[at] == (saved[at].0, saved[at].1@));
            if manager.contexts.contains_key(&id) {
                let ghost twin = choose|j: int| 0 <= j < at && (#[trigger] saved[j]).0 == id;
                assert(wanted.contexts[twin] == (saved[twin].0, saved[twin].1@));
                assert(wanted.contexts[twin].0 == wanted.contexts[at].0);
                return None;
            }
            let context = match Context::restore(saved_context) {
                Some(context) => context,
                None => {
                    assert(!wanted.contexts[at].1.wf());
                    return None;
                },
            };
            if !manager.has_catalog_keys(&context) {
                assert(keys_of(wanted.contexts[at].1.nfts) != keys_of(wanted.nft_listings));
                return None;
            }
            let ghost before = manager.contexts@;
            manager.contexts.insert(id, context);
            proof {
                assert forall|j: int| 0 <= j < at + 1 implies manager.contexts@.contains_key(
                    (#[trigger] saved[j]).0,
                ) && manager.contexts@[saved[j].0]@ == saved[j].1@ && saved[j].1@.wf() && keys_of(
                    saved[j].1@.nfts,
                ) == keys_of(wanted.nft_listings) by {
                    if j < at {
                        assert(before.contains_key(saved[j].0));
                        assert(saved[j].0 != id);
                    }
                }
                assert forall|id2: i64| #[trigger]
                    manager.contexts@.contains_key(id2) implies exists|j: int|
                    0 <= j < at + 1 && (#[trigger] saved[j]).0 == id2 by {
                    if id2 == id {
                        assert(saved[at].0 == id2);
                    } else {
                        assert(before.contains_key(id2));
                        let j = choose|j: int| 0 <= j < at && (#[trigger] saved[j]).0 == id2;
                        assert(saved[j].0 == id2);
                    }
                }
                assert forall|j: int, k: int| 0 <= j < k < at + 1 implies (#[trigger] saved[j]).0
                    != (#[trigger] saved[k]).0 by {
                    if k == at {
                        assert(before.contains_key(saved[j].0));
                    }
                }
            }
        }
        proof {
            let models = wanted.contexts;
            assert(models.len() == saved.len());
            assert forall|j: int| 0 <= j < models.len() implies (#[trigger] models[j]) == (
                saved[j].0,
                saved[j].1@,
            ) by {}
            assert forall|j: int, k: int| 0 <= j < k < models.len() implies (#[trigger] models[j]).0
                != (#[trigger] models[k]).0 by {
                assert(saved[j].0 != saved[k].0);
            }
            assert forall|j: int| 0 <= j < models.len() implies (#[trigger] models[j]).1.wf()
                && keys_of(models[j].1.nfts) == keys_of(wanted.nft_listings) by {
                assert(manager.contexts@.contains_key(saved[j].0));
            }
            assert forall|id: i64| #[trigger]
                contexts_by_chat(models).contains_key(id) == manager@.contexts.contains_key(id) by {
                lemma_contexts_by_chat(models, id);
                if manager@.contexts.contains_key(id) {
                    let j = choose|j: int| 0 <= j < saved.len() && (#[trigger] saved[j]).0 == id;
                    assert(models[j].0 == id);
                }
                if contexts_by_chat(models).contains_key(id) {
                    let j = choose|j: int| 0 <= j < models.len() && (#[trigger] models[j]).0 == id;
                    assert(manager.contexts@.contains_key(saved[j].0));
                }
            }
            assert forall|id: i64| #[trigger]
                contexts_by_chat(models).contains_key(id) implies contexts_by_chat(models)[id]
                == manager@.contexts[id] by {
                lemma_contexts_by_chat(models, id);
                let j = choose|j: int| 0 <= j < models.len() && (#[trigger] models[j]).0 == id;
                assert(contexts_by_chat(models)[id] == models[j].1);
                assert(manager.contexts@[saved[j].0]@ == saved[j].1@);
            }
            assert(contexts_by_chat(models) =~= manager@.contexts);
            manager.lemma_wf();
        }
        Some(manager)
    }
}

} // verus!
