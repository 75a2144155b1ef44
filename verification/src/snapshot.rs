//! The auctioneer as plain data, as it is saved and restored: every item, every
//! conversation with its bids, its buyer, its history and its notices.

use crate::llm_types::{messages_view, Message};
use crate::model::{ContextView, ManagerView};
use crate::nft_map::{distinct_keys, entries_view, keys_of};
use crate::seqs::{first_index, lemma_first_from};
use crate::structs::{text_view, KeyView, ListingView, NFTData, NFTKey, NFTListing};
use crate::text::texts_view;
use vstd::prelude::*;

verus! {

/// One conversation, as it is saved.
#[derive(Debug, PartialEq, Eq)]
pub struct ContextSnapshot {
    pub nfts: Vec<(NFTKey, NFTData)>,
    pub buyer_address: Option<String>,
    pub chat_history: Vec<Message>,
    pub notices: Vec<String>,
}

impl View for ContextSnapshot {
    type V = ContextView;

    open spec fn view(&self) -> ContextView {
        ContextView {
            nfts: entries_view(self.nfts@),
            buyer_address: text_view(self.buyer_address),
            chat_history: messages_view(self.chat_history@),
            notices: texts_view(self.notices@),
        }
    }
}

/// The saved conversations, each with the identifier of its chat and as plain
/// values.
pub open spec fn contexts_view(contexts: Seq<(i64, ContextSnapshot)>) -> Seq<(i64, ContextView)> {
    contexts.map_values(|entry: (i64, ContextSnapshot)| (entry.0, entry.1@))
}

/// The auctioneer, as it is saved.
#[derive(Debug, PartialEq, Eq)]
pub struct ManagerSnapshot {
    pub nft_listings: Vec<(NFTKey, NFTListing)>,
    pub contexts: Vec<(i64, ContextSnapshot)>,
}

/// A saved auctioneer, as plain values.
pub struct SnapshotView {
    pub nft_listings: Seq<(KeyView, ListingView)>,
    pub contexts: Seq<(i64, ContextView)>,
}

impl View for ManagerSnapshot {
    type V = SnapshotView;

    open spec fn view(&self) -> SnapshotView {
        SnapshotView {
            nft_listings: entries_view(self.nft_listings@),
            contexts: contexts_view(self.contexts@),
        }
    }
}

/// The test that tells the conversation of a chat from the others.
pub open spec fn of_chat(id: i64) -> spec_fn((i64, ContextView)) -> bool {
    |entry: (i64, ContextView)| entry.0 == id
}

/// No chat has two conversations.
pub open spec fn distinct_chats(contexts: Seq<(i64, ContextView)>) -> bool {
    forall|i: int, j: int|
        0 <= i < j < contexts.len() ==> (#[trigger] contexts[i]).0 != (#[trigger] contexts[j]).0
}

/// The conversations by the identifier of their chat: where a chat has several,
/// the first of them.
pub open spec fn contexts_by_chat(contexts: Seq<(i64, ContextView)>) -> Map<i64, ContextView> {
    Map::new(
        |id: i64| first_index(contexts, of_chat(id)) is Some,
        |id: i64| contexts[first_index(contexts, of_chat(id))->Some_0].1,
    )
}

impl SnapshotView {
    /// What is saved can be restored: no item is listed twice, no chat has two
    /// conversations, and every conversation is well formed and has the items of
    /// the catalog, in its order.
    pub open spec fn valid(self) -> bool {
        &&& distinct_keys(self.nft_listings)
        &&& distinct_chats(self.contexts)
        &&& forall|i: int|
            0 <= i < self.contexts.len() ==> (#[trigger] self.contexts[i]).1.wf() && keys_of(
                self.contexts[i].1.nfts,
            ) == keys_of(self.nft_listings)
    }

    /// The auctioneer that is saved.
    pub open spec fn manager(self) -> ManagerView {
        ManagerView {
            nft_listings: self.nft_listings,
            contexts: contexts_by_chat(self.contexts),
        }
    }
}

/// What the conversations by chat hold: the conversation at a position is that
/// of its chat, where no chat has two; and a chat without a position has none.
pub proof fn lemma_contexts_by_chat(contexts: Seq<(i64, ContextView)>, id: i64)
    ensures
        contexts_by_chat(contexts).contains_key(id) <==> exists|i: int|
            0 <= i < contexts.len() && (#[trigger] contexts[i]).0 == id,
        distinct_chats(contexts) ==> forall|i: int|
            0 <= i < contexts.len() && (#[trigger] contexts[i]).0 == id ==> contexts_by_chat(
                contexts,
            )[id] == contexts[i].1,
{
    lemma_first_from(contexts, of_chat(id), 0);
}

/// What can be restored is a well-formed auctioneer.
pub proof fn law_valid_snapshot_is_well_formed(snapshot: SnapshotView)
    requires
        snapshot.valid(),
    ensures
        snapshot.manager().wf(),
{
    let manager = snapshot.manager();
    assert forall|id: i64| #[trigger]
        manager.contexts.contains_key(id) implies manager.contexts[id].wf() && keys_of(
        manager.contexts[id].nfts,
    ) == keys_of(manager.nft_listings) by {
        lemma_first_from(snapshot.contexts, of_chat(id), 0);
    }
}

} // verus!
