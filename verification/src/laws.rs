//! What holds of the auction whatever is asked of it, proved of the auction as
//! plain values.

use crate::buffer::{lemma_pushes_keep_the_latest, pushed_all};
use crate::llm_types::MessageView;
use crate::model::{
    claim_is_covered, claimed, fresh_item, lemma_without_covered, ContextView, ManagerView,
};
use crate::nft_map::{
    distinct_keys, has_key, keys_of, lemma_distinct_kept, lemma_keys_kept, lemma_position,
    lemma_position_by_keys, lookup, position, without,
};
use crate::seqs::lemma_first_from;
use crate::structs::{CommandView, DataView, KeyView, ListingView};
use crate::wording::BUFFER_CAPACITY;
use vstd::prelude::*;

verus! {

/// Five messages pushed onto the history of a conversation leave it with the last
/// four of them, in the order in which they came: the first of the five is gone.
pub proof fn law_history_after_five_messages(
    history: Seq<MessageView>,
    first: MessageView,
    second: MessageView,
    third: MessageView,
    fourth: MessageView,
    fifth: MessageView,
)
    requires
        history.len() <= BUFFER_CAPACITY,
    ensures
        pushed_all(history, BUFFER_CAPACITY as nat, seq![first, second, third, fourth, fifth])
            == seq![second, third, fourth, fifth],
{
    let more = seq![first, second, third, fourth, fifth];
    lemma_pushes_keep_the_latest(history, BUFFER_CAPACITY as nat, more);
    assert((history + more).subrange((history + more).len() - 4, (history + more).len() as int)
        =~= seq![second, third, fourth, fifth]);
}

/// A message added to the history of a well-formed conversation leaves it well
/// formed: the history never holds more than four messages, and the new message
/// is its last.
pub proof fn law_history_stays_bounded(context: ContextView, message: MessageView)
    requires
        context.wf(),
    ensures
        context.push_message(message).wf(),
        context.push_message(message).chat_history.len() <= BUFFER_CAPACITY,
        context.push_message(message).chat_history.last() == message,
{
}

/// Applying any command to a well-formed conversation leaves it well formed, with
/// its items in their places: in particular every claimed item still has a
/// recorded bid that reaches its minimum price.
pub proof fn law_apply_keeps_claims_covered(context: ContextView, command: CommandView)
    requires
        context.wf(),
    ensures
        context.apply(command).wf(),
        keys_of(context.apply(command).nfts) == keys_of(context.nfts),
{
    let after = context.apply(command);
    match command {
        CommandView::TentativeOffer(offer) => {
            lemma_position(context.nfts, offer.nft_key);
            match position(context.nfts, offer.nft_key) {
                Some(at) => {
                    assert forall|i: int| 0 <= i < after.nfts.len() implies claim_is_covered(
                        (#[trigger] after.nfts[i]).1,
                    ) by {
                        if i != at {
                            assert(after.nfts[i] == context.nfts[i]);
                        }
                    }
                    assert forall|i: int, j: int| 0 <= i < j < after.nfts.len() implies (
                    #[trigger] after.nfts[i]).0 != (#[trigger] after.nfts[j]).0 by {
                        assert(after.nfts[i].0 == context.nfts[i].0);
                        assert(after.nfts[j].0 == context.nfts[j].0);
                    }
                },
                None => {},
            }
        },
        _ => {},
    }
    assert(keys_of(after.nfts) =~= keys_of(context.nfts));
}

/// A reply changes only what a claim or a link changes. The history, the
/// notices, the items and their listings stay as they are, and the address of the
/// buyer changes only through a link. A reply that makes no claim and no link
/// asks for nothing: it changes nothing and brings up no item.
pub proof fn law_reply_changes_only_claims_and_buyer(context: ContextView, input: Seq<char>)
    ensures
        context.process(input).chat_history == context.chat_history,
        context.process(input).notices == context.notices,
        keys_of(context.process(input).nfts) == keys_of(context.nfts),
        forall|i: int|
            0 <= i < context.nfts.len() ==> (#[trigger] context.process(input).nfts[i]).1.listing
                == context.nfts[i].1.listing,
        !(context.command(input) is LinkAddress) ==> context.process(input).buyer_address
            == context.buyer_address,
        context.handle_offer(input) is None && context.handle_address_linking(input) is None
            ==> context.process(input) == context && context.offered_item(context.command(input))
            is None,
{
    let after = context.process(input);
    match context.command(input) {
        CommandView::TentativeOffer(offer) => {
            lemma_position(context.nfts, offer.nft_key);
        },
        _ => {},
    }
    assert(keys_of(after.nfts) =~= keys_of(context.nfts));
}

/// In a well-formed auctioneer every claimed item of every conversation has a
/// recorded bid that reaches its minimum price.
pub proof fn law_claims_are_covered(manager: ManagerView, id: i64, at: int)
    requires
        manager.wf(),
        manager.contexts.contains_key(id),
        0 <= at < manager.contexts[id].nfts.len(),
    ensures
        ({
            let item = manager.contexts[id].nfts[at].1;
            item.state.tentative_offer ==> item.state.highest_bid >= item.listing.min_price
        }),
{
    assert(claim_is_covered(manager.contexts[id].nfts[at].1));
}

/// A conversation that begins on a catalog without double entries is well
/// formed, has the items of the catalog, and has nothing claimed.
pub proof fn law_fresh_conversation(listings: Seq<(KeyView, ListingView)>)
    requires
        distinct_keys(listings),
    ensures
        ContextView::fresh(listings).wf(),
        keys_of(ContextView::fresh(listings).nfts) == keys_of(listings),
        !ContextView::fresh(listings).tentative_offer_exists(),
{
    let fresh = ContextView::fresh(listings);
    assert(keys_of(fresh.nfts) =~= keys_of(listings));
    assert forall|i: int, j: int| 0 <= i < j < fresh.nfts.len() implies (#[trigger] fresh.nfts[i]).0
        != (#[trigger] fresh.nfts[j]).0 by {
        assert(fresh.nfts[i].0 == listings[i].0);
        assert(fresh.nfts[j].0 == listings[j].0);
    }
    lemma_first_from(fresh.nfts, claimed(), 0);
}

/// Acting on a reply leaves a well-formed auctioneer well formed: after every
/// reply, every claimed item of every conversation has a recorded bid that
/// reaches its minimum price.
pub proof fn law_act_keeps_claims_covered(manager: ManagerView, id: i64, reply: Seq<char>)
    requires
        manager.wf(),
    ensures
        manager.act(id, reply).wf(),
        forall|chat: i64, at: int|
            #![trigger manager.act(id, reply).contexts[chat].nfts[at]]
            manager.act(id, reply).contexts.contains_key(chat) && 0 <= at < manager.act(
                id,
                reply,
            ).contexts[chat].nfts.len() ==> claim_is_covered(
                manager.act(id, reply).contexts[chat].nfts[at].1,
            ),
{
    let context = manager.context(id);
    law_fresh_conversation(manager.nft_listings);
    law_apply_keeps_claims_covered(context, context.command(reply));
    let after = manager.act(id, reply);
    assert forall|chat: i64| #[trigger]
        after.contexts.contains_key(chat) implies after.contexts[chat].wf() && keys_of(
        after.contexts[chat].nfts,
    ) == keys_of(after.nft_listings) by {
        if chat != id {
            assert(manager.contexts.contains_key(chat));
        }
    }
}

/// An offer can be settled after a reply exactly when the conversation then has
/// a claimed item and the address of its buyer.
pub proof fn law_finalized_iff_claimed_and_linked(manager: ManagerView, id: i64, reply: Seq<char>)
    ensures
        manager.act(id, reply).contexts[id].finalized() is Some <==> (manager.act(
            id,
            reply,
        ).contexts[id].tentative_offer_exists() && manager.act(
            id,
            reply,
        ).contexts[id].buyer_address is Some),
{
}

/// An item that is taken off the catalog is gone from the catalog and from every
/// conversation.
pub proof fn law_removed_item_is_gone(manager: ManagerView, key: KeyView, id: i64)
    requires
        manager.wf(),
    ensures
        manager.remove_nft(key).wf(),
        !has_key(manager.remove_nft(key).nft_listings, key),
        manager.remove_nft(key).contexts.contains_key(id) ==> !has_key(
            manager.remove_nft(key).contexts[id].nfts,
            key,
        ),
        manager.remove_nft(key).remove_nft(key) == manager.remove_nft(key),
{
    let after = manager.remove_nft(key);
    lemma_distinct_kept(manager.nft_listings, key, arbitrary());
    assert forall|chat: i64| #[trigger]
        after.contexts.contains_key(chat) implies after.contexts[chat].wf() && keys_of(
        after.contexts[chat].nfts,
    ) == keys_of(after.nft_listings) && !has_key(after.contexts[chat].nfts, key) by {
        assert(manager.contexts.contains_key(chat));
        let before = manager.contexts[chat];
        lemma_distinct_kept(before.nfts, key, arbitrary());
        lemma_keys_kept::<DataView, ListingView>(
            before.nfts,
            manager.nft_listings,
            key,
            arbitrary(),
            arbitrary(),
        );
        lemma_without_covered(before.nfts, key);
    }
    assert(after.remove_nft(key).contexts =~= after.contexts);
}

/// Listing an item leaves a well-formed conversation well formed, and so does
/// taking an item out of it, whether or not a notice is left.
pub proof fn law_item_changes_keep_a_conversation_well_formed(
    context: ContextView,
    key: KeyView,
    listing: ListingView,
)
    requires
        context.wf(),
    ensures
        context.add_item(key, listing).wf(),
        context.remove_item(key).wf(),
        context.sold_elsewhere(key).wf(),
        context.sold_elsewhere(key).nfts == context.remove_item(key).nfts,
{
    lemma_distinct_kept(context.nfts, key, fresh_item(listing));
    lemma_without_covered(context.nfts, key);
    lemma_position(context.nfts, key);
    let added = context.add_item(key, listing);
    assert forall|i: int| 0 <= i < added.nfts.len() implies claim_is_covered(
        (#[trigger] added.nfts[i]).1,
    ) by {
        if i < context.nfts.len() {
            assert(added.nfts[i] == context.nfts[i]);
        }
    }
}

/// Every operation leaves a well-formed auctioneer well formed: whatever is
/// asked of it, no item is listed twice, every conversation has the items of the
/// catalog, no history holds more than four messages, and every claimed item has
/// a recorded bid that reaches its minimum price.
pub proof fn law_operations_keep_the_auctioneer_well_formed(
    manager: ManagerView,
    id: i64,
    text: Seq<char>,
    message: MessageView,
    key: KeyView,
    listing: ListingView,
)
    requires
        manager.wf(),
    ensures
        manager.with_context(id).wf(),
        manager.heard(id, text).wf(),
        manager.answered(id, message).wf(),
        manager.act(id, text).wf(),
        manager.told(id).wf(),
        manager.clear(id).wf(),
        manager.add_nft(key, listing).wf(),
        manager.remove_nft(key).wf(),
        manager.finalize_and_remove(key, id).wf(),
{
    law_fresh_conversation(manager.nft_listings);
    law_act_keeps_claims_covered(manager, id, text);
    law_removed_item_is_gone(manager, key, id);
    lemma_distinct_kept(manager.nft_listings, key, listing);
    let begun = manager.with_context(id);
    assert(begun.wf()) by {
        assert forall|chat: i64| #[trigger]
            begun.contexts.contains_key(chat) implies begun.contexts[chat].wf() && keys_of(
            begun.contexts[chat].nfts,
        ) == keys_of(begun.nft_listings) by {
            if chat != id {
                assert(manager.contexts.contains_key(chat));
            }
        }
    }
    let context = manager.context(id);
    law_history_stays_bounded(context, message);
    law_history_stays_bounded(context, context.heard(text).chat_history.last());
    assert forall|next: ContextView|
        next.wf() && keys_of(next.nfts) == keys_of(context.nfts) implies #[trigger] begun.with(
            id,
            next,
        ).wf() by {
        let after = begun.with(id, next);
        assert forall|chat: i64| #[trigger]
            after.contexts.contains_key(chat) implies after.contexts[chat].wf() && keys_of(
            after.contexts[chat].nfts,
        ) == keys_of(after.nft_listings) by {
            if chat != id {
                assert(begun.contexts.contains_key(chat));
            }
        }
    }
    assert(manager.heard(id, text) == begun.with(id, context.heard(text)));
    assert(manager.answered(id, message) == begun.with(id, context.push_message(message)));
    assert(manager.told(id) == begun.with(id, context.told()));
    let cleared = manager.clear(id);
    assert forall|chat: i64| #[trigger]
        cleared.contexts.contains_key(chat) implies cleared.contexts[chat].wf() && keys_of(
        cleared.contexts[chat].nfts,
    ) == keys_of(cleared.nft_listings) by {
        assert(manager.contexts.contains_key(chat));
    }
    let listed = manager.add_nft(key, listing);
    assert forall|chat: i64| #[trigger]
        listed.contexts.contains_key(chat) implies listed.contexts[chat].wf() && keys_of(
        listed.contexts[chat].nfts,
    ) == keys_of(listed.nft_listings) by {
        assert(manager.contexts.contains_key(chat));
        let before = manager.contexts[chat];
        law_item_changes_keep_a_conversation_well_formed(before, key, listing);
        lemma_keys_kept(before.nfts, manager.nft_listings, key, fresh_item(listing), listing);
    }
    let sold = manager.finalize_and_remove(key, id);
    assert forall|chat: i64| #[trigger]
        sold.contexts.contains_key(chat) implies sold.contexts[chat].wf() && keys_of(
        sold.contexts[chat].nfts,
    ) == keys_of(sold.nft_listings) by {
        assert(manager.contexts.contains_key(chat));
        let before = manager.contexts[chat];
        law_item_changes_keep_a_conversation_well_formed(before, key, listing);
        lemma_keys_kept(before.nfts, manager.nft_listings, key, fresh_item(listing), listing);
    }
}

/// An item that is listed for the first time is in every conversation as it is
/// listed, and not bid on.
pub proof fn law_new_item_is_fresh_everywhere(
    manager: ManagerView,
    key: KeyView,
    listing: ListingView,
    id: i64,
)
    requires
        manager.wf(),
        !has_key(manager.nft_listings, key),
    ensures
        manager.add_nft(key, listing).nft_listings == manager.nft_listings.push((key, listing)),
        lookup(manager.add_nft(key, listing).nft_listings, key) == Some(listing),
        manager.contexts.contains_key(id) ==> manager.add_nft(key, listing).contexts.contains_key(
            id,
        ) && lookup(manager.add_nft(key, listing).contexts[id].nfts, key) == Some(
            fresh_item(listing),
        ),
        lookup(ContextView::fresh(manager.add_nft(key, listing).nft_listings).nfts, key) == Some(
            fresh_item(listing),
        ),
{
    let after = manager.add_nft(key, listing);
    lemma_position(manager.nft_listings, key);
    lemma_position(after.nft_listings, key);
    if manager.contexts.contains_key(id) {
        let before = manager.contexts[id];
        let listed = after.contexts[id];
        lemma_position_by_keys(before.nfts, manager.nft_listings, key);
        lemma_position(before.nfts, key);
        lemma_position(listed.nfts, key);
        assert(listed.nfts == before.nfts.push((key, fresh_item(listing))));
        assert(listed.nfts[before.nfts.len() as int].0 == key);
        assert forall|j: int| 0 <= j < before.nfts.len() implies (#[trigger] listed.nfts[j]).0
            != key by {
            assert(listed.nfts[j] == before.nfts[j]);
        }
    }
    let fresh = ContextView::fresh(after.nft_listings);
    lemma_position(fresh.nfts, key);
    let last = after.nft_listings.len() - 1;
    assert(fresh.nfts[last].0 == key);
    assert forall|j: int| 0 <= j < last implies (#[trigger] fresh.nfts[j]).0 != key by {
        assert(fresh.nfts[j].0 == after.nft_listings[j].0);
    }
}

/// Taking an item off the catalog and listing it again under the same key is a
/// fresh insert: the catalog holds the new listing, as its last entry, and every
/// conversation holds the item as listed now and not bid on, whatever it had
/// recorded before.
pub proof fn law_relisting_is_a_fresh_insert(
    manager: ManagerView,
    key: KeyView,
    listing: ListingView,
    id: i64,
)
    requires
        manager.wf(),
    ensures
        manager.remove_nft(key).add_nft(key, listing).nft_listings == without(
            manager.nft_listings,
            key,
        ).push((key, listing)),
        lookup(manager.remove_nft(key).add_nft(key, listing).nft_listings, key) == Some(listing),
        manager.contexts.contains_key(id) ==> manager.remove_nft(key).add_nft(
            key,
            listing,
        ).contexts.contains_key(id) && lookup(
            manager.remove_nft(key).add_nft(key, listing).contexts[id].nfts,
            key,
        ) == Some(fresh_item(listing)),
        lookup(
            ContextView::fresh(manager.remove_nft(key).add_nft(key, listing).nft_listings).nfts,
            key,
        ) == Some(fresh_item(listing)),
{
    law_removed_item_is_gone(manager, key, id);
    law_new_item_is_fresh_everywhere(manager.remove_nft(key), key, listing, id);
}

} // verus!
