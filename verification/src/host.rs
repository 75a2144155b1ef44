//! What the host of the auctioneer decides between its calls to the outside:
//! where a message goes, what a request asks of the state, and what is sent
//! back to a buyer.

use crate::llm_types::{ChatParams, ChatParamsView, Message, MessageView};
use crate::manager::{seeded, ChatId, ContextManager};
use crate::model::ManagerView;
use crate::structs::{
    clone_text, text_view, view_of, AuctionError, ConfigView, FinalizedOfferCommand,
    FinalizedOfferView, HttpRequestOutcome, InitialConfig, KeyView, ListingView, NFTKey,
    OutcomeView,
};
use crate::text::{decimal, push_decimal, same_text};
use crate::wei::{amount_of, ether_text, format_ether, format_wei, Wei};
use vstd::prelude::*;

verus! {

/// The process that hands on the requests of the owner.
pub const HTTP_SERVER_PROCESS: &'static str = "http_server:distro:sys";

/// The process that hands on what happens on the chains.
pub const ETH_PROCESS: &'static str = "eth:distro:sys";

/// Where a message comes from.
#[derive(Clone, Copy, Debug, PartialEq, Eq, Structural)]
pub enum Source {
    /// A request of the owner.
    Http,
    /// An event on a chain.
    Eth,
    /// Anything else: the chats of the buyers.
    Internal,
}

/// Where a message of the process `process` comes from.
pub open spec fn source_of(process: Seq<char>) -> Source {
    if process == HTTP_SERVER_PROCESS@ {
        Source::Http
    } else if process == ETH_PROCESS@ {
        Source::Eth
    } else {
        Source::Internal
    }
}

/// Tells the requests of the owner and the events of the chains from the chats.
pub fn classify_source(process: &str) -> (source: Source)
    ensures
        source == source_of(process@),
{
    if same_text(process, HTTP_SERVER_PROCESS) {
        Source::Http
    } else if same_text(process, ETH_PROCESS) {
        Source::Eth
    } else {
        Source::Internal
    }
}

/// What a request of the owner is about.
#[derive(Clone, Copy, Debug, PartialEq, Eq, Structural)]
pub enum Endpoint {
    Status,
    Config,
    AddNft,
    RemoveNft,
    ListNfts,
    Unknown,
}

/// The endpoint of a path.
pub open spec fn endpoint_of(path: Seq<char>) -> Endpoint {
    if path == "/status"@ {
        Endpoint::Status
    } else if path == "/config"@ {
        Endpoint::Config
    } else if path == "/addnft"@ {
        Endpoint::AddNft
    } else if path == "/removenft"@ {
        Endpoint::RemoveNft
    } else if path == "/listnfts"@ {
        Endpoint::ListNfts
    } else {
        Endpoint::Unknown
    }
}

/// Finds the endpoint that a request of the owner is for.
pub fn route(path: &str) -> (endpoint: Endpoint)
    ensures
        endpoint == endpoint_of(path@),
{
    if same_text(path, "/status") {
        Endpoint::Status
    } else if same_text(path, "/config") {
        Endpoint::Config
    } else if same_text(path, "/addnft") {
        Endpoint::AddNft
    } else if same_text(path, "/removenft") {
        Endpoint::RemoveNft
    } else if same_text(path, "/listnfts") {
        Endpoint::ListNfts
    } else {
        Endpoint::Unknown
    }
}

/// What the owner is shown first: the items, once the auctioneer is configured,
/// and else the configuration.
pub fn status_label(configured: bool) -> (label: &'static str)
    ensures
        label@ == if configured {
            "manage-nfts"@
        } else {
            "config"@
        },
{
    if configured {
        "manage-nfts"
    } else {
        "config"
    }
}

/// The chain that a subscription listens to, or zero for an unknown one.
pub open spec fn chain_of(subscription: u64) -> u64 {
    if subscription == 1 {
        11155111
    } else if subscription == 2 {
        10
    } else if subscription == 3 {
        8453
    } else if subscription == 4 {
        42161
    } else {
        0
    }
}

/// The chain that a subscription listens to.
pub fn chain_of_subscription(subscription: u64) -> (chain: u64)
    ensures
        chain == chain_of(subscription),
{
    if subscription == 1 {
        11155111
    } else if subscription == 2 {
        10
    } else if subscription == 3 {
        8453
    } else if subscription == 4 {
        42161
    } else {
        0
    }
}

/// What the sale of an item, seen on the chain of a subscription, asks of the
/// state: to take the item off the catalog.
pub fn sale_outcome(subscription: u64, nft_address: String, nft_id: u64) -> (outcome:
    HttpRequestOutcome)
    ensures
        outcome@ == OutcomeView::RemoveNFT(
            KeyView { id: nft_id, chain: chain_of(subscription), address: nft_address@ },
        ),
{
    HttpRequestOutcome::RemoveNFT(
        NFTKey { address: nft_address, id: nft_id, chain: chain_of_subscription(subscription) },
    )
}

/// What the host keeps between two messages.
#[derive(Debug, PartialEq, Eq)]
pub struct State {
    pub config: InitialConfig,
    pub context_manager: ContextManager,
}

/// The state, as plain values.
pub struct StateModel {
    pub config: ConfigView,
    pub context_manager: ManagerView,
}

impl View for State {
    type V = StateModel;

    open spec fn view(&self) -> StateModel {
        StateModel { config: self.config@, context_manager: self.context_manager@ }
    }
}

/// The state once an outcome is applied to it, and whether it is to be saved.
/// A configuration makes a state where there is none; an item is listed or taken
/// off only where there is a state, and listed only where its price can be read.
pub open spec fn modified(state: Option<StateModel>, outcome: OutcomeView) -> (
    Option<StateModel>,
    bool,
) {
    match outcome {
        OutcomeView::Config(config) => match state {
            Some(kept) => (Some(kept), true),
            None => (
                Some(
                    StateModel {
                        config,
                        context_manager: ManagerView {
                            nft_listings: Seq::empty(),
                            contexts: Map::empty(),
                        },
                    },
                ),
                true,
            ),
        },
        OutcomeView::AddNFT(args) => match state {
            Some(kept) => (
                Some(
                    StateModel {
                        config: kept.config,
                        context_manager: match amount_of(args.min_price) {
                            Some(min_price) => kept.context_manager.add_nft(
                                args.key(),
                                args.listing(min_price),
                            ),
                            None => kept.context_manager,
                        },
                    },
                ),
                true,
            ),
            None => (None, false),
        },
        OutcomeView::RemoveNFT(key) => match state {
            Some(kept) => (
                Some(
                    StateModel {
                        config: kept.config,
                        context_manager: kept.context_manager.remove_nft(key),
                    },
                ),
                true,
            ),
            None => (None, false),
        },
        OutcomeView::Nothing => (state, false),
    }
}

impl State {
    /// The state is well formed where its auctioneer is.
    pub open spec fn wf(&self) -> bool {
        self.context_manager.wf()
    }

    /// The state of an auctioneer that was just configured: nothing listed, no
    /// conversation.
    pub fn new(config: InitialConfig) -> (state: State)
        ensures
            state@ == (StateModel {
                config: config@,
                context_manager: ManagerView { nft_listings: Seq::empty(), contexts: Map::empty() },
            }),
            state.wf(),
    {
        let context_manager = ContextManager::new(&[]);
        proof {
            let seeds: Seq<(i64, &str, Wei)> = Seq::empty();
            assert(seeded(seeds) =~= Seq::empty());
        }
        State { config, context_manager }
    }
}

/// Whether an optional state is well formed.
pub open spec fn state_wf(state: Option<State>) -> bool {
    match state {
        Some(kept) => kept.wf(),
        None => true,
    }
}

/// Applies an outcome to the state that was fetched, if any. Hands back the
/// state as it is now, and whether it is to be saved.
pub fn modify_state(state: Option<State>, outcome: HttpRequestOutcome) -> (after: (
    Option<State>,
    bool,
))
    requires
        state_wf(state),
    ensures
        (view_of(after.0), after.1) == modified(view_of(state), outcome@),
        state_wf(after.0),
{
    match outcome {
        HttpRequestOutcome::Config(config) => match state {
            Some(kept) => (Some(kept), true),
            None => (Some(State::new(config)), true),
        },
        HttpRequestOutcome::AddNFT(args) => match state {
            Some(kept) => {
                let mut kept = kept;
                let _ = kept.context_manager.add_nft(args);
                (Some(kept), true)
            },
            None => (None, false),
        },
        HttpRequestOutcome::RemoveNFT(key) => match state {
            Some(kept) => {
                let mut kept = kept;
                kept.context_manager.remove_nft(&key);
                (Some(kept), true)
            },
            None => (None, false),
        },
        HttpRequestOutcome::Nothing => (state, false),
    }
}

/// Whether the session of the host is to be made anew after an outcome: after a
/// configuration, and only then.
pub fn restarts_session(outcome: &HttpRequestOutcome) -> (restart: bool)
    ensures
        restart == (outcome@ is Config),
{
    match outcome {
        HttpRequestOutcome::Config(_) => true,
        _ => false,
    }
}

/// What a buyer writes to begin anew.
pub const RESET_COMMAND: &'static str = "/reset";

/// What a buyer is told once the conversation has begun anew.
pub const RESET_DONE: &'static str = "Reset succesful!";

/// What stands before the link at which a buyer settles an offer.
pub const BUY_LEAD: &'static str = "buy it at the link: ";

/// How long an offer can be settled, in seconds.
pub const OFFER_VALIDITY: u64 = 3600;

/// What the host does with a message of a buyer.
#[derive(Debug, PartialEq, Eq)]
pub enum Turn {
    /// The conversation was forgotten; the text is sent to the buyer.
    Reset(String),
    /// The request is sent to the model, and the outcome handed to `finish_turn`.
    Ask(ChatParams),
}

/// A turn, as plain values.
pub enum TurnView {
    Reset(Seq<char>),
    Ask(ChatParamsView),
}

impl View for Turn {
    type V = TurnView;

    open spec fn view(&self) -> TurnView {
        match self {
            Turn::Reset(text) => TurnView::Reset(text@),
            Turn::Ask(params) => TurnView::Ask(params@),
        }
    }
}

/// Takes in a message of the buyer of the chat `chat_id`. The reset command
/// forgets the conversation; any other text goes into the conversation, and the
/// request for the model comes back.
pub fn begin_turn(manager: &mut ContextManager, chat_id: ChatId, text: &str) -> (turn: Turn)
    requires
        old(manager).wf(),
    ensures
        final(manager).wf(),
        text@ == RESET_COMMAND@ ==> final(manager)@ == old(manager)@.clear(chat_id) && turn@
            == TurnView::Reset(RESET_DONE@),
        text@ != RESET_COMMAND@ ==> final(manager)@ == old(manager)@.heard(chat_id, text@)
            && turn@ == TurnView::Ask(final(manager)@.contexts[chat_id].chat_params()),
{
    if same_text(text, RESET_COMMAND) {
        manager.clear(chat_id);
        Turn::Reset(String::from_str(RESET_DONE))
    } else {
        Turn::Ask(manager.chat(chat_id, text))
    }
}

/// What is sent to a buyer at the end of a turn.
#[derive(Debug, PartialEq, Eq)]
pub struct Reply {
    /// The reply of the model, with what the auctioneer adds to it.
    pub text: String,
    /// The offer that the turn has settled, if it settled one: the host signs it
    /// and sends the link in place of the text.
    pub offer: Option<FinalizedOfferCommand>,
}

/// A reply, as plain values.
pub struct ReplyView {
    pub text: Seq<char>,
    pub offer: Option<FinalizedOfferView>,
}

impl View for Reply {
    type V = ReplyView;

    open spec fn view(&self) -> ReplyView {
        ReplyView { text: self.text@, offer: view_of(self.offer) }
    }
}

/// The text of a reply with what the auctioneer adds to it.
pub open spec fn with_addition(text: Seq<char>, addition: Option<Seq<char>>) -> Seq<char> {
    match addition {
        Some(more) => text + more,
        None => text,
    }
}

/// The auctioneer at the end of a turn in which the model replied `reply` to the
/// chat `id`. The reply goes into the history and is acted on. Where an offer
/// can be settled, its item leaves the catalog and every conversation, and the
/// others are left a notice; else the additional text is said.
pub open spec fn after_turn(manager: ManagerView, id: i64, reply: MessageView) -> ManagerView {
    let acted = manager.answered(id, reply).act(id, reply.content);
    match acted.contexts[id].finalized() {
        Some(offer) => acted.finalize_and_remove(offer.nft_key, id),
        None => acted.told(id),
    }
}

/// What is sent at the end of a turn in which the model replied `reply` to the
/// chat `id`.
pub open spec fn reply_of_turn(manager: ManagerView, id: i64, reply: MessageView) -> ReplyView {
    let acted = manager.answered(id, reply).act(id, reply.content);
    match acted.contexts[id].finalized() {
        Some(offer) => ReplyView { text: reply.content, offer: Some(offer) },
        None => ReplyView {
            text: with_addition(reply.content, acted.contexts[id].additional_text()),
            offer: None,
        },
    }
}

/// Ends the turn of the chat `chat_id` with the outcome of the request to the
/// model. Without a reply the turn fails and nothing changes.
pub fn finish_turn(
    manager: &mut ContextManager,
    chat_id: ChatId,
    answer: Option<Message>,
) -> (reply: Result<Reply, AuctionError>)
    requires
        old(manager).wf(),
    ensures
        final(manager).wf(),
        match answer {
            Some(message) => final(manager)@ == after_turn(old(manager)@, chat_id, message@) && (
            reply matches Ok(sent) && sent@ == reply_of_turn(old(manager)@, chat_id, message@)),
            None => final(manager)@ == old(manager)@ && reply == Err::<Reply, AuctionError>(
                AuctionError::ModelUnavailable,
            ),
        },
{
    let mut text = match manager.chat_reply(chat_id, answer) {
        Ok(text) => text,
        Err(error) => {
            return Err(error);
        },
    };
    let offer = manager.act(chat_id, text.as_str());
    match offer {
        Some(settled) => {
            manager.finalize_and_remove(&settled.nft_key, chat_id);
            Ok(Reply { text, offer: Some(settled) })
        },
        None => {
            match manager.additional_text(chat_id) {
                Some(more) => {
                    text.append(more.as_str());
                },
                None => {},
            }
            Ok(Reply { text, offer: None })
        },
    }
}

/// The time until which an offer made at `now` can be settled.
pub fn valid_until(now: u64) -> (deadline: u64)
    requires
        now + OFFER_VALIDITY <= u64::MAX,
    ensures
        deadline == now + OFFER_VALIDITY,
{
    now + OFFER_VALIDITY
}

/// The character that writes four bits in hexadecimal, in lower case.
pub open spec fn hex_char(nibble: u8) -> char {
    if nibble < 10 {
        ('0' as u8 + nibble) as char
    } else {
        ('a' as u8 + (nibble - 10) as u8) as char
    }
}

/// Bytes written in hexadecimal: two characters for each byte, the four high bits
/// first, in lower case.
pub open spec fn hex_text(bytes: Seq<u8>) -> Seq<char> {
    Seq::new(
        2 * bytes.len(),
        |i: int|
            if i % 2 == 0 {
                hex_char(bytes[i / 2] / 16)
            } else {
                hex_char(bytes[i / 2] % 16)
            },
    )
}

/// Calls `hex::encode`. Not proved: that it writes each byte with two
/// hexadecimal digits in lower case, the high one first, as its documentation
/// says.
#[verifier::external_body]
fn hex_encode(bytes: &[u8]) -> (text: String)
    ensures
        text@ == hex_text(bytes@),
{
    hex::encode(bytes)
}

/// The message that sends a buyer to the page on which the offer is settled.
pub open spec fn buy_text(
    hosted_url: Seq<char>,
    offer: FinalizedOfferView,
    deadline: u64,
    uid: u64,
    signature: Seq<u8>,
) -> Seq<char> {
    BUY_LEAD@ + hosted_url + "/buy?nft="@ + offer.nft_key.address + "&id="@ + decimal(
        offer.nft_key.id as nat,
    ) + "&price="@ + decimal(offer.price) + "&valid="@ + decimal(deadline as nat)
        + "&uid="@ + decimal(uid as nat) + "&sig=0x"@ + hex_text(signature) + "&chain="@ + decimal(
        offer.nft_key.chain as nat,
    )
}

/// Writes the message that sends a buyer to the page on which the offer is
/// settled: the item, the price in wei, the deadline, and the signed offer.
pub fn buy_message(
    hosted_url: &str,
    offer: &FinalizedOfferCommand,
    deadline: u64,
    uid: u64,
    signature: &[u8],
) -> (message: String)
    ensures
        message@ == buy_text(hosted_url@, offer@, deadline, uid, signature@),
{
    let mut message = String::from_str(BUY_LEAD);
    message.append(hosted_url);
    message.append("/buy?nft=");
    message.append(offer.nft_key.address.as_str());
    message.append("&id=");
    push_decimal(&mut message, offer.nft_key.id);
    message.append("&price=");
    let price = format_wei(&offer.price);
    message.append(price.as_str());
    message.append("&valid=");
    push_decimal(&mut message, deadline);
    message.append("&uid=");
    push_decimal(&mut message, uid);
    message.append("&sig=0x");
    let signed = hex_encode(signature);
    message.append(signed.as_str());
    message.append("&chain=");
    push_decimal(&mut message, offer.nft_key.chain);
    message
}

/// One item of the catalog as the owner is shown it: the price is written as an
/// amount of ether.
#[derive(Debug, PartialEq, Eq)]
pub struct NFTSummary {
    pub id: u64,
    pub chain: u64,
    pub name: String,
    pub min_price: String,
    pub address: String,
    pub description: Option<String>,
    pub custom_prompt: Option<String>,
}

/// A summary, as plain values.
pub struct SummaryView {
    pub id: u64,
    pub chain: u64,
    pub name: Seq<char>,
    pub min_price: Seq<char>,
    pub address: Seq<char>,
    pub description: Option<Seq<char>>,
    pub custom_prompt: Option<Seq<char>>,
}

impl View for NFTSummary {
    type V = SummaryView;

    open spec fn view(&self) -> SummaryView {
        SummaryView {
            id: self.id,
            chain: self.chain,
            name: self.name@,
            min_price: self.min_price@,
            address: self.address@,
            description: text_view(self.description),
            custom_prompt: text_view(self.custom_prompt),
        }
    }
}

/// The summary of a listed item.
pub open spec fn summary_of(key: KeyView, listing: ListingView) -> SummaryView {
    SummaryView {
        id: key.id,
        chain: key.chain,
        name: listing.name,
        min_price: ether_text(listing.min_price),
        address: listing.address,
        description: listing.description,
        custom_prompt: listing.custom_prompt,
    }
}

/// The summaries of a sequence, each as plain values.
pub open spec fn summaries_view(summaries: Seq<NFTSummary>) -> Seq<SummaryView> {
    summaries.map_values(|summary: NFTSummary| summary@)
}

/// The catalog as the owner is shown it: every listed item, in the order of the
/// catalog.
pub fn list_nfts(manager: &ContextManager) -> (summaries: Vec<NFTSummary>)
    ensures
        summaries_view(summaries@) == manager@.nft_listings.map_values(
            |entry: (KeyView, ListingView)| summary_of(entry.0, entry.1),
        ),
{
    let mut summaries: Vec<NFTSummary> = Vec::new();
    let mut i: usize = 0;
    while i < manager.listings_len()
        invariant
            i <= manager@.nft_listings.len(),
            summaries@.len() == i,
            forall|j: int|
                0 <= j < i ==> (#[trigger] summaries@[j])@ == summary_of(
                    manager@.nft_listings[j].0,
                    manager@.nft_listings[j].1,
                ),
        decreases manager@.nft_listings.len() - i,
    {
        let key = manager.listing_key(i);
        let listing = manager.listing(i);
        summaries.push(
            NFTSummary {
                id: key.id,
                chain: key.chain,
                name: listing.name.clone(),
                min_price: format_ether(&listing.min_price),
                address: listing.address.clone(),
                description: clone_text(&listing.description),
                custom_prompt: clone_text(&listing.custom_prompt),
            },
        );
        i += 1;
    }
    assert(summaries_view(summaries@) =~= manager@.nft_listings.map_values(
        |entry: (KeyView, ListingView)| summary_of(entry.0, entry.1),
    ));
    summaries
}

/// The topic under which the sales of a seller are filed: the twenty bytes of
/// the address of the seller, after twelve bytes of zero.
pub fn seller_topic(address: &[u8; 20]) -> (topic: [u8; 32])
    ensures
        forall|i: int| 0 <= i < 12 ==> topic[i] == 0,
        forall|i: int| 0 <= i < 20 ==> topic[12 + i] == address[i],
{
    let mut topic: [u8; 32] = [0u8; 32];
    let mut i: usize = 0;
    while i < 20
        invariant
            i <= 20,
            forall|j: int| 0 <= j < 12 ==> topic[j] == 0,
            forall|j: int| 0 <= j < i ==> topic[12 + j] == address[j],
        decreases 20 - i,
    {
        topic[12 + i] = address[i];
        i += 1;
    }
    topic
}

} // verus!
