//! The records of the auction: item keys, listings, per-conversation item
//! state, the commands read out of a reply, and the requests of the host.

use crate::wei::Wei;
use vstd::prelude::*;
use vstd::std_specs::cmp::PartialEqSpecImpl;

verus! {

/// What can go wrong in an operation of the auctioneer.
#[derive(Clone, Copy, Debug, PartialEq, Eq, Structural)]
pub enum AuctionError {
    /// A price was not written as an amount of ether.
    InvalidAmount,
    /// The language model gave no reply.
    ModelUnavailable,
}

impl AuctionError {
    /// The error in words.
    pub fn message(&self) -> (text: String)
        ensures
            text@ == match *self {
                AuctionError::InvalidAmount => "the price is not a valid amount of ether"@,
                AuctionError::ModelUnavailable => "the language model is unavailable"@,
            },
    {
        match self {
            AuctionError::InvalidAmount => String::from_str(
                "the price is not a valid amount of ether",
            ),
            AuctionError::ModelUnavailable => String::from_str("the language model is unavailable"),
        }
    }
}

/// The characters of an optional text.
pub open spec fn text_view(text: Option<String>) -> Option<Seq<char>> {
    match text {
        Some(t) => Some(t@),
        None => None,
    }
}

/// The view of an optional value.
pub open spec fn view_of<T: View>(value: Option<T>) -> Option<T::V> {
    match value {
        Some(v) => Some(v@),
        None => None,
    }
}

/// A copy of an optional text.
pub fn clone_text(text: &Option<String>) -> (copy: Option<String>)
    ensures
        text_view(copy) == text_view(*text),
{
    match text {
        Some(t) => Some(t.clone()),
        None => None,
    }
}

/// What the host is configured with.
#[derive(Debug, PartialEq, Eq)]
pub struct InitialConfig {
    pub openai_key: String,
    pub telegram_bot_api_key: String,
    pub wallet_pk: String,
    pub hosted_url: String,
}

/// The characters of a configuration.
pub struct ConfigView {
    pub openai_key: Seq<char>,
    pub telegram_bot_api_key: Seq<char>,
    pub wallet_pk: Seq<char>,
    pub hosted_url: Seq<char>,
}

impl View for InitialConfig {
    type V = ConfigView;

    open spec fn view(&self) -> ConfigView {
        ConfigView {
            openai_key: self.openai_key@,
            telegram_bot_api_key: self.telegram_bot_api_key@,
            wallet_pk: self.wallet_pk@,
            hosted_url: self.hosted_url@,
        }
    }
}

impl Clone for InitialConfig {
    fn clone(&self) -> (copy: Self)
        ensures
            copy@ == self@,
    {
        InitialConfig {
            openai_key: self.openai_key.clone(),
            telegram_bot_api_key: self.telegram_bot_api_key.clone(),
            wallet_pk: self.wallet_pk.clone(),
            hosted_url: self.hosted_url.clone(),
        }
    }
}

impl Default for InitialConfig {
    fn default() -> (config: Self)
        ensures
            config@ == (ConfigView {
                openai_key: Seq::empty(),
                telegram_bot_api_key: Seq::empty(),
                wallet_pk: Seq::empty(),
                hosted_url: Seq::empty(),
            }),
    {
        InitialConfig {
            openai_key: String::new(),
            telegram_bot_api_key: String::new(),
            wallet_pk: String::new(),
            hosted_url: String::new(),
        }
    }
}

/// The identity of an item: the same in the catalog and in every conversation.
#[derive(Debug, Eq, Hash)]
pub struct NFTKey {
    pub id: u64,
    pub chain: u64,
    pub address: String,
}

/// The identity of an item, as plain values.
pub struct KeyView {
    pub id: u64,
    pub chain: u64,
    pub address: Seq<char>,
}

impl View for NFTKey {
    type V = KeyView;

    open spec fn view(&self) -> KeyView {
        KeyView { id: self.id, chain: self.chain, address: self.address@ }
    }
}

impl Clone for NFTKey {
    fn clone(&self) -> (copy: Self)
        ensures
            copy@ == self@,
    {
        NFTKey { id: self.id, chain: self.chain, address: self.address.clone() }
    }
}

impl PartialEq for NFTKey {
    fn eq(&self, other: &Self) -> (same: bool) {
        self.id == other.id && self.chain == other.chain && self.address == other.address
    }
}

impl PartialEqSpecImpl for NFTKey {
    open spec fn obeys_eq_spec() -> bool {
        true
    }

    open spec fn eq_spec(&self, other: &Self) -> bool {
        self@ == other@
    }
}

/// What the catalog says of an item.
#[derive(Debug, PartialEq, Eq)]
pub struct NFTListing {
    pub name: String,
    pub min_price: Wei,
    pub address: String,
    pub description: Option<String>,
    pub custom_prompt: Option<String>,
}

/// A listing, as plain values.
pub struct ListingView {
    pub name: Seq<char>,
    pub min_price: nat,
    pub address: Seq<char>,
    pub description: Option<Seq<char>>,
    pub custom_prompt: Option<Seq<char>>,
}

impl View for NFTListing {
    type V = ListingView;

    open spec fn view(&self) -> ListingView {
        ListingView {
            name: self.name@,
            min_price: self.min_price@,
            address: self.address@,
            description: text_view(self.description),
            custom_prompt: text_view(self.custom_prompt),
        }
    }
}

impl Clone for NFTListing {
    fn clone(&self) -> (copy: Self)
        ensures
            copy@ == self@,
    {
        NFTListing {
            name: self.name.clone(),
            min_price: self.min_price,
            address: self.address.clone(),
            description: clone_text(&self.description),
            custom_prompt: clone_text(&self.custom_prompt),
        }
    }
}

/// What one conversation has recorded of an item.
#[derive(Clone, Copy, Debug, PartialEq, Eq)]
pub struct NFTState {
    pub highest_bid: Wei,
    pub tentative_offer: bool,
}

/// The state of an item in a conversation, as plain values.
pub struct StateView {
    pub highest_bid: nat,
    pub tentative_offer: bool,
}

impl View for NFTState {
    type V = StateView;

    open spec fn view(&self) -> StateView {
        StateView { highest_bid: self.highest_bid@, tentative_offer: self.tentative_offer }
    }
}

/// The state of an item that nobody has bid on.
pub open spec fn unclaimed() -> StateView {
    StateView { highest_bid: 0, tentative_offer: false }
}

impl Default for NFTState {
    fn default() -> (state: Self)
        ensures
            state@ == unclaimed(),
    {
        NFTState { highest_bid: Wei::zero(), tentative_offer: false }
    }
}

/// An item as one conversation sees it: the listing it was shown, and its state.
#[derive(Debug, PartialEq, Eq)]
pub struct NFTData {
    pub listing: NFTListing,
    pub state: NFTState,
}

/// An item in a conversation, as plain values.
pub struct DataView {
    pub listing: ListingView,
    pub state: StateView,
}

impl View for NFTData {
    type V = DataView;

    open spec fn view(&self) -> DataView {
        DataView { listing: self.listing@, state: self.state@ }
    }
}

impl Clone for NFTData {
    fn clone(&self) -> (copy: Self)
        ensures
            copy@ == self@,
    {
        NFTData { listing: self.listing.clone(), state: self.state }
    }
}

/// A bid that reached the minimum price of an item, not yet tied to a buyer.
#[derive(Debug, PartialEq, Eq)]
pub struct TentativeOfferCommand {
    pub nft_key: NFTKey,
    pub price: Wei,
}

/// A tentative offer, as plain values.
pub struct TentativeOfferView {
    pub nft_key: KeyView,
    pub price: nat,
}

impl View for TentativeOfferCommand {
    type V = TentativeOfferView;

    open spec fn view(&self) -> TentativeOfferView {
        TentativeOfferView { nft_key: self.nft_key@, price: self.price@ }
    }
}

impl Clone for TentativeOfferCommand {
    fn clone(&self) -> (copy: Self)
        ensures
            copy@ == self@,
    {
        TentativeOfferCommand { nft_key: self.nft_key.clone(), price: self.price }
    }
}

/// The address a buyer gave, for the item claimed in the conversation.
#[derive(Debug, PartialEq, Eq)]
pub struct LinkAddressCommand {
    pub nft_key: NFTKey,
    pub buyer_address: String,
}

/// A buyer address for an item, as plain values.
pub struct LinkAddressView {
    pub nft_key: KeyView,
    pub buyer_address: Seq<char>,
}

impl View for LinkAddressCommand {
    type V = LinkAddressView;

    open spec fn view(&self) -> LinkAddressView {
        LinkAddressView { nft_key: self.nft_key@, buyer_address: self.buyer_address@ }
    }
}

impl Clone for LinkAddressCommand {
    fn clone(&self) -> (copy: Self)
        ensures
            copy@ == self@,
    {
        LinkAddressCommand {
            nft_key: self.nft_key.clone(),
            buyer_address: self.buyer_address.clone(),
        }
    }
}

/// A claim with its buyer: ready to be settled.
#[derive(Debug, PartialEq, Eq)]
pub struct FinalizedOfferCommand {
    pub nft_key: NFTKey,
    pub buyer_address: String,
    pub price: Wei,
}

/// A finalized offer, as plain values.
pub struct FinalizedOfferView {
    pub nft_key: KeyView,
    pub buyer_address: Seq<char>,
    pub price: nat,
}

impl View for FinalizedOfferCommand {
    type V = FinalizedOfferView;

    open spec fn view(&self) -> FinalizedOfferView {
        FinalizedOfferView {
            nft_key: self.nft_key@,
            buyer_address: self.buyer_address@,
            price: self.price@,
        }
    }
}

impl Clone for FinalizedOfferCommand {
    fn clone(&self) -> (copy: Self)
        ensures
            copy@ == self@,
    {
        FinalizedOfferCommand {
            nft_key: self.nft_key.clone(),
            buyer_address: self.buyer_address.clone(),
            price: self.price,
        }
    }
}

/// What a reply of the model asks the auctioneer to do.
#[derive(Debug, PartialEq, Eq)]
pub enum AuctioneerCommand {
    /// The model announced a sale; nothing is sold before a buyer address is known.
    TentativeOffer(TentativeOfferCommand),
    /// The model repeated the address of the buyer.
    LinkAddress(LinkAddressCommand),
    /// A claim and a buyer address are both there.
    FinalizedOffer(FinalizedOfferCommand),
    /// The reply asks for nothing.
    Empty,
}

/// A command, as plain values.
pub enum CommandView {
    TentativeOffer(TentativeOfferView),
    LinkAddress(LinkAddressView),
    FinalizedOffer(FinalizedOfferView),
    Empty,
}

impl View for AuctioneerCommand {
    type V = CommandView;

    open spec fn view(&self) -> CommandView {
        match self {
            AuctioneerCommand::TentativeOffer(offer) => CommandView::TentativeOffer(offer@),
            AuctioneerCommand::LinkAddress(link) => CommandView::LinkAddress(link@),
            AuctioneerCommand::FinalizedOffer(offer) => CommandView::FinalizedOffer(offer@),
            AuctioneerCommand::Empty => CommandView::Empty,
        }
    }
}

impl Clone for AuctioneerCommand {
    fn clone(&self) -> (copy: Self)
        ensures
            copy@ == self@,
    {
        match self {
            AuctioneerCommand::TentativeOffer(offer) => AuctioneerCommand::TentativeOffer(
                offer.clone(),
            ),
            AuctioneerCommand::LinkAddress(link) => AuctioneerCommand::LinkAddress(link.clone()),
            AuctioneerCommand::FinalizedOffer(offer) => AuctioneerCommand::FinalizedOffer(
                offer.clone(),
            ),
            AuctioneerCommand::Empty => AuctioneerCommand::Empty,
        }
    }
}

impl Default for AuctioneerCommand {
    fn default() -> (command: Self)
        ensures
            command@ == CommandView::Empty,
    {
        AuctioneerCommand::Empty
    }
}

/// What the owner sends to put an item up for sale.
#[derive(Debug, PartialEq, Eq)]
pub struct AddNFTArgs {
    pub nft_name: String,
    pub nft_address: String,
    pub nft_id: u64,
    pub chain_id: u64,
    pub nft_description: Option<String>,
    pub sell_prompt: Option<String>,
    pub min_price: String,
}

/// The request to add an item, as plain values.
pub struct AddNFTView {
    pub nft_name: Seq<char>,
    pub nft_address: Seq<char>,
    pub nft_id: u64,
    pub chain_id: u64,
    pub nft_description: Option<Seq<char>>,
    pub sell_prompt: Option<Seq<char>>,
    pub min_price: Seq<char>,
}

impl View for AddNFTArgs {
    type V = AddNFTView;

    open spec fn view(&self) -> AddNFTView {
        AddNFTView {
            nft_name: self.nft_name@,
            nft_address: self.nft_address@,
            nft_id: self.nft_id,
            chain_id: self.chain_id,
            nft_description: text_view(self.nft_description),
            sell_prompt: text_view(self.sell_prompt),
            min_price: self.min_price@,
        }
    }
}

impl AddNFTView {
    /// The key under which the item is listed.
    pub open spec fn key(self) -> KeyView {
        KeyView { id: self.nft_id, chain: self.chain_id, address: self.nft_address }
    }

    /// The listing of the item, once its minimum price is known in wei.
    pub open spec fn listing(self, min_price: nat) -> ListingView {
        ListingView {
            name: self.nft_name,
            min_price,
            address: self.nft_address,
            description: self.nft_description,
            custom_prompt: self.sell_prompt,
        }
    }
}

impl Clone for AddNFTArgs {
    fn clone(&self) -> (copy: Self)
        ensures
            copy@ == self@,
    {
        AddNFTArgs {
            nft_name: self.nft_name.clone(),
            nft_address: self.nft_address.clone(),
            nft_id: self.nft_id,
            chain_id: self.chain_id,
            nft_description: clone_text(&self.nft_description),
            sell_prompt: clone_text(&self.sell_prompt),
            min_price: self.min_price.clone(),
        }
    }
}

/// What a request of the owner, or a sale seen on a chain, asks of the state.
#[derive(Debug, PartialEq, Eq)]
pub enum HttpRequestOutcome {
    Config(InitialConfig),
    AddNFT(AddNFTArgs),
    RemoveNFT(NFTKey),
    /// Nothing is asked.
    Nothing,
}

/// An outcome, as plain values.
pub enum OutcomeView {
    Config(ConfigView),
    AddNFT(AddNFTView),
    RemoveNFT(KeyView),
    Nothing,
}

impl View for HttpRequestOutcome {
    type V = OutcomeView;

    open spec fn view(&self) -> OutcomeView {
        match self {
            HttpRequestOutcome::Config(config) => OutcomeView::Config(config@),
            HttpRequestOutcome::AddNFT(args) => OutcomeView::AddNFT(args@),
            HttpRequestOutcome::RemoveNFT(key) => OutcomeView::RemoveNFT(key@),
            HttpRequestOutcome::Nothing => OutcomeView::Nothing,
        }
    }
}

impl Clone for HttpRequestOutcome {
    fn clone(&self) -> (copy: Self)
        ensures
            copy@ == self@,
    {
        match self {
            HttpRequestOutcome::Config(config) => HttpRequestOutcome::Config(config.clone()),
            HttpRequestOutcome::AddNFT(args) => HttpRequestOutcome::AddNFT(args.clone()),
            HttpRequestOutcome::RemoveNFT(key) => HttpRequestOutcome::RemoveNFT(key.clone()),
            HttpRequestOutcome::Nothing => HttpRequestOutcome::Nothing,
        }
    }
}

} // verus!
