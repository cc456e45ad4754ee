//! The messages the marketplace takes and the answers to its queries.
use crate::state::{Ask, Bid, Coin};
use vstd::prelude::*;

verus! {

pub type TokenId = String;

#[derive(Debug, Clone, PartialEq, Eq)]
pub struct InstantiateMsg {
    pub admin: String,
}

#[derive(Debug, Clone, PartialEq, Eq)]
pub enum ExecuteMsg {
    /// List an NFT on the marketplace by creating a new ask
    SetAsk {
        collection: String,
        token_id: TokenId,
        price: Coin,
        funds_recipient: Option<String>,
        expires: u64,
    },
    /// Remove an existing ask from the marketplace
    RemoveAsk { collection: String, token_id: TokenId },
    /// Admin operation to change the active state of an ask when an NFT is transferred
    UpdateAskState { collection: String, token_id: TokenId, active: bool },
    /// Update the price of an existing ask
    UpdateAsk { collection: String, token_id: TokenId, price: Coin },
    /// Place a bid on an existing ask
    SetBid { collection: String, token_id: TokenId, expires: u64 },
    /// Remove an existing bid from an ask
    RemoveBid { collection: String, token_id: TokenId },
    /// Accept a bid on an existing ask
    AcceptBid { collection: String, token_id: TokenId, bidder: String },
}

#[derive(Debug, Clone, PartialEq, Eq)]
pub enum QueryMsg {
    /// Get the current ask for specific NFT
    CurrentAsk { collection: String, token_id: TokenId },
    /// Get all asks for a collection
    Asks { collection: String, start_after: Option<TokenId>, limit: Option<u32> },
    /// Count of all asks
    AskCount { collection: String },
    /// Get all asks by seller
    AsksBySeller { seller: String },
    /// List of collections that have asks on them
    ListedCollections { start_after: Option<String>, limit: Option<u32> },
    /// Get data for a specific bid
    Bid { collection: String, token_id: TokenId, bidder: String },
    /// Get all bids by a bidder
    BidsByBidder { bidder: String },
    /// Get all bids for a specific NFT
    Bids {
        collection: String,
        token_id: TokenId,
        start_after: Option<String>,
        limit: Option<u32>,
    },
}

/// Governance messages.
#[derive(Debug, Clone, PartialEq, Eq)]
pub enum SudoMsg {
    UpdateParams {
        trading_fee_percent: Option<u32>,
        ask_expiry: Option<(u64, u64)>,
        bid_expiry: Option<(u64, u64)>,
        operators: Option<Vec<String>>,
    },
    AddSaleFinalizedHook { hook: String },
    AddListedHook { hook: String },
    RemoveSaleFinalizedHook { hook: String },
    RemoveListedHook { hook: String },
}

#[derive(Debug, Clone, PartialEq, Eq)]
pub struct CurrentAskResponse {
    pub ask: Option<Ask>,
}

#[derive(Debug, Clone, PartialEq, Eq)]
pub struct AsksResponse {
    pub asks: Vec<Ask>,
}

#[derive(Debug, Clone, PartialEq, Eq)]
pub struct AskCountResponse {
    pub count: u32,
}

#[derive(Debug, Clone, PartialEq, Eq)]
pub struct CollectionsResponse {
    pub collections: Vec<String>,
}

#[derive(Debug, Clone, PartialEq, Eq)]
pub struct BidResponse {
    pub bid: Option<Bid>,
}

#[derive(Debug, Clone, PartialEq, Eq)]
pub struct BidsResponse {
    pub bids: Vec<Bid>,
}

} // verus!
