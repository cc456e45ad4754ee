//! The records the marketplace keeps, and the actions it asks its
//! environment to perform.
use vstd::prelude::*;

verus! {

/// An amount of one currency denomination.
#[derive(Debug, Clone, PartialEq, Eq)]
pub struct Coin {
    pub denom: String,
    pub amount: u128,
}

impl Coin {
    pub fn new(denom: &str, amount: u128) -> (r: Coin)
        ensures
            r.denom@ == denom@,
            r.amount == amount,
    {
        Coin { denom: denom.to_string(), amount }
    }

    /// A copy of the coin.
    pub fn copied(&self) -> (r: Coin)
        ensures
            r == *self,
    {
        Coin { denom: self.denom.clone(), amount: self.amount }
    }
}

/// A seller's listing of one token.
#[derive(Debug, Clone, PartialEq, Eq)]
pub struct Ask {
    pub collection: String,
    pub token_id: String,
    pub seller: String,
    pub price: Coin,
    pub funds_recipient: Option<String>,
    pub expires: u64,
    pub active: bool,
}

/// A bidder's escrowed offer on one token.
#[derive(Debug, Clone, PartialEq, Eq)]
pub struct Bid {
    pub collection: String,
    pub token_id: String,
    pub bidder: String,
    pub price: Coin,
    pub expires: u64,
}

pub type AskKey = (Seq<char>, Seq<char>);

pub type BidKey = (Seq<char>, Seq<char>, Seq<char>);

pub open spec fn ask_key(a: Ask) -> AskKey {
    (a.collection@, a.token_id@)
}

pub open spec fn bid_key(b: Bid) -> BidKey {
    (b.collection@, b.token_id@, b.bidder@)
}

pub open spec fn ask_key_fn() -> spec_fn(Ask) -> AskKey {
    |a: Ask| ask_key(a)
}

pub open spec fn bid_key_fn() -> spec_fn(Bid) -> BidKey {
    |b: Bid| bid_key(b)
}

pub(crate) fn copy_opt(o: &Option<String>) -> (r: Option<String>)
    ensures
        r == *o,
{
    match o {
        Some(s) => Some(s.clone()),
        None => None,
    }
}

impl Ask {
    pub fn copied(&self) -> (r: Ask)
        ensures
            r == *self,
    {
        Ask {
            collection: self.collection.clone(),
            token_id: self.token_id.clone(),
            seller: self.seller.clone(),
            price: self.price.copied(),
            funds_recipient: copy_opt(&self.funds_recipient),
            expires: self.expires,
            active: self.active,
        }
    }

    /// The ask with its active flag set to `active`.
    pub open spec fn with_active(self, active: bool) -> Ask {
        Ask { active, ..self }
    }

    /// The ask with its price set to `price`.
    pub open spec fn with_price(self, price: Coin) -> Ask {
        Ask { price, ..self }
    }

    /// Who is paid the seller's share of a sale.
    pub open spec fn payee(self) -> String {
        match self.funds_recipient {
            Some(r) => r,
            None => self.seller,
        }
    }
}

impl Bid {
    pub fn copied(&self) -> (r: Bid)
        ensures
            r == *self,
    {
        Bid {
            collection: self.collection.clone(),
            token_id: self.token_id.clone(),
            bidder: self.bidder.clone(),
            price: self.price.copied(),
            expires: self.expires,
        }
    }
}

/// Parameters set by governance.
#[derive(Debug, PartialEq, Eq)]
pub struct SudoParams {
    /// Share of each sale taken as the trading fee, in percent.
    pub trading_fee_percent: u32,
    /// Allowed (min, max) distance from now to an ask's expiration.
    pub ask_expiry: (u64, u64),
    /// Allowed (min, max) distance from now to a bid's expiration.
    pub bid_expiry: (u64, u64),
    pub operators: Vec<String>,
}

/// Royalty metadata of a token: who is paid, and which share in percent.
#[derive(Debug, Clone, PartialEq, Eq)]
pub struct RoyaltyInfo {
    pub payment_address: String,
    pub share: u32,
}

/// A settlement waiting for confirmation of the token transfer.
#[derive(Debug, Clone, PartialEq, Eq)]
pub struct PendingSale {
    pub reply_id: u64,
    pub collection: String,
    pub token_id: String,
    pub seller: String,
    pub buyer: String,
    pub price: Coin,
    pub fee: u128,
    pub royalty: u128,
    pub royalty_recipient: String,
    pub remainder: u128,
    pub seller_recipient: String,
}

/// What the marketplace asks its environment to do.
#[derive(Debug, Clone, PartialEq, Eq)]
pub enum Action {
    /// Send funds held by the marketplace to an address.
    BankSend { to: String, amount: Coin },
    /// Pay the trading fee to the protocol.
    FeePayment { amount: Coin },
    /// Transfer a token from its owner to `recipient`, and report the
    /// outcome under `reply_id`.
    TransferNft { collection: String, token_id: String, recipient: String, reply_id: u64 },
    /// Tell a "listed" subscriber of a new ask.
    NotifyListed { hook: String, collection: String, token_id: String, price: Coin, seller: String },
    /// Tell a "sale-finalized" subscriber of a completed sale.
    NotifySaleFinalized {
        hook: String,
        collection: String,
        token_id: String,
        price: Coin,
        seller: String,
        buyer: String,
    },
}

} // verus!
