//! The marketplace's stored state, seen as maps keyed by token and bidder.
use crate::error::ContractError;
use crate::msg::InstantiateMsg;
use crate::index::{
    index_by, keys_unique, lemma_index_at, lemma_index_domain, lemma_index_push, lemma_index_remove,
    lemma_unique_push,
};
use crate::state::{
    Action, Ask, AskKey, Bid, BidKey, PendingSale, SudoParams, ask_key, ask_key_fn, bid_key,
    bid_key_fn,
};
use vstd::prelude::*;

verus! {

/// What an operation hands back: the actions for the environment, or why it
/// was refused.
pub type Outcome = Result<Vec<Action>, ContractError>;

/// The whole state of one marketplace.
pub struct Marketplace {
    pub admin: String,
    pub params: SudoParams,
    pub asks: Vec<Ask>,
    pub bids: Vec<Bid>,
    pub listed_hooks: Vec<String>,
    pub sale_finalized_hooks: Vec<String>,
    pub pending: Option<PendingSale>,
}

/// `expires` lies within `range` (min, max) of `now`.
pub open spec fn expiry_in(now: u64, expires: u64, range: (u64, u64)) -> bool {
    now + range.0 <= expires && expires <= now + range.1
}

/// No two entries of `s` have the same text.
pub open spec fn texts_distinct(s: Seq<String>) -> bool {
    forall|i: int, j: int| 0 <= i < j < s.len() ==> s[i]@ != s[j]@
}

/// An ask can be traded on at `now`.
pub open spec fn ask_usable(a: Ask, now: u64) -> bool {
    a.active && now < a.expires
}

/// What a map holds under `k`, if anything.
pub open spec fn lookup<K, V>(m: Map<K, V>, k: K) -> Option<V> {
    if m.contains_key(k) {
        Some(m[k])
    } else {
        None
    }
}

pub(crate) fn within_expiry(now: u64, expires: u64, range: (u64, u64)) -> (r: bool)
    ensures
        r == expiry_in(now, expires, range),
{
    (now as u128) + (range.0 as u128) <= (expires as u128) && (expires as u128) <= (now as u128)
        + (range.1 as u128)
}

impl Marketplace {
    /// A marketplace with no asks, bids, hooks or pending sale; the trading
    /// fee is a percentage, at most 100.
    pub fn instantiate(msg: InstantiateMsg, params: SudoParams) -> (r: Marketplace)
        requires
            params.trading_fee_percent <= 100,
        ensures
            r.wf(),
            r.admin == msg.admin,
            r.params == params,
            r.asks@.len() == 0,
            r.bids@.len() == 0,
            r.listed_hooks@.len() == 0,
            r.sale_finalized_hooks@.len() == 0,
            r.pending is None,
            r.asks_view() == Map::<AskKey, Ask>::empty(),
            r.bids_view() == Map::<BidKey, Bid>::empty(),
    {
        Marketplace {
            admin: msg.admin,
            params,
            asks: Vec::new(),
            bids: Vec::new(),
            listed_hooks: Vec::new(),
            sale_finalized_hooks: Vec::new(),
            pending: None,
        }
    }

    pub open spec fn asks_view(&self) -> Map<AskKey, Ask> {
        index_by(self.asks@, ask_key_fn())
    }

    pub open spec fn bids_view(&self) -> Map<BidKey, Bid> {
        index_by(self.bids@, bid_key_fn())
    }

    /// Keys are unique, every stored price is positive, and a pending sale's
    /// parts add up to its price.
    pub open spec fn wf(&self) -> bool {
        &&& keys_unique(self.asks@, ask_key_fn())
        &&& keys_unique(self.bids@, bid_key_fn())
        &&& forall|k: AskKey| #[trigger]
            index_by(self.asks@, ask_key_fn()).contains_key(k) ==> index_by(
                self.asks@,
                ask_key_fn(),
            )[k].price.amount > 0
        &&& forall|k: BidKey| #[trigger]
            index_by(self.bids@, bid_key_fn()).contains_key(k) ==> index_by(
                self.bids@,
                bid_key_fn(),
            )[k].price.amount > 0
        &&& self.pending matches Some(p) ==> p.fee + p.royalty + p.remainder == p.price.amount
        &&& self.params.trading_fee_percent <= 100
        &&& texts_distinct(self.listed_hooks@)
        &&& texts_distinct(self.sale_finalized_hooks@)
    }

    /// `other` has the same admin, parameters and hook subscribers.
    pub open spec fn same_setup(&self, other: &Marketplace) -> bool {
        &&& other.admin == self.admin
        &&& other.params == self.params
        &&& other.listed_hooks == self.listed_hooks
        &&& other.sale_finalized_hooks == self.sale_finalized_hooks
    }

    /// `who` is the admin or one of the operators.
    pub open spec fn is_operator(&self, who: Seq<char>) -> bool {
        who == self.admin@ || exists|i: int|
            0 <= i < self.params.operators.len() && #[trigger] self.params.operators@[i]@ == who
    }

    pub(crate) fn check_operator(&self, who: &String) -> (r: bool)
        ensures
            r == self.is_operator(who@),
    {
        if self.admin == *who {
            return true;
        }
        let mut i: usize = 0;
        while i < self.params.operators.len()
            invariant
                i <= self.params.operators.len(),
                who@ != self.admin@,
                forall|j: int| 0 <= j < i ==> self.params.operators@[j]@ != who@,
            decreases self.params.operators.len() - i,
        {
            if self.params.operators[i] == *who {
                return true;
            }
            i += 1;
        }
        false
    }

    /// Where the ask for (collection, token) is stored, if there is one.
    pub(crate) fn find_ask(&self, collection: &String, token_id: &String) -> (r: Option<usize>)
        requires
            self.wf(),
        ensures
            r matches Some(i) ==> i < self.asks.len() && ask_key(self.asks@[i as int]) == (
            collection@,
            token_id@,
            ) && self.asks_view().contains_key((collection@, token_id@))
                && self.asks_view()[(collection@, token_id@)] == self.asks@[i as int],
            r is None ==> !self.asks_view().contains_key((collection@, token_id@)),
    {
        let mut i: usize = 0;
        while i < self.asks.len()
            invariant
                i <= self.asks.len(),
                self.wf(),
                forall|j: int| 0 <= j < i ==> ask_key(#[trigger] self.asks@[j]) != (collection@, token_id@),
            decreases self.asks.len() - i,
        {
            if self.asks[i].collection == *collection && self.asks[i].token_id == *token_id {
                proof {
                    lemma_index_at(self.asks@, ask_key_fn(), i as int);
                }
                return Some(i);
            }
            i += 1;
        }
        proof {
            lemma_index_domain(self.asks@, ask_key_fn(), (collection@, token_id@));
        }
        None
    }

    /// Where the bid for (collection, token, bidder) is stored, if there is one.
    pub(crate) fn find_bid(&self, collection: &String, token_id: &String, bidder: &String) -> (r:
        Option<usize>)
        requires
            self.wf(),
        ensures
            r matches Some(i) ==> i < self.bids.len() && bid_key(self.bids@[i as int]) == (
            collection@,
            token_id@,
            bidder@,
            ) && self.bids_view().contains_key((collection@, token_id@, bidder@))
                && self.bids_view()[(collection@, token_id@, bidder@)] == self.bids@[i as int],
            r is None ==> !self.bids_view().contains_key((collection@, token_id@, bidder@)),
    {
        let mut i: usize = 0;
        while i < self.bids.len()
            invariant
                i <= self.bids.len(),
                self.wf(),
                forall|j: int|
                    0 <= j < i ==> bid_key(#[trigger] self.bids@[j]) != (
                    collection@,
                    token_id@,
                    bidder@,
                    ),
            decreases self.bids.len() - i,
        {
            if self.bids[i].collection == *collection && self.bids[i].token_id == *token_id
                && self.bids[i].bidder == *bidder {
                proof {
                    lemma_index_at(self.bids@, bid_key_fn(), i as int);
                }
                return Some(i);
            }
            i += 1;
        }
        proof {
            lemma_index_domain(self.bids@, bid_key_fn(), (collection@, token_id@, bidder@));
        }
        None
    }

    /// Removes the ask at `i`.
    pub(crate) fn drop_ask_at(&mut self, i: usize)
        requires
            old(self).wf(),
            i < old(self).asks.len(),
        ensures
            final(self).wf(),
            final(self).asks_view() == old(self).asks_view().remove(ask_key(old(self).asks@[i as int])),
            final(self).bids == old(self).bids,
            final(self).admin == old(self).admin,
            final(self).params == old(self).params,
            final(self).listed_hooks == old(self).listed_hooks,
            final(self).sale_finalized_hooks == old(self).sale_finalized_hooks,
            final(self).pending == old(self).pending,
    {
        let ghost before = self.asks_view();
        proof {
            lemma_index_remove(self.asks@, ask_key_fn(), i as int);
        }
        self.asks.remove(i);
        assert forall|k: AskKey| #[trigger] self.asks_view().contains_key(k) implies self.asks_view()[
            k
        ].price.amount > 0 by {
            assert(before.contains_key(k));
        }
    }

    /// Removes the bid at `i`.
    pub(crate) fn drop_bid_at(&mut self, i: usize)
        requires
            old(self).wf(),
            i < old(self).bids.len(),
        ensures
            final(self).wf(),
            final(self).bids_view() == old(self).bids_view().remove(bid_key(old(self).bids@[i as int])),
            final(self).asks == old(self).asks,
            final(self).admin == old(self).admin,
            final(self).params == old(self).params,
            final(self).listed_hooks == old(self).listed_hooks,
            final(self).sale_finalized_hooks == old(self).sale_finalized_hooks,
            final(self).pending == old(self).pending,
    {
        let ghost before = self.bids_view();
        proof {
            lemma_index_remove(self.bids@, bid_key_fn(), i as int);
        }
        self.bids.remove(i);
        assert forall|k: BidKey| #[trigger] self.bids_view().contains_key(k) implies self.bids_view()[
            k
        ].price.amount > 0 by {
            assert(before.contains_key(k));
        }
    }

    /// Stores `ask` under its key, replacing any ask stored there.
    pub(crate) fn put_ask(&mut self, ask: Ask)
        requires
            old(self).wf(),
            ask.price.amount > 0,
        ensures
            final(self).wf(),
            final(self).asks_view() == old(self).asks_view().insert(ask_key(ask), ask),
            final(self).bids == old(self).bids,
            final(self).admin == old(self).admin,
            final(self).params == old(self).params,
            final(self).listed_hooks == old(self).listed_hooks,
            final(self).sale_finalized_hooks == old(self).sale_finalized_hooks,
            final(self).pending == old(self).pending,
    {
        let ghost before = self.asks_view();
        match self.find_ask(&ask.collection, &ask.token_id) {
            Some(i) => {
                self.drop_ask_at(i);
            },
            None => {},
        }
        assert(!self.asks_view().contains_key(ask_key(ask)));
        assert(self.asks_view().insert(ask_key(ask), ask) =~= before.insert(ask_key(ask), ask));
        proof {
            lemma_index_push(self.asks@, ask_key_fn(), ask);
            lemma_unique_push(self.asks@, ask_key_fn(), ask);
        }
        self.asks.push(ask);
        assert forall|k: AskKey| #[trigger] self.asks_view().contains_key(k) implies self.asks_view()[
            k
        ].price.amount > 0 by {
            if k != ask_key(ask) {
                assert(before.contains_key(k));
            }
        }
    }

    /// Stores `bid` under its key, replacing any bid stored there.
    pub(crate) fn put_bid(&mut self, bid: Bid)
        requires
            old(self).wf(),
            bid.price.amount > 0,
        ensures
            final(self).wf(),
            final(self).bids_view() == old(self).bids_view().insert(bid_key(bid), bid),
            final(self).asks == old(self).asks,
            final(self).admin == old(self).admin,
            final(self).params == old(self).params,
            final(self).listed_hooks == old(self).listed_hooks,
            final(self).sale_finalized_hooks == old(self).sale_finalized_hooks,
            final(self).pending == old(self).pending,
    {
        let ghost before = self.bids_view();
        match self.find_bid(&bid.collection, &bid.token_id, &bid.bidder) {
            Some(i) => {
                self.drop_bid_at(i);
            },
            None => {},
        }
        assert(!self.bids_view().contains_key(bid_key(bid)));
        assert(self.bids_view().insert(bid_key(bid), bid) =~= before.insert(bid_key(bid), bid));
        proof {
            lemma_index_push(self.bids@, bid_key_fn(), bid);
            lemma_unique_push(self.bids@, bid_key_fn(), bid);
        }
        self.bids.push(bid);
        assert forall|k: BidKey| #[trigger] self.bids_view().contains_key(k) implies self.bids_view()[
            k
        ].price.amount > 0 by {
            if k != bid_key(bid) {
                assert(before.contains_key(k));
            }
        }
    }
}

} // verus!
