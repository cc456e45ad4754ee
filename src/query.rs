//! Read-only lookups over the stored asks and bids. Listings return the
//! stored records as they are, expired or inactive ones included.
use crate::market::{Marketplace, lookup};
use crate::index::lemma_index_domain;
use crate::order::{after_cursor, has_text, is_page, page_keys, text_lt, text_of};
use crate::state::{ask_key, ask_key_fn, bid_key, bid_key_fn};
use crate::msg::{
    AskCountResponse, AsksResponse, BidResponse, BidsResponse, CollectionsResponse, CurrentAskResponse,
};
use crate::state::{Ask, Bid};
use vstd::prelude::*;

verus! {

/// An ask of collection `c`.
pub open spec fn ask_in(c: Seq<char>) -> spec_fn(Ask) -> bool {
    |a: Ask| a.collection@ == c
}

/// An ask by seller `s`.
pub open spec fn ask_by(s: Seq<char>) -> spec_fn(Ask) -> bool {
    |a: Ask| a.seller@ == s
}

/// A bid by bidder `b`.
pub open spec fn bid_by(b: Seq<char>) -> spec_fn(Bid) -> bool {
    |x: Bid| x.bidder@ == b
}

/// A bid on token `t` of collection `c`.
pub open spec fn bid_on(c: Seq<char>, t: Seq<char>) -> spec_fn(Bid) -> bool {
    |x: Bid| x.collection@ == c && x.token_id@ == t
}

/// Page size when none is asked for.
pub const DEFAULT_LIMIT: u32 = 10;

/// The largest page size served.
pub const MAX_LIMIT: u32 = 30;

/// The page size served for the one asked for.
pub open spec fn page_limit(limit: Option<u32>) -> nat {
    match limit {
        Some(l) => if l > MAX_LIMIT { MAX_LIMIT as nat } else { l as nat },
        None => DEFAULT_LIMIT as nat,
    }
}

fn page_size(limit: Option<u32>) -> (r: usize)
    ensures
        r == page_limit(limit),
{
    match limit {
        Some(l) => if l > MAX_LIMIT { MAX_LIMIT as usize } else { l as usize },
        None => DEFAULT_LIMIT as usize,
    }
}

/// Some ask of `asks` is on token `t` of collection `c`.
pub open spec fn token_listed(asks: Seq<Ask>, c: Seq<char>, t: Seq<char>) -> bool {
    exists|j: int| 0 <= j < asks.len() && #[trigger] ask_key(asks[j]) == (c, t)
}

/// Some bid of `bids` on token `t` of collection `c` is by bidder `b`.
pub open spec fn bidder_listed(bids: Seq<Bid>, c: Seq<char>, t: Seq<char>, b: Seq<char>) -> bool {
    exists|j: int| 0 <= j < bids.len() && #[trigger] bid_key(bids[j]) == (c, t, b)
}

/// The collection of each ask, in the order they are stored.
pub open spec fn collections_of(s: Seq<Ask>) -> Seq<String> {
    Seq::new(s.len(), |i: int| s[i].collection)
}

impl Marketplace {
    /// A page of the asks of a collection, ascending by token id, after
    /// `start_after`: each is the stored ask, and no ask of the collection
    /// after `start_after` and before the page's end is left out.
    pub fn query_asks(&self, collection: &String, start_after: Option<String>, limit: Option<u32>) -> (r:
        AsksResponse)
        requires
            self.wf(),
        ensures
            ({
                let asks = self.asks_view();
                let after = text_of(start_after);
                let lim = page_limit(limit);
                let out = r.asks@;
                &&& out.len() <= lim
                &&& forall|i: int|
                    0 <= i < out.len() ==> (#[trigger] out[i]).collection@ == collection@
                        && asks.contains_key(ask_key(out[i])) && asks[ask_key(out[i])] == out[i]
                        && after_cursor(after, out[i].token_id@)
                &&& forall|i: int|
                    0 <= i < out.len() - 1 ==> text_lt(
                        (#[trigger] out[i]).token_id@,
                        out[i + 1].token_id@,
                    )
                &&& forall|k: (Seq<char>, Seq<char>)|
                    #![trigger asks.contains_key(k)]
                    asks.contains_key(k) && k.0 == collection@ && after_cursor(after, k.1) ==> (exists|
                        i: int,
                    | 0 <= i < out.len() && #[trigger] out[i].token_id@ == k.1) || (out.len() == lim
                        && (lim == 0 || text_lt(out.last().token_id@, k.1)))
            }),
    {
        let mut tokens: Vec<String> = Vec::new();
        let mut i: usize = 0;
        while i < self.asks.len()
            invariant
                self.wf(),
                i <= self.asks.len(),
                forall|q: int|
                    0 <= q < tokens.len() ==> token_listed(self.asks@, collection@, #[trigger] tokens@[q]@),
                forall|j: int|
                    0 <= j < i && (#[trigger] self.asks@[j]).collection@ == collection@
                        ==> has_text(tokens@, self.asks@[j].token_id@),
            decreases self.asks.len() - i,
        {
            if self.asks[i].collection == *collection {
                let ghost before = tokens@;
                tokens.push(self.asks[i].token_id.clone());
                assert forall|m: int|
                    0 <= m < tokens.len() implies token_listed(self.asks@, collection@, #[trigger] tokens@[m]@) by {
                    if m < before.len() {
                        assert(tokens@[m] == before[m]);
                    } else {
                        assert(ask_key(self.asks@[i as int]) == (collection@, tokens@[m]@));
                    }
                }
                assert forall|j: int|
                    0 <= j <= i && (#[trigger] self.asks@[j]).collection@ == collection@
                        implies has_text(tokens@, self.asks@[j].token_id@) by {
                    if j < i {
                        let w = choose|w: int|
                            0 <= w < before.len() && #[trigger] before[w]@ == self.asks@[j].token_id@;
                        assert(tokens@[w] == before[w]);
                    } else {
                        assert(tokens@[before.len() as int]@ == self.asks@[j].token_id@);
                    }
                }
            }
            i += 1;
        }
        let page = page_keys(&tokens, &start_after, page_size(limit));
        let mut out: Vec<Ask> = Vec::new();
        let mut m: usize = 0;
        let ghost lim = page_limit(limit);
        while m < page.len()
            invariant
                self.wf(),
                m <= page.len(),
                is_page(tokens@, text_of(start_after), lim, page@),
                forall|q: int|
                    0 <= q < tokens.len() ==> token_listed(self.asks@, collection@, #[trigger] tokens@[q]@),
                forall|j: int|
                    0 <= j < self.asks.len() && (#[trigger] self.asks@[j]).collection@ == collection@
                        ==> has_text(tokens@, self.asks@[j].token_id@),
                out.len() == m,
                forall|n: int|
                    0 <= n < m ==> (#[trigger] out@[n]).collection@ == collection@
                        && self.asks_view().contains_key(ask_key(out@[n]))
                        && self.asks_view()[ask_key(out@[n])] == out@[n] && out@[n].token_id@
                        == page@[n]@,
            decreases page.len() - m,
        {
            proof {
                let t = page@[m as int]@;
                assert(has_text(tokens@, t));
                let w = choose|w: int| 0 <= w < tokens.len() && #[trigger] tokens@[w]@ == t;
                assert(token_listed(self.asks@, collection@, tokens@[w]@));
                lemma_index_domain(self.asks@, ask_key_fn(), (collection@, t));
            }
            match self.find_ask(collection, &page[m]) {
                Some(j) => {
                    out.push(self.asks[j].copied());
                },
                None => {},
            }
            m += 1;
        }
        proof {
            let asks = self.asks_view();
            assert forall|k: (Seq<char>, Seq<char>)|
                #![trigger asks.contains_key(k)]
                asks.contains_key(k) && k.0 == collection@ && after_cursor(text_of(start_after), k.1)
                    implies (exists|i: int| 0 <= i < out.len() && #[trigger] out@[i].token_id@ == k.1)
                || (out.len() == page_limit(limit) && (page_limit(limit) == 0 || text_lt(
                out@.last().token_id@,
                k.1,
            ))) by {
                lemma_index_domain(self.asks@, ask_key_fn(), k);
                let j = choose|j: int| 0 <= j < self.asks.len() && ask_key_fn()(self.asks@[j]) == k;
                assert(self.asks@[j].collection@ == collection@);
                let w = choose|w: int|
                    0 <= w < tokens.len() && #[trigger] tokens@[w]@ == self.asks@[j].token_id@;
                assert(after_cursor(text_of(start_after), tokens@[w]@));
                if has_text(page@, k.1) {
                    let q = choose|q: int| 0 <= q < page.len() && #[trigger] page@[q]@ == k.1;
                    assert(out@[q].token_id@ == k.1);
                }
                if out.len() > 0 {
                    assert(out@.last().token_id@ == page@.last()@);
                }
            }
            assert forall|i: int| 0 <= i < out.len() - 1 implies text_lt(
                (#[trigger] out@[i]).token_id@,
                out@[i + 1].token_id@,
            ) by {
                assert(text_lt(page@[i]@, page@[i + 1]@));
            }
            assert forall|i: int| 0 <= i < out.len() implies after_cursor(
                text_of(start_after),
                (#[trigger] out@[i]).token_id@,
            ) by {
                assert(after_cursor(text_of(start_after), page@[i]@));
            }
        }
        AsksResponse { asks: out }
    }

    /// A page of the bids on a token, ascending by bidder, after
    /// `start_after`: each is the stored bid, and no bid on the token after
    /// `start_after` and before the page's end is left out.
    pub fn query_bids(&self, collection: &String, token_id: &String, start_after: Option<String>, limit: Option<u32>) -> (r:
        BidsResponse)
        requires
            self.wf(),
        ensures
            ({
                let bids = self.bids_view();
                let after = text_of(start_after);
                let lim = page_limit(limit);
                let out = r.bids@;
                &&& out.len() <= lim
                &&& forall|i: int|
                    0 <= i < out.len() ==> (#[trigger] out[i]).collection@ == collection@
                        && out[i].token_id@ == token_id@ && bids.contains_key(bid_key(out[i]))
                        && bids[bid_key(out[i])] == out[i] && after_cursor(after, out[i].bidder@)
                &&& forall|i: int|
                    0 <= i < out.len() - 1 ==> text_lt(
                        (#[trigger] out[i]).bidder@,
                        out[i + 1].bidder@,
                    )
                &&& forall|k: (Seq<char>, Seq<char>, Seq<char>)|
                    #![trigger bids.contains_key(k)]
                    bids.contains_key(k) && k.0 == collection@ && k.1 == token_id@ && after_cursor(
                        after,
                        k.2,
                    ) ==> (exists|i: int| 0 <= i < out.len() && #[trigger] out[i].bidder@ == k.2) || (
                    out.len() == lim && (lim == 0 || text_lt(out.last().bidder@, k.2)))
            }),
    {
        let mut bidders: Vec<String> = Vec::new();
        let mut i: usize = 0;
        while i < self.bids.len()
            invariant
                self.wf(),
                i <= self.bids.len(),
                forall|q: int|
                    0 <= q < bidders.len() ==> bidder_listed(self.bids@, collection@, token_id@, #[trigger] bidders@[q]@),
                forall|j: int|
                    0 <= j < i && (#[trigger] self.bids@[j]).collection@ == collection@
                        && self.bids@[j].token_id@ == token_id@ ==> has_text(bidders@, self.bids@[j].bidder@),
            decreases self.bids.len() - i,
        {
            if self.bids[i].collection == *collection && self.bids[i].token_id == *token_id {
                let ghost before = bidders@;
                bidders.push(self.bids[i].bidder.clone());
                assert forall|m: int|
                    0 <= m < bidders.len() implies bidder_listed(self.bids@, collection@, token_id@, #[trigger] bidders@[m]@) by {
                    if m < before.len() {
                        assert(bidders@[m] == before[m]);
                    } else {
                        assert(bid_key(self.bids@[i as int]) == (collection@, token_id@, bidders@[m]@));
                    }
                }
                assert forall|j: int|
                    0 <= j <= i && (#[trigger] self.bids@[j]).collection@ == collection@
                        && self.bids@[j].token_id@ == token_id@ implies has_text(
                        bidders@,
                        self.bids@[j].bidder@,
                    ) by {
                    if j < i {
                        let w = choose|w: int|
                            0 <= w < before.len() && #[trigger] before[w]@ == self.bids@[j].bidder@;
                        assert(bidders@[w] == before[w]);
                    } else {
                        assert(bidders@[before.len() as int]@ == self.bids@[j].bidder@);
                    }
                }
            }
            i += 1;
        }
        let page = page_keys(&bidders, &start_after, page_size(limit));
        let mut out: Vec<Bid> = Vec::new();
        let mut m: usize = 0;
        let ghost lim = page_limit(limit);
        while m < page.len()
            invariant
                self.wf(),
                m <= page.len(),
                is_page(bidders@, text_of(start_after), lim, page@),
                forall|q: int|
                    0 <= q < bidders.len() ==> bidder_listed(self.bids@, collection@, token_id@, #[trigger] bidders@[q]@),
                forall|j: int|
                    0 <= j < self.bids.len() && (#[trigger] self.bids@[j]).collection@ == collection@
                        && self.bids@[j].token_id@ == token_id@ ==> has_text(bidders@, self.bids@[j].bidder@),
                out.len() == m,
                forall|n: int|
                    0 <= n < m ==> (#[trigger] out@[n]).collection@ == collection@
                        && out@[n].token_id@ == token_id@
                        && self.bids_view().contains_key(bid_key(out@[n]))
                        && self.bids_view()[bid_key(out@[n])] == out@[n] && out@[n].bidder@
                        == page@[n]@,
            decreases page.len() - m,
        {
            proof {
                let t = page@[m as int]@;
                assert(has_text(bidders@, t));
                let w = choose|w: int| 0 <= w < bidders.len() && #[trigger] bidders@[w]@ == t;
                assert(bidder_listed(self.bids@, collection@, token_id@, bidders@[w]@));
                lemma_index_domain(self.bids@, bid_key_fn(), (collection@, token_id@, t));
            }
            match self.find_bid(collection, token_id, &page[m]) {
                Some(j) => {
                    out.push(self.bids[j].copied());
                },
                None => {},
            }
            m += 1;
        }
        proof {
            let bids = self.bids_view();
            assert forall|k: (Seq<char>, Seq<char>, Seq<char>)|
                #![trigger bids.contains_key(k)]
                bids.contains_key(k) && k.0 == collection@ && k.1 == token_id@ && after_cursor(
                    text_of(start_after),
                    k.2,
                ) implies (exists|i: int| 0 <= i < out.len() && #[trigger] out@[i].bidder@ == k.2)
                || (out.len() == page_limit(limit) && (page_limit(limit) == 0 || text_lt(
                out@.last().bidder@,
                k.2,
            ))) by {
                lemma_index_domain(self.bids@, bid_key_fn(), k);
                let j = choose|j: int| 0 <= j < self.bids.len() && bid_key_fn()(self.bids@[j]) == k;
                assert(self.bids@[j].collection@ == collection@);
                let w = choose|w: int|
                    0 <= w < bidders.len() && #[trigger] bidders@[w]@ == self.bids@[j].bidder@;
                assert(after_cursor(text_of(start_after), bidders@[w]@));
                if has_text(page@, k.2) {
                    let q = choose|q: int| 0 <= q < page.len() && #[trigger] page@[q]@ == k.2;
                    assert(out@[q].bidder@ == k.2);
                }
                if out.len() > 0 {
                    assert(out@.last().bidder@ == page@.last()@);
                }
            }
            assert forall|i: int| 0 <= i < out.len() - 1 implies text_lt(
                (#[trigger] out@[i]).bidder@,
                out@[i + 1].bidder@,
            ) by {
                assert(text_lt(page@[i]@, page@[i + 1]@));
            }
            assert forall|i: int| 0 <= i < out.len() implies after_cursor(
                text_of(start_after),
                (#[trigger] out@[i]).bidder@,
            ) by {
                assert(after_cursor(text_of(start_after), page@[i]@));
            }
        }
        BidsResponse { bids: out }
    }

    /// A page of the collections that have asks, ascending, after
    /// `start_after`.
    pub fn query_listed_collections(&self, start_after: Option<String>, limit: Option<u32>) -> (r:
        CollectionsResponse)
        ensures
            is_page(collections_of(self.asks@), text_of(start_after), page_limit(limit), r.collections@),
    {
        let mut cols: Vec<String> = Vec::new();
        let mut i: usize = 0;
        while i < self.asks.len()
            invariant
                i <= self.asks.len(),
                cols@ =~= collections_of(self.asks@.take(i as int)),
            decreases self.asks.len() - i,
        {
            cols.push(self.asks[i].collection.clone());
            i += 1;
            assert(cols@ =~= collections_of(self.asks@.take(i as int)));
        }
        assert(self.asks@.take(i as int) =~= self.asks@);
        CollectionsResponse { collections: page_keys(&cols, &start_after, page_size(limit)) }
    }

    /// The ask on a token, if there is one.
    pub fn query_current_ask(&self, collection: &String, token_id: &String) -> (r: CurrentAskResponse)
        requires
            self.wf(),
        ensures
            r.ask == lookup(self.asks_view(), (collection@, token_id@)),
    {
        match self.find_ask(collection, token_id) {
            Some(i) => CurrentAskResponse { ask: Some(self.asks[i].copied()) },
            None => CurrentAskResponse { ask: None },
        }
    }

    /// The bid of `bidder` on a token, if there is one.
    pub fn query_bid(&self, collection: &String, token_id: &String, bidder: &String) -> (r:
        BidResponse)
        requires
            self.wf(),
        ensures
            r.bid == lookup(self.bids_view(), (collection@, token_id@, bidder@)),
    {
        match self.find_bid(collection, token_id, bidder) {
            Some(i) => BidResponse { bid: Some(self.bids[i].copied()) },
            None => BidResponse { bid: None },
        }
    }

    /// The number of asks of a collection.
    pub fn query_ask_count(&self, collection: &String) -> (r: AskCountResponse)
        requires
            self.asks.len() <= u32::MAX,
        ensures
            r.count == self.asks@.filter(ask_in(collection@)).len(),
    {
        let mut count: u32 = 0;
        let mut i: usize = 0;
        while i < self.asks.len()
            invariant
                i <= self.asks.len() <= u32::MAX,
                count == self.asks@.take(i as int).filter(ask_in(collection@)).len(),
                count <= i,
            decreases self.asks.len() - i,
        {
            proof {
                reveal_with_fuel(Seq::filter, 1);
                assert(self.asks@.take(i + 1).drop_last() =~= self.asks@.take(i as int));
            }
            if self.asks[i].collection == *collection {
                count += 1;
            }
            i += 1;
        }
        assert(self.asks@.take(i as int) =~= self.asks@);
        AskCountResponse { count }
    }

    /// The asks of a seller, in the order they are stored.
    pub fn query_asks_by_seller(&self, seller: &String) -> (r: AsksResponse)
        ensures
            r.asks@ == self.asks@.filter(ask_by(seller@)),
    {
        let mut out: Vec<Ask> = Vec::new();
        let mut i: usize = 0;
        while i < self.asks.len()
            invariant
                i <= self.asks.len(),
                out@ == self.asks@.take(i as int).filter(ask_by(seller@)),
            decreases self.asks.len() - i,
        {
            proof {
                reveal_with_fuel(Seq::filter, 1);
                assert(self.asks@.take(i + 1).drop_last() =~= self.asks@.take(i as int));
            }
            if self.asks[i].seller == *seller {
                out.push(self.asks[i].copied());
            }
            i += 1;
        }
        assert(self.asks@.take(i as int) =~= self.asks@);
        AsksResponse { asks: out }
    }

    /// The bids of a bidder, in the order they are stored.
    pub fn query_bids_by_bidder(&self, bidder: &String) -> (r: BidsResponse)
        ensures
            r.bids@ == self.bids@.filter(bid_by(bidder@)),
    {
        let mut out: Vec<Bid> = Vec::new();
        let mut i: usize = 0;
        while i < self.bids.len()
            invariant
                i <= self.bids.len(),
                out@ == self.bids@.take(i as int).filter(bid_by(bidder@)),
            decreases self.bids.len() - i,
        {
            proof {
                reveal_with_fuel(Seq::filter, 1);
                assert(self.bids@.take(i + 1).drop_last() =~= self.bids@.take(i as int));
            }
            if self.bids[i].bidder == *bidder {
                out.push(self.bids[i].copied());
            }
            i += 1;
        }
        assert(self.bids@.take(i as int) =~= self.bids@);
        BidsResponse { bids: out }
    }

}

} // verus!
