//! Placing and withdrawing bids, and the escrow they hold.
use crate::error::{ContractError, PaymentError};
use crate::market::{Marketplace, Outcome, ask_usable, expiry_in, lookup, within_expiry};
use crate::payment::one_coin;
use crate::state::{Action, Bid, BidKey, Coin, bid_key};
use vstd::prelude::*;

verus! {

/// What is paid back when the bid at `k` leaves escrow: its whole amount, to
/// its bidder; nothing when there is no such bid.
pub open spec fn refund_of(bids: Map<BidKey, Bid>, k: BidKey) -> Seq<Action> {
    if bids.contains_key(k) {
        seq![Action::BankSend { to: bids[k].bidder, amount: bids[k].price }]
    } else {
        seq![]
    }
}

/// The funds the marketplace holds in escrow for the bid at `k`.
pub open spec fn escrow_of(bids: Map<BidKey, Bid>, k: BidKey) -> int {
    if bids.contains_key(k) {
        bids[k].price.amount as int
    } else {
        0
    }
}

/// The total amount that `actions` send out of the marketplace.
pub open spec fn sent_total(actions: Seq<Action>) -> int
    decreases actions.len(),
{
    if actions.len() == 0 {
        0
    } else {
        sent_total(actions.drop_last()) + match actions.last() {
            Action::BankSend { amount, .. } => amount.amount as int,
            Action::FeePayment { amount } => amount.amount as int,
            _ => 0,
        }
    }
}

/// The error for funds that are not exactly one coin of nonzero amount.
pub open spec fn payment_error(funds: Seq<Coin>) -> ContractError {
    if funds.len() > 1 {
        ContractError::BidPaymentError(PaymentError::MultipleDenoms {})
    } else {
        ContractError::BidPaymentError(PaymentError::NoFunds {})
    }
}

/// Funds that are exactly one coin of nonzero amount.
pub open spec fn paid_one_coin(funds: Seq<Coin>) -> bool {
    funds.len() == 1 && funds[0].amount != 0
}

/// Replacing a bidder's bid on a token keeps exactly one bid's worth in
/// escrow: the new bid's amount is held, and the superseded bid's whole
/// amount is what is refunded.
pub proof fn lemma_rebid_escrow(bids: Map<BidKey, Bid>, bid: Bid)
    ensures
        escrow_of(bids.insert(bid_key(bid), bid), bid_key(bid)) == bid.price.amount,
        sent_total(refund_of(bids, bid_key(bid))) == escrow_of(bids, bid_key(bid)),
{
    let s = refund_of(bids, bid_key(bid));
    if s.len() == 1 {
        assert(s.drop_last() =~= seq![]);
        assert(sent_total(s.drop_last()) == 0);
    }
}

/// A withdrawn bid is gone, and its refund is exactly what it held in escrow.
pub proof fn lemma_withdrawn_bid(bids: Map<BidKey, Bid>, k: BidKey)
    requires
        bids.contains_key(k),
    ensures
        lookup(bids.remove(k), k) is None,
        refund_of(bids, k).len() == 1,
        sent_total(refund_of(bids, k)) == escrow_of(bids, k),
{
    assert(refund_of(bids, k).drop_last() =~= seq![]);
    assert(sent_total(refund_of(bids, k).drop_last()) == 0);
}

impl Marketplace {
    /// Places a bid of the attached `funds` on a token with a usable ask. The
    /// funds must be one coin of nonzero amount in the ask's denomination, and
    /// the expiration must lie within the bid expiry bounds of `now`. A
    /// previous bid of `sender` on the token is replaced and refunded.
    pub fn set_bid(
        &mut self,
        sender: &String,
        now: u64,
        funds: &Vec<Coin>,
        collection: String,
        token_id: String,
        expires: u64,
    ) -> (r: Outcome)
        requires
            old(self).wf(),
        ensures
            final(self).wf(),
            ({
                let k = (collection@, token_id@);
                let asks = old(self).asks_view();
                let usable = asks.contains_key(k) && ask_usable(asks[k], now);
                let paid = paid_one_coin(funds@);
                &&& !asks.contains_key(k) ==> r == Outcome::Err(ContractError::AskNotFound {})
                &&& asks.contains_key(k) && !asks[k].active ==> r == Outcome::Err(
                    ContractError::AskNotActive {},
                )
                &&& asks.contains_key(k) && asks[k].active && now >= asks[k].expires ==> r
                    == Outcome::Err(ContractError::AskExpired {})
                &&& usable && !paid ==> r == Outcome::Err(payment_error(funds@))
                &&& usable && paid && funds@[0].denom@ != asks[k].price.denom@ ==> r
                    == Outcome::Err(ContractError::IncorrectBidFunds {})
                &&& usable && paid && funds@[0].denom@ == asks[k].price.denom@ && !expiry_in(
                    now,
                    expires,
                    old(self).params.bid_expiry,
                ) ==> r == Outcome::Err(ContractError::InvalidExpiration {})
                &&& r is Ok <==> usable && paid && funds@[0].denom@ == asks[k].price.denom@
                    && expiry_in(now, expires, old(self).params.bid_expiry)
                &&& r is Ok ==> {
                    let bid = Bid { collection, token_id, bidder: *sender, price: funds@[0], expires };
                    &&& final(self).bids_view() == old(self).bids_view().insert(bid_key(bid), bid)
                    &&& final(self).asks == old(self).asks
                    &&& old(self).same_setup(final(self))
                    &&& final(self).pending == old(self).pending
                    &&& r->Ok_0@ == refund_of(old(self).bids_view(), bid_key(bid))
                }
            }),
            r is Err ==> *final(self) == *old(self),
    {
        let i = match self.find_ask(&collection, &token_id) {
            None => {
                return Err(ContractError::AskNotFound {});
            },
            Some(i) => i,
        };
        if !self.asks[i].active {
            return Err(ContractError::AskNotActive {});
        }
        if now >= self.asks[i].expires {
            return Err(ContractError::AskExpired {});
        }
        let coin = match one_coin(funds) {
            Ok(c) => c,
            Err(e) => {
                return Err(ContractError::BidPaymentError(e));
            },
        };
        if coin.denom != self.asks[i].price.denom {
            return Err(ContractError::IncorrectBidFunds {});
        }
        if !within_expiry(now, expires, self.params.bid_expiry) {
            return Err(ContractError::InvalidExpiration {});
        }
        let refund = match self.find_bid(&collection, &token_id, sender) {
            Some(j) => vec![
                Action::BankSend {
                    to: self.bids[j].bidder.clone(),
                    amount: self.bids[j].price.copied(),
                },
            ],
            None => Vec::new(),
        };
        let bid = Bid { collection, token_id, bidder: sender.clone(), price: coin, expires };
        self.put_bid(bid);
        Ok(refund)
    }

    /// Withdraws the bid of `bidder` on a token and refunds it in full; the
    /// bidder, the admin or an operator may.
    pub fn remove_bid(
        &mut self,
        sender: &String,
        collection: &String,
        token_id: &String,
        bidder: &String,
    ) -> (r: Outcome)
        requires
            old(self).wf(),
        ensures
            final(self).wf(),
            ({
                let k = (collection@, token_id@, bidder@);
                let allowed = sender@ == bidder@ || old(self).is_operator(sender@);
                &&& !allowed ==> r == Outcome::Err(ContractError::Unauthorized {})
                &&& allowed && !old(self).bids_view().contains_key(k) ==> r == Outcome::Err(
                    ContractError::BidNotFound {},
                )
                &&& r is Ok <==> allowed && old(self).bids_view().contains_key(k)
                &&& r is Ok ==> {
                    &&& final(self).bids_view() == old(self).bids_view().remove(k)
                    &&& final(self).asks == old(self).asks
                    &&& old(self).same_setup(final(self))
                    &&& final(self).pending == old(self).pending
                    &&& r->Ok_0@ == refund_of(old(self).bids_view(), k)
                }
            }),
            r is Err ==> *final(self) == *old(self),
    {
        if *sender != *bidder && !self.check_operator(sender) {
            return Err(ContractError::Unauthorized {});
        }
        match self.find_bid(collection, token_id, bidder) {
            None => Err(ContractError::BidNotFound {}),
            Some(j) => {
                let refund = vec![
                    Action::BankSend {
                        to: self.bids[j].bidder.clone(),
                        amount: self.bids[j].price.copied(),
                    },
                ];
                self.drop_bid_at(j);
                Ok(refund)
            },
        }
    }
}

} // verus!
