//! Two-phase settlement: accepting a bid starts the token transfer, and the
//! transfer's confirmation finishes the sale or abandons it.
use crate::error::ContractError;
use crate::market::{Marketplace, Outcome, ask_usable};
use crate::payment::{percent_of, split_proceeds, lemma_percent_sum};
use crate::state::{Action, Ask, Bid, Coin, PendingSale, RoyaltyInfo};
use crate::bids::sent_total;
use vstd::prelude::*;

verus! {

/// The tag under which the token transfer of a sale reports back.
pub const SALE_REPLY_ID: u64 = 1;

/// The sale that accepting `bid` on `ask` starts, with the trading fee and
/// the royalty taken from the bid's amount and the rest for the seller.
pub open spec fn sale_of(ask: Ask, bid: Bid, royalty: RoyaltyInfo, fee_percent: u32) -> PendingSale {
    let amount = bid.price.amount as int;
    let fee = percent_of(amount, fee_percent as int);
    let cut = percent_of(amount, royalty.share as int);
    PendingSale {
        reply_id: SALE_REPLY_ID,
        collection: ask.collection,
        token_id: ask.token_id,
        seller: ask.seller,
        buyer: bid.bidder,
        price: bid.price,
        fee: fee as u128,
        royalty: cut as u128,
        royalty_recipient: royalty.payment_address,
        remainder: (amount - fee - cut) as u128,
        seller_recipient: ask.payee(),
    }
}

/// The payments that finish a sale: the trading fee, the royalty, and the
/// remainder for the seller's recipient.
pub open spec fn payouts(p: PendingSale) -> Seq<Action> {
    seq![
        Action::FeePayment { amount: Coin { denom: p.price.denom, amount: p.fee } },
        Action::BankSend {
            to: p.royalty_recipient,
            amount: Coin { denom: p.price.denom, amount: p.royalty },
        },
        Action::BankSend {
            to: p.seller_recipient,
            amount: Coin { denom: p.price.denom, amount: p.remainder },
        },
    ]
}

/// The notifications sent to each "sale-finalized" subscriber for `p`.
pub open spec fn sale_notices(hooks: Seq<String>, p: PendingSale) -> Seq<Action> {
    Seq::new(
        hooks.len(),
        |i: int|
            Action::NotifySaleFinalized {
                hook: hooks[i],
                collection: p.collection,
                token_id: p.token_id,
                price: p.price,
                seller: p.seller,
                buyer: p.buyer,
            },
    )
}

/// With a trading fee and a royalty share that sum to at most 100 percent,
/// the fee, the royalty and the remainder of a sale add up to the bid's
/// amount exactly, and its payouts send out exactly that amount.
pub proof fn lemma_sale_conserves(ask: Ask, bid: Bid, royalty: RoyaltyInfo, fee_percent: u32)
    requires
        fee_percent + royalty.share <= 100,
    ensures
        ({
            let p = sale_of(ask, bid, royalty, fee_percent);
            &&& p.fee + p.royalty + p.remainder == bid.price.amount
            &&& sent_total(payouts(p)) == bid.price.amount
        }),
{
    lemma_percent_sum(bid.price.amount as int, fee_percent as int, royalty.share as int);
    lemma_payouts_total(sale_of(ask, bid, royalty, fee_percent));
}

/// The payouts of a sale send out its fee, royalty and remainder.
pub proof fn lemma_payouts_total(p: PendingSale)
    ensures
        sent_total(payouts(p)) == p.fee + p.royalty + p.remainder,
{
    let s = payouts(p);
    assert(s.drop_last().drop_last().drop_last() =~= seq![]);
    assert(sent_total(s.drop_last().drop_last().drop_last()) == 0);
    assert(sent_total(s.drop_last().drop_last()) == p.fee);
    assert(sent_total(s.drop_last()) == p.fee + p.royalty);
}

/// A sale that starts and is then abandoned leaves the marketplace as it was.
pub proof fn lemma_abandoned_sale(m: Marketplace, p: PendingSale)
    requires
        m.pending is None,
    ensures
        m.with_pending(Some(p)).with_pending(None) == m,
{
}

pub(crate) fn sale_actions(hooks: &Vec<String>, p: &PendingSale) -> (r: Vec<Action>)
    ensures
        r@ == payouts(*p) + sale_notices(hooks@, *p),
{
    let mut r: Vec<Action> = vec![
        Action::FeePayment { amount: Coin { denom: p.price.denom.clone(), amount: p.fee } },
        Action::BankSend {
            to: p.royalty_recipient.clone(),
            amount: Coin { denom: p.price.denom.clone(), amount: p.royalty },
        },
        Action::BankSend {
            to: p.seller_recipient.clone(),
            amount: Coin { denom: p.price.denom.clone(), amount: p.remainder },
        },
    ];
    assert(r@ =~= payouts(*p) + sale_notices(hooks@.take(0), *p));
    let mut i: usize = 0;
    while i < hooks.len()
        invariant
            i <= hooks.len(),
            r@ =~= payouts(*p) + sale_notices(hooks@.take(i as int), *p),
        decreases hooks.len() - i,
    {
        r.push(
            Action::NotifySaleFinalized {
                hook: hooks[i].clone(),
                collection: p.collection.clone(),
                token_id: p.token_id.clone(),
                price: p.price.copied(),
                seller: p.seller.clone(),
                buyer: p.buyer.clone(),
            },
        );
        i += 1;
        assert(r@ =~= payouts(*p) + sale_notices(hooks@.take(i as int), *p));
    }
    assert(hooks@.take(i as int) =~= hooks@);
    r
}

fn copy_text(s: &String) -> (r: String)
    ensures
        r == *s,
{
    s.clone()
}

impl Marketplace {
    /// The marketplace with its pending sale set to `p`.
    pub open spec fn with_pending(self, p: Option<PendingSale>) -> Marketplace {
        Marketplace { pending: p, ..self }
    }

    /// Accepts the bid of `bidder` on a token: `sender` must be the seller of
    /// a usable ask, the bid must exist and be unexpired, and the token's
    /// `royalty` must be known with a share that, with the trading fee, is
    /// at most 100 percent. The sale is recorded as pending and the token
    /// transfer to the bidder is requested; nothing is paid or removed until
    /// the transfer is confirmed.
    pub fn accept_bid(
        &mut self,
        sender: &String,
        now: u64,
        collection: &String,
        token_id: &String,
        bidder: &String,
        royalty: Option<RoyaltyInfo>,
    ) -> (r: Outcome)
        requires
            old(self).wf(),
            old(self).pending is None,
        ensures
            final(self).wf(),
            ({
                let ka = (collection@, token_id@);
                let kb = (collection@, token_id@, bidder@);
                let asks = old(self).asks_view();
                let bids = old(self).bids_view();
                let fee = old(self).params.trading_fee_percent;
                let mine = asks.contains_key(ka) && asks[ka].seller@ == sender@;
                let usable = mine && ask_usable(asks[ka], now);
                let live = usable && bids.contains_key(kb) && now < bids[kb].expires;
                &&& !asks.contains_key(ka) ==> r == Outcome::Err(ContractError::AskNotFound {})
                &&& asks.contains_key(ka) && !mine ==> r == Outcome::Err(
                    ContractError::Unauthorized {},
                )
                &&& mine && !asks[ka].active ==> r == Outcome::Err(ContractError::AskNotActive {})
                &&& mine && asks[ka].active && now >= asks[ka].expires ==> r == Outcome::Err(
                    ContractError::AskExpired {},
                )
                &&& usable && !bids.contains_key(kb) ==> r == Outcome::Err(
                    ContractError::BidNotFound {},
                )
                &&& usable && bids.contains_key(kb) && now >= bids[kb].expires ==> r
                    == Outcome::Err(ContractError::BidExpired {})
                &&& live && royalty is None ==> r == Outcome::Err(
                    ContractError::NoRoyaltiesForTokenId {},
                )
                &&& live && royalty is Some && fee + royalty->Some_0.share > 100 ==> r == Outcome::Err(
                    ContractError::InvalidRoyalties {},
                )
                &&& r is Ok <==> live && royalty is Some && fee + royalty->Some_0.share <= 100
                &&& r is Ok ==> {
                    let sale = sale_of(asks[ka], bids[kb], royalty->Some_0, fee);
                    &&& *final(self) == old(self).with_pending(Some(sale))
                    &&& r->Ok_0@ == seq![
                        Action::TransferNft {
                            collection: sale.collection,
                            token_id: sale.token_id,
                            recipient: sale.buyer,
                            reply_id: SALE_REPLY_ID,
                        },
                    ]
                }
            }),
            r is Err ==> *final(self) == *old(self),
    {
        let i = match self.find_ask(collection, token_id) {
            None => {
                return Err(ContractError::AskNotFound {});
            },
            Some(i) => i,
        };
        if self.asks[i].seller != *sender {
            return Err(ContractError::Unauthorized {});
        }
        if !self.asks[i].active {
            return Err(ContractError::AskNotActive {});
        }
        if now >= self.asks[i].expires {
            return Err(ContractError::AskExpired {});
        }
        let j = match self.find_bid(collection, token_id, bidder) {
            None => {
                return Err(ContractError::BidNotFound {});
            },
            Some(j) => j,
        };
        if now >= self.bids[j].expires {
            return Err(ContractError::BidExpired {});
        }
        let info = match royalty {
            None => {
                return Err(ContractError::NoRoyaltiesForTokenId {});
            },
            Some(info) => info,
        };
        if (self.params.trading_fee_percent as u64) + (info.share as u64) > 100 {
            return Err(ContractError::InvalidRoyalties {});
        }
        let ask = &self.asks[i];
        let bid = &self.bids[j];
        let (fee, cut, remainder) = split_proceeds(
            bid.price.amount,
            self.params.trading_fee_percent,
            info.share,
        );
        let seller_recipient = match &ask.funds_recipient {
            Some(r) => copy_text(r),
            None => copy_text(&ask.seller),
        };
        let sale = PendingSale {
            reply_id: SALE_REPLY_ID,
            collection: ask.collection.clone(),
            token_id: ask.token_id.clone(),
            seller: ask.seller.clone(),
            buyer: bid.bidder.clone(),
            price: bid.price.copied(),
            fee,
            royalty: cut,
            royalty_recipient: info.payment_address,
            remainder,
            seller_recipient,
        };
        let transfer = vec![
            Action::TransferNft {
                collection: ask.collection.clone(),
                token_id: ask.token_id.clone(),
                recipient: bid.bidder.clone(),
                reply_id: SALE_REPLY_ID,
            },
        ];
        self.pending = Some(sale);
        Ok(transfer)
    }

    /// Handles the confirmation of a token transfer tagged `reply_id`. A tag
    /// that is not the pending sale's is refused. When the transfer failed,
    /// the pending sale is dropped and nothing else changes. When it
    /// succeeded, the proceeds are paid out, the ask and the accepted bid are
    /// removed, and every "sale-finalized" subscriber is notified.
    pub fn reply(&mut self, reply_id: u64, transfer_ok: bool) -> (r: Outcome)
        requires
            old(self).wf(),
        ensures
            final(self).wf(),
            ({
                let p = old(self).pending->Some_0;
                let matched = old(self).pending is Some && p.reply_id == reply_id;
                &&& !matched ==> r == Outcome::Err(ContractError::UnrecognisedReply(reply_id))
                    && *final(self) == *old(self)
                &&& matched ==> {
                    &&& r is Ok
                    &&& final(self).pending is None
                    &&& old(self).same_setup(final(self))
                    &&& !transfer_ok ==> *final(self) == old(self).with_pending(None)
                        && r->Ok_0@.len() == 0
                    &&& transfer_ok ==> {
                        &&& final(self).asks_view() == old(self).asks_view().remove(
                            (p.collection@, p.token_id@),
                        )
                        &&& final(self).bids_view() == old(self).bids_view().remove(
                            (p.collection@, p.token_id@, p.buyer@),
                        )
                        &&& r->Ok_0@ == payouts(p) + sale_notices(
                            old(self).sale_finalized_hooks@,
                            p,
                        )
                    }
                }
            }),
    {
        let matched = match &self.pending {
            Some(p) => p.reply_id == reply_id,
            None => false,
        };
        if !matched {
            return Err(ContractError::UnrecognisedReply(reply_id));
        }
        let p = self.pending.take().unwrap();
        if !transfer_ok {
            return Ok(Vec::new());
        }
        let ghost asks0 = self.asks_view();
        let ghost bids0 = self.bids_view();
        match self.find_ask(&p.collection, &p.token_id) {
            Some(i) => {
                self.drop_ask_at(i);
            },
            None => {
                assert(asks0.remove((p.collection@, p.token_id@)) =~= asks0);
            },
        }
        match self.find_bid(&p.collection, &p.token_id, &p.buyer) {
            Some(j) => {
                self.drop_bid_at(j);
            },
            None => {
                assert(bids0.remove((p.collection@, p.token_id@, p.buyer@)) =~= bids0);
            },
        }
        Ok(sale_actions(&self.sale_finalized_hooks, &p))
    }
}

} // verus!
