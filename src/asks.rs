//! Creating, updating, deactivating and removing asks.
use crate::error::ContractError;
use crate::market::{Marketplace, Outcome, ask_usable, expiry_in, within_expiry};
use crate::state::{Action, Ask, AskKey, Coin, ask_key};
use vstd::prelude::*;

verus! {

/// The notifications sent to each "listed" subscriber for `ask`.
pub open spec fn listed_notices(hooks: Seq<String>, ask: Ask) -> Seq<Action> {
    Seq::new(
        hooks.len(),
        |i: int|
            Action::NotifyListed {
                hook: hooks[i],
                collection: ask.collection,
                token_id: ask.token_id,
                price: ask.price,
                seller: ask.seller,
            },
    )
}

/// The asks after the ask at `k` has its active flag set to `active`.
pub open spec fn with_ask_state(asks: Map<AskKey, Ask>, k: AskKey, active: bool) -> Map<AskKey, Ask> {
    asks.insert(k, asks[k].with_active(active))
}

/// The asks after the ask at `k` has its price set to `price`.
pub open spec fn with_ask_price(asks: Map<AskKey, Ask>, k: AskKey, price: Coin) -> Map<AskKey, Ask> {
    asks.insert(k, asks[k].with_price(price))
}

/// Setting an ask's active flag twice in a row leaves the asks as setting it
/// once does.
pub proof fn lemma_ask_state_idempotent(asks: Map<AskKey, Ask>, k: AskKey, active: bool)
    requires
        asks.contains_key(k),
    ensures
        with_ask_state(with_ask_state(asks, k, active), k, active) == with_ask_state(asks, k, active),
{
    assert(with_ask_state(with_ask_state(asks, k, active), k, active) =~= with_ask_state(
        asks,
        k,
        active,
    ));
}

pub(crate) fn listed_actions(hooks: &Vec<String>, ask: &Ask) -> (r: Vec<Action>)
    ensures
        r@ == listed_notices(hooks@, *ask),
{
    let mut r: Vec<Action> = Vec::new();
    let mut i: usize = 0;
    while i < hooks.len()
        invariant
            i <= hooks.len(),
            r@ =~= listed_notices(hooks@.take(i as int), *ask),
        decreases hooks.len() - i,
    {
        r.push(
            Action::NotifyListed {
                hook: hooks[i].clone(),
                collection: ask.collection.clone(),
                token_id: ask.token_id.clone(),
                price: ask.price.copied(),
                seller: ask.seller.clone(),
            },
        );
        i += 1;
        assert(r@ =~= listed_notices(hooks@.take(i as int), *ask));
    }
    assert(hooks@.take(i as int) =~= hooks@);
    r
}

impl Marketplace {
    /// Lists a token: the price must be positive, `sender` must be the
    /// token's `owner` and must have approved the marketplace to transfer it,
    /// and the expiration must lie within the ask expiry bounds of `now`. Any ask on the
    /// same token is replaced, and every "listed" subscriber is notified.
    /// Bids on the token are kept as they are: each stays in escrow until
    /// its bidder withdraws it or it is accepted.
    pub fn set_ask(
        &mut self,
        sender: &String,
        now: u64,
        owner: &String,
        approved: bool,
        collection: String,
        token_id: String,
        price: Coin,
        funds_recipient: Option<String>,
        expires: u64,
    ) -> (r: Outcome)
        requires
            old(self).wf(),
        ensures
            final(self).wf(),
            price.amount == 0 ==> r == Outcome::Err(ContractError::InvalidPrice {}),
            price.amount > 0 && sender@ != owner@ ==> r == Outcome::Err(ContractError::Unauthorized {}),
            price.amount > 0 && sender@ == owner@ && !approved ==> r == Outcome::Err(
                ContractError::NeedsApproval {},
            ),
            price.amount > 0 && sender@ == owner@ && approved && !expiry_in(
                now,
                expires,
                old(self).params.ask_expiry,
            ) ==> r == Outcome::Err(ContractError::InvalidExpiration {}),
            r is Err ==> *final(self) == *old(self),
            r is Ok ==> {
                let ask = Ask {
                    collection,
                    token_id,
                    seller: *sender,
                    price,
                    funds_recipient,
                    expires,
                    active: true,
                };
                &&& final(self).asks_view() == old(self).asks_view().insert(ask_key(ask), ask)
                &&& final(self).bids == old(self).bids
                &&& old(self).same_setup(final(self))
                &&& final(self).pending == old(self).pending
                &&& r->Ok_0@ == listed_notices(old(self).listed_hooks@, ask)
            },
            r is Ok <==> sender@ == owner@ && approved && expiry_in(
                now,
                expires,
                old(self).params.ask_expiry,
            ) && price.amount > 0,
    {
        if price.amount == 0 {
            return Err(ContractError::InvalidPrice {});
        }
        if *sender != *owner {
            return Err(ContractError::Unauthorized {});
        }
        if !approved {
            return Err(ContractError::NeedsApproval {});
        }
        if !within_expiry(now, expires, self.params.ask_expiry) {
            return Err(ContractError::InvalidExpiration {});
        }
        let ask = Ask {
            collection,
            token_id,
            seller: sender.clone(),
            price,
            funds_recipient,
            expires,
            active: true,
        };
        let notices = listed_actions(&self.listed_hooks, &ask);
        self.put_ask(ask);
        Ok(notices)
    }

    /// Removes the ask on a token; only its seller may.
    pub fn remove_ask(&mut self, sender: &String, collection: &String, token_id: &String) -> (r:
        Outcome)
        requires
            old(self).wf(),
        ensures
            final(self).wf(),
            !old(self).asks_view().contains_key((collection@, token_id@)) ==> r == Outcome::Err(
                ContractError::AskNotFound {},
            ),
            old(self).asks_view().contains_key((collection@, token_id@)) && old(
                self,
            ).asks_view()[(collection@, token_id@)].seller@ != sender@ ==> r == Outcome::Err(
                ContractError::Unauthorized {},
            ),
            r is Err ==> *final(self) == *old(self),
            r is Ok ==> {
                &&& final(self).asks_view() == old(self).asks_view().remove((collection@, token_id@))
                &&& final(self).bids == old(self).bids
                &&& old(self).same_setup(final(self))
                &&& final(self).pending == old(self).pending
                &&& r->Ok_0@.len() == 0
            },
            r is Ok <==> old(self).asks_view().contains_key((collection@, token_id@)) && old(
                self,
            ).asks_view()[(collection@, token_id@)].seller@ == sender@,
    {
        match self.find_ask(collection, token_id) {
            None => Err(ContractError::AskNotFound {}),
            Some(i) => {
                if self.asks[i].seller != *sender {
                    return Err(ContractError::Unauthorized {});
                }
                self.drop_ask_at(i);
                Ok(Vec::new())
            },
        }
    }

    /// Sets the active flag of the ask on a token; only the admin or an
    /// operator may.
    pub fn update_ask_state(
        &mut self,
        sender: &String,
        collection: &String,
        token_id: &String,
        active: bool,
    ) -> (r: Outcome)
        requires
            old(self).wf(),
        ensures
            final(self).wf(),
            !old(self).is_operator(sender@) ==> r == Outcome::Err(ContractError::Unauthorized {}),
            old(self).is_operator(sender@) && !old(self).asks_view().contains_key(
                (collection@, token_id@),
            ) ==> r == Outcome::Err(ContractError::AskNotFound {}),
            r is Err ==> *final(self) == *old(self),
            r is Ok ==> {
                &&& final(self).asks_view() == with_ask_state(
                    old(self).asks_view(),
                    (collection@, token_id@),
                    active,
                )
                &&& final(self).bids == old(self).bids
                &&& old(self).same_setup(final(self))
                &&& final(self).pending == old(self).pending
                &&& r->Ok_0@.len() == 0
            },
            r is Ok <==> old(self).is_operator(sender@) && old(self).asks_view().contains_key(
                (collection@, token_id@),
            ),
    {
        if !self.check_operator(sender) {
            return Err(ContractError::Unauthorized {});
        }
        match self.find_ask(collection, token_id) {
            None => Err(ContractError::AskNotFound {}),
            Some(i) => {
                let mut ask = self.asks[i].copied();
                ask.active = active;
                self.put_ask(ask);
                Ok(Vec::new())
            },
        }
    }

    /// Changes the price of the ask on a token; only its seller may, while
    /// the ask is active and unexpired, and the new price must be positive.
    pub fn update_ask(
        &mut self,
        sender: &String,
        now: u64,
        collection: &String,
        token_id: &String,
        price: Coin,
    ) -> (r: Outcome)
        requires
            old(self).wf(),
        ensures
            final(self).wf(),
            ({
                let k = (collection@, token_id@);
                let asks = old(self).asks_view();
                &&& !asks.contains_key(k) ==> r == Outcome::Err(ContractError::AskNotFound {})
                &&& asks.contains_key(k) && asks[k].seller@ != sender@ ==> r == Outcome::Err(
                    ContractError::Unauthorized {},
                )
                &&& asks.contains_key(k) && asks[k].seller@ == sender@ && !asks[k].active ==> r
                    == Outcome::Err(ContractError::AskNotActive {})
                &&& asks.contains_key(k) && asks[k].seller@ == sender@ && asks[k].active && now
                    >= asks[k].expires ==> r == Outcome::Err(ContractError::AskExpired {})
                &&& asks.contains_key(k) && asks[k].seller@ == sender@ && ask_usable(asks[k], now)
                    && price.amount == 0 ==> r == Outcome::Err(ContractError::InvalidPrice {})
                &&& r is Ok <==> asks.contains_key(k) && asks[k].seller@ == sender@ && ask_usable(
                    asks[k],
                    now,
                ) && price.amount > 0
                &&& r is Ok ==> {
                    &&& final(self).asks_view() == with_ask_price(asks, k, price)
                    &&& final(self).bids == old(self).bids
                    &&& old(self).same_setup(final(self))
                    &&& final(self).pending == old(self).pending
                    &&& r->Ok_0@.len() == 0
                }
            }),
            r is Err ==> *final(self) == *old(self),
    {
        match self.find_ask(collection, token_id) {
            None => Err(ContractError::AskNotFound {}),
            Some(i) => {
                if self.asks[i].seller != *sender {
                    return Err(ContractError::Unauthorized {});
                }
                if !self.asks[i].active {
                    return Err(ContractError::AskNotActive {});
                }
                if now >= self.asks[i].expires {
                    return Err(ContractError::AskExpired {});
                }
                if price.amount == 0 {
                    return Err(ContractError::InvalidPrice {});
                }
                let mut ask = self.asks[i].copied();
                ask.price = price;
                self.put_ask(ask);
                Ok(Vec::new())
            },
        }
    }
}

} // verus!
