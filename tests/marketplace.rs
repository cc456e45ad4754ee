use marketplace::error::{ContractError, HookError, PaymentError};
use marketplace::market::Marketplace;
use marketplace::msg::{InstantiateMsg, SudoMsg};
use marketplace::order::{less_than, page_keys};
use marketplace::payment::{percent_of_amount, split_proceeds};
use marketplace::settlement::SALE_REPLY_ID;
use marketplace::state::{Action, Coin, RoyaltyInfo, SudoParams};
use marketplace::sudo::{
    sudo, sudo_add_listed_hook, sudo_add_sale_finalized_hook, sudo_remove_listed_hook,
    sudo_update_params,
};

const T: u64 = 1_000_000;

fn s(x: &str) -> String {
    x.to_string()
}

fn params() -> SudoParams {
    SudoParams {
        trading_fee_percent: 2,
        ask_expiry: (60, 10_000),
        bid_expiry: (60, 10_000),
        operators: vec![s("operator")],
    }
}

fn market() -> Marketplace {
    Marketplace::instantiate(InstantiateMsg { admin: s("admin") }, params())
}

fn stars(amount: u128) -> Coin {
    Coin::new("ustars", amount)
}

fn list(m: &mut Marketplace, price: u128, expires: u64) -> Result<Vec<Action>, ContractError> {
    m.set_ask(&s("seller"), T, &s("seller"), true, s("c1"), s("1"), stars(price), None, expires)
}

fn bid(m: &mut Marketplace, bidder: &str, funds: Vec<Coin>, expires: u64) -> Result<Vec<Action>, ContractError> {
    m.set_bid(&s(bidder), T, &funds, s("c1"), s("1"), expires)
}

fn royalty(share: u32) -> Option<RoyaltyInfo> {
    Some(RoyaltyInfo { payment_address: s("artist"), share })
}

#[test]
fn sale_scenario_splits_and_finalizes() {
    let mut m = market();
    sudo_add_sale_finalized_hook(&mut m, s("sale_hook")).unwrap();
    list(&mut m, 100, T + 1000).unwrap();
    bid(&mut m, "b1", vec![stars(100)], T + 500).unwrap();
    let out = m.accept_bid(&s("seller"), T, &s("c1"), &s("1"), &s("b1"), royalty(5)).unwrap();
    assert_eq!(
        out,
        vec![Action::TransferNft {
            collection: s("c1"),
            token_id: s("1"),
            recipient: s("b1"),
            reply_id: SALE_REPLY_ID
        }]
    );
    let pending = m.pending.clone().unwrap();
    assert_eq!((pending.fee, pending.royalty, pending.remainder), (2, 5, 93));
    // nothing is removed before the transfer is confirmed
    assert!(m.query_current_ask(&s("c1"), &s("1")).ask.is_some());
    let done = m.reply(SALE_REPLY_ID, true).unwrap();
    assert_eq!(
        done,
        vec![
            Action::FeePayment { amount: stars(2) },
            Action::BankSend { to: s("artist"), amount: stars(5) },
            Action::BankSend { to: s("seller"), amount: stars(93) },
            Action::NotifySaleFinalized {
                hook: s("sale_hook"),
                collection: s("c1"),
                token_id: s("1"),
                price: stars(100),
                seller: s("seller"),
                buyer: s("b1"),
            },
        ]
    );
    assert_eq!(m.query_current_ask(&s("c1"), &s("1")).ask, None);
    assert_eq!(m.query_bid(&s("c1"), &s("1"), &s("b1")).bid, None);
    assert!(m.pending.is_none());
}

#[test]
fn funds_recipient_receives_remainder() {
    let mut m = market();
    m.set_ask(&s("seller"), T, &s("seller"), true, s("c1"), s("1"), stars(1000), Some(s("vault")), T + 100)
        .unwrap();
    bid(&mut m, "b1", vec![stars(1000)], T + 100).unwrap();
    m.accept_bid(&s("seller"), T, &s("c1"), &s("1"), &s("b1"), royalty(10)).unwrap();
    let done = m.reply(SALE_REPLY_ID, true).unwrap();
    assert_eq!(done[2], Action::BankSend { to: s("vault"), amount: stars(880) });
}

#[test]
fn bid_in_other_denom_is_refused() {
    let mut m = market();
    list(&mut m, 100, T + 1000).unwrap();
    let r = bid(&mut m, "b1", vec![Coin::new("ucosm", 50)], T + 500);
    assert_eq!(r, Err(ContractError::IncorrectBidFunds {}));
    assert_eq!(m.query_bid(&s("c1"), &s("1"), &s("b1")).bid, None);
    assert!(m.bids.is_empty());
}

#[test]
fn accept_by_non_seller_is_unauthorized() {
    let mut m = market();
    list(&mut m, 100, T + 1000).unwrap();
    bid(&mut m, "b1", vec![stars(100)], T + 500).unwrap();
    let asks = m.asks.clone();
    let bids = m.bids.clone();
    let r = m.accept_bid(&s("mallory"), T, &s("c1"), &s("1"), &s("b1"), royalty(5));
    assert_eq!(r, Err(ContractError::Unauthorized {}));
    assert_eq!(m.asks, asks);
    assert_eq!(m.bids, bids);
    assert!(m.pending.is_none());
}

#[test]
fn accept_on_expired_ask_changes_nothing() {
    let mut m = market();
    list(&mut m, 100, T + 100).unwrap();
    bid(&mut m, "b1", vec![stars(100)], T + 500).unwrap();
    let asks = m.asks.clone();
    let bids = m.bids.clone();
    let r = m.accept_bid(&s("seller"), T + 100, &s("c1"), &s("1"), &s("b1"), royalty(5));
    assert_eq!(r, Err(ContractError::AskExpired {}));
    assert_eq!(m.asks, asks);
    assert_eq!(m.bids, bids);
    assert!(m.pending.is_none());
}

#[test]
fn accept_errors_in_order() {
    let mut m = market();
    let r = m.accept_bid(&s("seller"), T, &s("c1"), &s("1"), &s("b1"), royalty(5));
    assert_eq!(r, Err(ContractError::AskNotFound {}));
    list(&mut m, 100, T + 1000).unwrap();
    let r = m.accept_bid(&s("seller"), T, &s("c1"), &s("1"), &s("b1"), royalty(5));
    assert_eq!(r, Err(ContractError::BidNotFound {}));
    bid(&mut m, "b1", vec![stars(100)], T + 100).unwrap();
    let r = m.accept_bid(&s("seller"), T + 100, &s("c1"), &s("1"), &s("b1"), royalty(5));
    assert_eq!(r, Err(ContractError::BidExpired {}));
    let r = m.accept_bid(&s("seller"), T, &s("c1"), &s("1"), &s("b1"), None);
    assert_eq!(r, Err(ContractError::NoRoyaltiesForTokenId {}));
    let r = m.accept_bid(&s("seller"), T, &s("c1"), &s("1"), &s("b1"), royalty(99));
    assert_eq!(r, Err(ContractError::InvalidRoyalties {}));
    assert!(m.accept_bid(&s("seller"), T, &s("c1"), &s("1"), &s("b1"), royalty(98)).is_ok());
}

#[test]
fn inactive_ask_cannot_be_accepted_or_bid_on() {
    let mut m = market();
    list(&mut m, 100, T + 1000).unwrap();
    bid(&mut m, "b1", vec![stars(100)], T + 500).unwrap();
    m.update_ask_state(&s("operator"), &s("c1"), &s("1"), false).unwrap();
    let r = m.accept_bid(&s("seller"), T, &s("c1"), &s("1"), &s("b1"), royalty(5));
    assert_eq!(r, Err(ContractError::AskNotActive {}));
    let r = bid(&mut m, "b2", vec![stars(100)], T + 500);
    assert_eq!(r, Err(ContractError::AskNotActive {}));
}

#[test]
fn failed_transfer_rolls_back() {
    let mut m = market();
    list(&mut m, 100, T + 1000).unwrap();
    bid(&mut m, "b1", vec![stars(100)], T + 500).unwrap();
    let asks = m.asks.clone();
    let bids = m.bids.clone();
    m.accept_bid(&s("seller"), T, &s("c1"), &s("1"), &s("b1"), royalty(5)).unwrap();
    assert_eq!(m.reply(SALE_REPLY_ID, false), Ok(vec![]));
    assert_eq!(m.asks, asks);
    assert_eq!(m.bids, bids);
    assert!(m.pending.is_none());
}

#[test]
fn unknown_reply_is_refused() {
    let mut m = market();
    assert_eq!(m.reply(SALE_REPLY_ID, true), Err(ContractError::UnrecognisedReply(SALE_REPLY_ID)));
    list(&mut m, 100, T + 1000).unwrap();
    bid(&mut m, "b1", vec![stars(100)], T + 500).unwrap();
    m.accept_bid(&s("seller"), T, &s("c1"), &s("1"), &s("b1"), royalty(5)).unwrap();
    assert_eq!(m.reply(77, true), Err(ContractError::UnrecognisedReply(77)));
    assert!(m.pending.is_some());
}

#[test]
fn set_ask_stores_price_and_expiry() {
    let mut m = market();
    sudo_add_listed_hook(&mut m, s("list_hook")).unwrap();
    let out = list(&mut m, 250, T + 60).unwrap();
    assert_eq!(
        out,
        vec![Action::NotifyListed {
            hook: s("list_hook"),
            collection: s("c1"),
            token_id: s("1"),
            price: stars(250),
            seller: s("seller"),
        }]
    );
    let ask = m.query_current_ask(&s("c1"), &s("1")).ask.unwrap();
    assert_eq!(ask.price, stars(250));
    assert_eq!(ask.expires, T + 60);
    assert!(ask.active);
    assert_eq!(ask.seller, s("seller"));
}

#[test]
fn set_ask_errors() {
    let mut m = market();
    let r = m.set_ask(&s("other"), T, &s("seller"), true, s("c1"), s("1"), stars(1), None, T + 100);
    assert_eq!(r, Err(ContractError::Unauthorized {}));
    let r = m.set_ask(&s("seller"), T, &s("seller"), false, s("c1"), s("1"), stars(1), None, T + 100);
    assert_eq!(r, Err(ContractError::NeedsApproval {}));
    assert_eq!(list(&mut m, 1, T + 59), Err(ContractError::InvalidExpiration {}));
    assert_eq!(list(&mut m, 1, T + 10_001), Err(ContractError::InvalidExpiration {}));
    assert_eq!(list(&mut m, 0, T + 100), Err(ContractError::InvalidPrice {}));
    assert!(m.asks.is_empty());
    assert!(list(&mut m, 1, T + 10_000).is_ok());
    // a zero price is refused whoever asks
    let r = m.set_ask(&s("other"), T, &s("seller"), false, s("c1"), s("1"), stars(0), None, T);
    assert_eq!(r, Err(ContractError::InvalidPrice {}));
}

#[test]
fn set_ask_overwrites() {
    let mut m = market();
    list(&mut m, 100, T + 100).unwrap();
    list(&mut m, 300, T + 200).unwrap();
    assert_eq!(m.query_ask_count(&s("c1")).count, 1);
    assert_eq!(m.query_current_ask(&s("c1"), &s("1")).ask.unwrap().price, stars(300));
}

#[test]
fn rebid_refunds_previous_escrow() {
    let mut m = market();
    list(&mut m, 100, T + 1000).unwrap();
    assert_eq!(bid(&mut m, "b1", vec![stars(40)], T + 500), Ok(vec![]));
    let r = bid(&mut m, "b1", vec![stars(70)], T + 500).unwrap();
    assert_eq!(r, vec![Action::BankSend { to: s("b1"), amount: stars(40) }]);
    let r = bid(&mut m, "b1", vec![stars(90)], T + 600).unwrap();
    assert_eq!(r, vec![Action::BankSend { to: s("b1"), amount: stars(70) }]);
    assert_eq!(m.bids.len(), 1);
    assert_eq!(m.query_bid(&s("c1"), &s("1"), &s("b1")).bid.unwrap().price, stars(90));
}

#[test]
fn bidders_are_independent() {
    let mut m = market();
    list(&mut m, 100, T + 1000).unwrap();
    bid(&mut m, "b1", vec![stars(40)], T + 500).unwrap();
    bid(&mut m, "b2", vec![stars(50)], T + 500).unwrap();
    assert_eq!(m.query_bids(&s("c1"), &s("1"), None, None).bids.len(), 2);
    assert_eq!(m.query_bids_by_bidder(&s("b2")).bids[0].price, stars(50));
}

#[test]
fn bid_payment_errors() {
    let mut m = market();
    list(&mut m, 100, T + 1000).unwrap();
    assert_eq!(
        bid(&mut m, "b1", vec![], T + 500),
        Err(ContractError::BidPaymentError(PaymentError::NoFunds {}))
    );
    assert_eq!(
        bid(&mut m, "b1", vec![stars(0)], T + 500),
        Err(ContractError::BidPaymentError(PaymentError::NoFunds {}))
    );
    assert_eq!(
        bid(&mut m, "b1", vec![stars(1), Coin::new("ucosm", 1)], T + 500),
        Err(ContractError::BidPaymentError(PaymentError::MultipleDenoms {}))
    );
    assert_eq!(bid(&mut m, "b1", vec![stars(1)], T + 10), Err(ContractError::InvalidExpiration {}));
    assert!(m.bids.is_empty());
}

#[test]
fn bid_on_missing_or_expired_ask() {
    let mut m = market();
    assert_eq!(bid(&mut m, "b1", vec![stars(1)], T + 500), Err(ContractError::AskNotFound {}));
    list(&mut m, 100, T + 100).unwrap();
    let r = m.set_bid(&s("b1"), T + 100, &vec![stars(1)], s("c1"), s("1"), T + 500);
    assert_eq!(r, Err(ContractError::AskExpired {}));
}

#[test]
fn remove_bid_refunds_in_full() {
    let mut m = market();
    list(&mut m, 100, T + 1000).unwrap();
    bid(&mut m, "b1", vec![stars(64)], T + 500).unwrap();
    let r = m.remove_bid(&s("b1"), &s("c1"), &s("1"), &s("b1")).unwrap();
    assert_eq!(r, vec![Action::BankSend { to: s("b1"), amount: stars(64) }]);
    assert_eq!(m.query_bid(&s("c1"), &s("1"), &s("b1")).bid, None);
    assert_eq!(m.remove_bid(&s("b1"), &s("c1"), &s("1"), &s("b1")), Err(ContractError::BidNotFound {}));
}

#[test]
fn remove_bid_permissions() {
    let mut m = market();
    list(&mut m, 100, T + 1000).unwrap();
    bid(&mut m, "b1", vec![stars(64)], T + 500).unwrap();
    assert_eq!(m.remove_bid(&s("b2"), &s("c1"), &s("1"), &s("b1")), Err(ContractError::Unauthorized {}));
    assert!(m.remove_bid(&s("operator"), &s("c1"), &s("1"), &s("b1")).is_ok());
}

#[test]
fn update_ask_state_twice_is_once() {
    let mut m = market();
    list(&mut m, 100, T + 1000).unwrap();
    m.update_ask_state(&s("admin"), &s("c1"), &s("1"), false).unwrap();
    let once = m.asks.clone();
    m.update_ask_state(&s("admin"), &s("c1"), &s("1"), false).unwrap();
    assert_eq!(m.asks, once);
    assert!(!m.query_current_ask(&s("c1"), &s("1")).ask.unwrap().active);
}

#[test]
fn update_ask_state_errors() {
    let mut m = market();
    let r = m.update_ask_state(&s("seller"), &s("c1"), &s("1"), false);
    assert_eq!(r, Err(ContractError::Unauthorized {}));
    let r = m.update_ask_state(&s("operator"), &s("c1"), &s("1"), false);
    assert_eq!(r, Err(ContractError::AskNotFound {}));
}

#[test]
fn update_ask_changes_price_only() {
    let mut m = market();
    list(&mut m, 100, T + 1000).unwrap();
    m.update_ask(&s("seller"), T, &s("c1"), &s("1"), stars(150)).unwrap();
    let ask = m.query_current_ask(&s("c1"), &s("1")).ask.unwrap();
    assert_eq!(ask.price, stars(150));
    assert_eq!(ask.expires, T + 1000);
    assert_eq!(m.update_ask(&s("x"), T, &s("c1"), &s("1"), stars(1)), Err(ContractError::Unauthorized {}));
    assert_eq!(m.update_ask(&s("seller"), T, &s("c1"), &s("1"), stars(0)), Err(ContractError::InvalidPrice {}));
    assert_eq!(
        m.update_ask(&s("seller"), T + 1000, &s("c1"), &s("1"), stars(1)),
        Err(ContractError::AskExpired {})
    );
    m.update_ask_state(&s("admin"), &s("c1"), &s("1"), false).unwrap();
    assert_eq!(m.update_ask(&s("seller"), T, &s("c1"), &s("1"), stars(1)), Err(ContractError::AskNotActive {}));
}

#[test]
fn remove_ask_by_seller_only() {
    let mut m = market();
    assert_eq!(m.remove_ask(&s("seller"), &s("c1"), &s("1")), Err(ContractError::AskNotFound {}));
    list(&mut m, 100, T + 1000).unwrap();
    bid(&mut m, "b1", vec![stars(64)], T + 500).unwrap();
    assert_eq!(m.remove_ask(&s("b1"), &s("c1"), &s("1")), Err(ContractError::Unauthorized {}));
    assert_eq!(m.remove_ask(&s("seller"), &s("c1"), &s("1")), Ok(vec![]));
    assert_eq!(m.query_current_ask(&s("c1"), &s("1")).ask, None);
    // bids stay until withdrawn
    assert!(m.query_bid(&s("c1"), &s("1"), &s("b1")).bid.is_some());
}

#[test]
fn queries_filter_by_field() {
    let mut m = market();
    list(&mut m, 100, T + 1000).unwrap();
    m.set_ask(&s("seller"), T, &s("seller"), true, s("c1"), s("2"), stars(5), None, T + 1000).unwrap();
    m.set_ask(&s("other"), T, &s("other"), true, s("c2"), s("1"), stars(5), None, T + 1000).unwrap();
    assert_eq!(m.query_asks(&s("c1"), None, None).asks.len(), 2);
    assert_eq!(m.query_ask_count(&s("c2")).count, 1);
    assert_eq!(m.query_asks_by_seller(&s("other")).asks[0].collection, s("c2"));
    assert_eq!(m.query_ask_count(&s("c3")).count, 0);
}

#[test]
fn split_exact_values() {
    assert_eq!(split_proceeds(100, 2, 5), (2, 5, 93));
    assert_eq!(split_proceeds(99, 2, 5), (1, 4, 94));
    assert_eq!(split_proceeds(0, 50, 50), (0, 0, 0));
    assert_eq!(split_proceeds(7, 100, 0), (7, 0, 0));
    let (f, r, m) = split_proceeds(u128::MAX, 30, 70);
    assert_eq!(f + r + m, u128::MAX);
    assert_eq!(percent_of_amount(u128::MAX, 100), u128::MAX);
    assert_eq!(percent_of_amount(199, 50), 99);
}

#[test]
fn update_params_keeps_unset_fields() {
    let mut m = market();
    sudo_update_params(&mut m, Some(5), None, Some((1, 2)), None).unwrap();
    assert_eq!(m.params.trading_fee_percent, 5);
    assert_eq!(m.params.ask_expiry, (60, 10_000));
    assert_eq!(m.params.bid_expiry, (1, 2));
    assert_eq!(m.params.operators, vec![s("operator")]);
    sudo_update_params(&mut m, None, None, None, Some(vec![s("a"), s("b")])).unwrap();
    assert_eq!(m.params.operators, vec![s("a"), s("b")]);
    assert_eq!(m.params.trading_fee_percent, 5);
}

#[test]
fn hook_registry_membership() {
    let mut m = market();
    assert_eq!(sudo_add_listed_hook(&mut m, s("h")), Ok(vec![]));
    assert_eq!(
        sudo_add_listed_hook(&mut m, s("h")),
        Err(ContractError::Hook(HookError::HookAlreadyRegistered {}))
    );
    assert_eq!(m.listed_hooks, vec![s("h")]);
    assert_eq!(sudo_remove_listed_hook(&mut m, &s("h")), Ok(vec![]));
    assert_eq!(
        sudo_remove_listed_hook(&mut m, &s("h")),
        Err(ContractError::Hook(HookError::HookNotRegistered {}))
    );
    assert!(m.listed_hooks.is_empty());
}

#[test]
fn sudo_dispatches() {
    let mut m = market();
    sudo(&mut m, SudoMsg::AddSaleFinalizedHook { hook: s("x") }).unwrap();
    sudo(&mut m, SudoMsg::AddListedHook { hook: s("y") }).unwrap();
    assert_eq!(m.sale_finalized_hooks, vec![s("x")]);
    assert_eq!(m.listed_hooks, vec![s("y")]);
    sudo(&mut m, SudoMsg::RemoveSaleFinalizedHook { hook: s("x") }).unwrap();
    assert!(m.sale_finalized_hooks.is_empty());
    let r = sudo(&mut m, SudoMsg::RemoveListedHook { hook: s("z") });
    assert_eq!(r, Err(ContractError::Hook(HookError::HookNotRegistered {})));
    sudo(
        &mut m,
        SudoMsg::UpdateParams {
            trading_fee_percent: Some(3),
            ask_expiry: None,
            bid_expiry: None,
            operators: None,
        },
    )
    .unwrap();
    assert_eq!(m.params.trading_fee_percent, 3);
}

fn tokens(m: &Marketplace, after: Option<&str>, limit: Option<u32>) -> Vec<String> {
    m.query_asks(&s("c1"), after.map(s), limit).asks.into_iter().map(|a| a.token_id).collect()
}

#[test]
fn asks_are_paged_in_token_order() {
    let mut m = market();
    for t in ["3", "1", "2", "10"] {
        m.set_ask(&s("seller"), T, &s("seller"), true, s("c1"), s(t), stars(5), None, T + 1000).unwrap();
    }
    m.set_ask(&s("seller"), T, &s("seller"), true, s("c0"), s("0"), stars(5), None, T + 1000).unwrap();
    assert_eq!(tokens(&m, None, None), vec![s("1"), s("10"), s("2"), s("3")]);
    assert_eq!(tokens(&m, None, Some(2)), vec![s("1"), s("10")]);
    assert_eq!(tokens(&m, Some("10"), Some(2)), vec![s("2"), s("3")]);
    assert_eq!(tokens(&m, Some("3"), None), Vec::<String>::new());
    assert_eq!(tokens(&m, None, Some(0)), Vec::<String>::new());
}

#[test]
fn page_size_is_capped() {
    let keys: Vec<String> = (0..50).map(|i| format!("{:02}", i)).collect();
    assert_eq!(page_keys(&keys, &None, 30).len(), 30);
    let mut m = market();
    for k in &keys {
        m.set_ask(&s("seller"), T, &s("seller"), true, s("c1"), k.clone(), stars(5), None, T + 1000).unwrap();
    }
    assert_eq!(m.query_asks(&s("c1"), None, Some(100)).asks.len(), 30);
    assert_eq!(m.query_asks(&s("c1"), None, None).asks.len(), 10);
    assert_eq!(m.query_asks(&s("c1"), Some(s("45")), Some(100)).asks.len(), 4);
}

#[test]
fn bids_are_paged_by_bidder() {
    let mut m = market();
    list(&mut m, 100, T + 1000).unwrap();
    for b in ["carol", "alice", "bob"] {
        bid(&mut m, b, vec![stars(10)], T + 500).unwrap();
    }
    let page = m.query_bids(&s("c1"), &s("1"), Some(s("alice")), Some(5)).bids;
    let names: Vec<String> = page.into_iter().map(|b| b.bidder).collect();
    assert_eq!(names, vec![s("bob"), s("carol")]);
}

#[test]
fn listed_collections_are_distinct_and_ordered() {
    let mut m = market();
    for (c, t) in [("c2", "1"), ("c1", "1"), ("c1", "2"), ("c3", "9")] {
        m.set_ask(&s("seller"), T, &s("seller"), true, s(c), s(t), stars(5), None, T + 1000).unwrap();
    }
    assert_eq!(m.query_listed_collections(None, None).collections, vec![s("c1"), s("c2"), s("c3")]);
    assert_eq!(m.query_listed_collections(Some(s("c1")), Some(1)).collections, vec![s("c2")]);
}

#[test]
fn text_order() {
    assert!(less_than(&s("a"), &s("ab")));
    assert!(!less_than(&s("ab"), &s("a")));
    assert!(less_than(&s("ab"), &s("b")));
    assert!(!less_than(&s("x"), &s("x")));
    assert!(less_than(&s(""), &s("a")));
    assert!(less_than(&s("Z"), &s("a")));
}

#[test]
fn trading_fee_above_hundred_is_refused() {
    let mut m = market();
    assert_eq!(sudo_update_params(&mut m, Some(101), Some((1, 2)), None, None), Err(ContractError::InvalidTradingFee {}));
    assert_eq!(m.params, params());
    let r = sudo(
        &mut m,
        SudoMsg::UpdateParams { trading_fee_percent: Some(u32::MAX), ask_expiry: None, bid_expiry: None, operators: None },
    );
    assert_eq!(r, Err(ContractError::InvalidTradingFee {}));
    assert_eq!(m.params.trading_fee_percent, 2);
    assert_eq!(sudo_update_params(&mut m, Some(100), None, None, None), Ok(vec![]));
    assert_eq!(m.params.trading_fee_percent, 100);
}

#[test]
fn removed_hook_gets_no_later_notice() {
    let mut m = market();
    sudo_add_listed_hook(&mut m, s("h1")).unwrap();
    sudo_add_listed_hook(&mut m, s("h2")).unwrap();
    sudo_remove_listed_hook(&mut m, &s("h1")).unwrap();
    assert_eq!(m.listed_hooks, vec![s("h2")]);
    let out = list(&mut m, 100, T + 1000).unwrap();
    assert_eq!(out.len(), 1);
    assert!(matches!(&out[0], Action::NotifyListed { hook, .. } if hook == "h2"));
}

#[test]
fn operations_keep_hooks_and_admin() {
    let mut m = market();
    sudo_add_listed_hook(&mut m, s("h")).unwrap();
    sudo_add_sale_finalized_hook(&mut m, s("g")).unwrap();
    list(&mut m, 100, T + 1000).unwrap();
    bid(&mut m, "b1", vec![stars(100)], T + 500).unwrap();
    m.update_ask_state(&s("operator"), &s("c1"), &s("1"), false).unwrap();
    m.update_ask_state(&s("operator"), &s("c1"), &s("1"), false).unwrap();
    m.remove_bid(&s("b1"), &s("c1"), &s("1"), &s("b1")).unwrap();
    assert_eq!(m.listed_hooks, vec![s("h")]);
    assert_eq!(m.sale_finalized_hooks, vec![s("g")]);
    assert_eq!(m.admin, s("admin"));
}
