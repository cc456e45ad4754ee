//! Reading the funds attached to a call, and splitting a sale's proceeds.
use crate::error::PaymentError;
use crate::state::Coin;
use vstd::prelude::*;

verus! {

/// The coin read from a call's funds, or why none could be read.
pub type Paid = Result<Coin, PaymentError>;

/// Relies on cw_utils::one_coin: the funds are accepted when they are
/// exactly one coin of nonzero amount, which is returned; no funds, or one
/// coin of zero amount, give NoFunds; two or more coins give MultipleDenoms.
#[verifier::external_body]
pub(crate) fn one_coin(funds: &Vec<Coin>) -> (r: Paid)
    ensures
        funds.len() == 1 && funds[0].amount != 0 ==> r == Paid::Ok(funds[0]),
        funds.len() == 0 ==> r == Paid::Err(PaymentError::NoFunds {}),
        funds.len() == 1 && funds[0].amount == 0 ==> r == Paid::Err(PaymentError::NoFunds {}),
        funds.len() > 1 ==> r == Paid::Err(PaymentError::MultipleDenoms {}),
{
    let funds = funds.iter().map(|c| cosmwasm_std::Coin::new(c.amount, c.denom.clone())).collect();
    let info = cosmwasm_std::MessageInfo { sender: cosmwasm_std::Addr::unchecked(""), funds };
    match cw_utils::one_coin(&info) {
        Ok(c) => Ok(Coin { denom: c.denom, amount: c.amount.u128() }),
        Err(cw_utils::PaymentError::MissingDenom(d)) => Err(PaymentError::MissingDenom(d)),
        Err(cw_utils::PaymentError::ExtraDenom(d)) => Err(PaymentError::ExtraDenom(d)),
        Err(cw_utils::PaymentError::MultipleDenoms {}) => Err(PaymentError::MultipleDenoms {}),
        Err(cw_utils::PaymentError::NoFunds {}) => Err(PaymentError::NoFunds {}),
        Err(cw_utils::PaymentError::NonPayable {}) => Err(PaymentError::NonPayable {}),
    }
}

/// `percent` percent of `amount`, rounded down.
pub open spec fn percent_of(amount: int, percent: int) -> int {
    amount * percent / 100
}

/// `percent` percent of `amount`, rounded down, computed without overflow.
pub fn percent_of_amount(amount: u128, percent: u32) -> (r: u128)
    requires
        percent <= 100,
    ensures
        r == percent_of(amount as int, percent as int),
        r <= amount,
{
    let q: u128 = amount / 100;
    let m: u128 = amount % 100;
    proof {
        let (a, p, qi, mi) = (amount as int, percent as int, q as int, m as int);
        assert(a == 100 * qi + mi) by (nonlinear_arith)
            requires qi == a / 100, mi == a % 100;
        assert(a * p / 100 == qi * p + mi * p / 100) by (nonlinear_arith)
            requires a == 100 * qi + mi, 0 <= mi < 100, 0 <= p <= 100, qi >= 0;
        assert(qi * p + mi * p / 100 <= a) by (nonlinear_arith)
            requires a == 100 * qi + mi, 0 <= mi < 100, 0 <= p <= 100, qi >= 0;
        assert(qi * p <= qi * 100) by (nonlinear_arith)
            requires 0 <= p <= 100, qi >= 0;
        assert(mi * p <= 100 * 100) by (nonlinear_arith)
            requires 0 <= p <= 100, 0 <= mi < 100;
    }
    q * (percent as u128) + m * (percent as u128) / 100
}

/// The trading fee, the royalty and the seller's remainder of a sale at
/// `amount`, with fee and royalty shares in percent that sum to at most 100.
pub fn split_proceeds(amount: u128, fee_percent: u32, royalty_percent: u32) -> (r: (u128, u128, u128))
    requires
        fee_percent + royalty_percent <= 100,
    ensures
        r.0 == percent_of(amount as int, fee_percent as int),
        r.1 == percent_of(amount as int, royalty_percent as int),
        r.2 == amount - r.0 - r.1,
        r.0 + r.1 + r.2 == amount,
{
    let fee = percent_of_amount(amount, fee_percent);
    let royalty = percent_of_amount(amount, royalty_percent);
    proof {
        lemma_percent_sum(amount as int, fee_percent as int, royalty_percent as int);
    }
    (fee, royalty, amount - fee - royalty)
}

/// Fee and royalty taken from one amount never exceed it when their shares
/// sum to at most 100 percent: the three parts of a sale add up exactly.
pub proof fn lemma_percent_sum(amount: int, fee_percent: int, royalty_percent: int)
    requires
        amount >= 0,
        fee_percent >= 0,
        royalty_percent >= 0,
        fee_percent + royalty_percent <= 100,
    ensures
        0 <= percent_of(amount, fee_percent),
        0 <= percent_of(amount, royalty_percent),
        percent_of(amount, fee_percent) + percent_of(amount, royalty_percent) <= amount,
{
    let (a, f, s) = (amount, fee_percent, royalty_percent);
    assert(a * f / 100 + a * s / 100 <= (a * f + a * s) / 100) by (nonlinear_arith)
        requires a >= 0, f >= 0, s >= 0;
    assert((a * f + a * s) / 100 <= a) by (nonlinear_arith)
        requires a >= 0, f >= 0, s >= 0, f + s <= 100;
    assert(0 <= a * f / 100 && 0 <= a * s / 100) by (nonlinear_arith)
        requires a >= 0, f >= 0, s >= 0;
}

} // verus!
