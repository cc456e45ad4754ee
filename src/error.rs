//! Errors of the marketplace operations.
use vstd::prelude::*;

verus! {

/// Why a payment attached to a call could not be read as one coin.
#[derive(Debug, Clone, PartialEq, Eq)]
pub enum PaymentError {
    MissingDenom(String),
    ExtraDenom(String),
    MultipleDenoms {},
    NoFunds {},
    NonPayable {},
}

/// Why a hook could not be registered or removed.
#[derive(Debug, Clone, PartialEq, Eq)]
pub enum HookError {
    HookAlreadyRegistered {},
    HookNotRegistered {},
}

#[derive(Debug, Clone, PartialEq, Eq)]
pub enum ContractError {
    Unauthorized {},
    InvalidRoyalties {},
    InvalidTradingFee {},
    NoRoyaltiesForTokenId {},
    IncorrectBidFunds {},
    InvalidExpiration {},
    InvalidPrice {},
    AskExpired {},
    AskNotActive {},
    AskNotFound {},
    BidExpired {},
    BidNotFound {},
    NeedsApproval {},
    UnrecognisedReply(u64),
    BidPaymentError(PaymentError),
    Hook(HookError),
}

} // verus!
