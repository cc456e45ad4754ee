//! The settlement core of an NFT marketplace: listings ("asks"), escrowed
//! offers ("bids"), and two-phase settlement that splits a sale's proceeds
//! between the trading fee, the royalty and the seller.

pub mod asks;
pub mod bids;
pub mod error;
pub mod index;
pub mod market;
pub mod msg;
pub mod order;
pub mod payment;
pub mod query;
pub mod settlement;
pub mod state;
pub mod sudo;
