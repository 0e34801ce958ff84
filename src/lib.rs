//! Lease agreements represented as transferable ownership tokens, and the
//! marketplace intake that turns token approvals into rental listings.
pub mod ledger;
pub mod marketplace;
pub mod nft;
pub mod resolve;
pub mod token_id;
