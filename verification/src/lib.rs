//! Ledger-resident core of the shihon content-ranking and succession game.
//!
//! Participants escrow KickerCoin against content tokens (`BcToken`), a
//! coordinator accepts or denies the escrow, accepted parties form a bounded
//! ring (`Tanistry`) whose candidates deposit stake, mix and rate each other's
//! content round by round, resell excess-rated stake on a secondary market,
//! and finally elect a new coordinator and cast terminal governance votes.
//!
//! The crate is a pure state machine: the whole ledger is an in-memory value
//! and every instruction is a total function from ledger, signers and clock to
//! a new ledger or an error.  Value custody and the host runtime stay outside;
//! the one outside call is program-derived-address computation.

pub mod addresses;
pub mod bc_token;
pub mod bc_token_metadata;
pub mod candidate_limit_record;
pub mod enums;
pub mod error;
pub mod instruction;
pub mod cc_vote_record;
pub mod kicker_coin_owner_record;
pub mod ledger;
pub mod mix_content_record;
pub mod outside_buyer_record;
pub mod processor;
pub mod rate;
pub mod rate_other_record;
pub mod serialization;
pub mod tanistry;
