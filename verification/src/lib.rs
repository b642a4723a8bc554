//! A verified core for an NFT trading ecosystem: a royalty-aware token
//! model, a marketplace with fixed-price listings, offers and auctions,
//! and a phased mint launchpad with pseudo-random token assignment.
//!
//! Handlers are pure state transitions: they take the current state and
//! plain inputs (including the answers of external collaborators such as
//! the NFT ownership and royalty oracles), and return the new state
//! together with the ordered list of outbound payment and transfer
//! instructions.  The host that performs queries and executes messages
//! lives outside this crate.

pub mod allocator;
pub mod arith;
pub mod asset;
pub mod auction;
pub mod cw2981;
pub mod error;
pub mod expiration;
pub mod launchpad;
pub mod marketplace;
pub mod mint;
pub mod msg;
pub mod msgs;
pub mod order;
pub mod phases;
pub mod queries;
pub mod royalty;
pub mod state;
pub mod store;
pub mod text;
