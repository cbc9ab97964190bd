//! Bounty-funded grants: the application and milestone governance state
//! machines, their review-board policy, the funding ledger and the store
//! that keeps them; and the share-based decisions of a guild-style DAO.

pub mod error;
pub mod types;
pub mod review;
pub mod ledger;
pub mod application;
pub mod milestone;
pub mod laws;
pub mod store;
pub mod dao;
