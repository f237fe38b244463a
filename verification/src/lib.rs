//! The logic of the MetaDemocracia NEAR contracts, verified: the DAO with its
//! policies, proposals, votes and delegations, the council contract, and the
//! series bookkeeping of the NFT contract.  Each call takes the chain's
//! context as plain values and returns the new state together with what the
//! chain has to do next.

pub mod amounts;
pub mod collections;
pub mod dao;
pub mod democracy;
pub mod json;
pub mod nft;
pub mod text;
