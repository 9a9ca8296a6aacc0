//! Settlement logic of a virtual land marketplace.
//!
//! Parcels are identified by integer coordinates. Buying a parcel doubles its
//! price and splits the listed price between a shared treasury, a royalty
//! beneficiary and the previous owner; every purchase earns the buyer reward
//! points, which are redeemed for a proportional share of the treasury.
//!
//! The crate is a pure state machine: the caller loads a [`state::Store`],
//! runs one call of [`contract::instantiate`] or [`contract::execute`] on it,
//! persists the store and carries out the transfers named in the response.

pub mod contract;
pub mod error;
pub mod laws;
pub mod msg;
pub mod response;
pub mod settlement;
pub mod state;
pub mod text;
