//! Finalization of a ballot whose consensus has been reached: the outcome is
//! written once into a store of consensus results, at a location derived from
//! the ballot's identifier, and attached to a proposal under an authority that
//! only the owner of that location can present.

pub mod address;
pub mod authority;
pub mod ballot;
pub mod error;
pub mod finalize;
pub mod store;
