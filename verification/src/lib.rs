//! Escrow-backed rental lifecycle for unique digital assets.
//!
//! An owner deposits an asset into a derived custody vault together with
//! rental terms; a renter deposits rent plus a refundable collateral bond to
//! take temporary custody; the asset and the collateral move between custody
//! states under strict authorization and time rules, and collateral is
//! forfeited to the owner when an expired rental is never returned.

pub mod errors;
pub mod laws;
pub mod listing;
pub mod registry;
