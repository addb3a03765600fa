//! Error taxonomy of the rental lifecycle.
//!
//! Every error is terminal for its call: the first violated precondition
//! aborts the whole transition with no partial effect. Callers may retry
//! with corrected input; the system itself never retries.

use vstd::prelude::*;

verus! {

/// Why a rental transition was refused.
#[derive(Clone, Copy, Debug, PartialEq, Eq, Structural)]
pub enum RentalError {
    /// Malformed listing parameters at creation: zero daily rent, or
    /// duration bounds that are zero or inverted.
    InvalidTerms,
    /// Operation attempted on a listing that was permanently closed.
    ListingNotActive,
    /// `rent_nft` attempted while a renter is already present.
    AlreadyRented,
    /// Requested duration lies outside the listing's configured bounds.
    InvalidDuration,
    /// Rent times duration, or that product plus collateral, exceeds the
    /// range of the payment type.
    Overflow,
    /// `return_nft` or `claim_expired_nft` attempted with no current renter.
    NotRented,
    /// Caller of `return_nft` is not the recorded renter.
    UnauthorizedRenter,
    /// Caller of `claim_expired_nft` or `unlist_nft` is not the listing owner.
    UnauthorizedOwner,
    /// `claim_expired_nft` attempted before the rental end time.
    RentalNotExpired,
    /// `unlist_nft` attempted while the asset is out on rent.
    CannotUnlistRentedNFT,
    /// Propagated currency-transfer failure: the payer's balance does not
    /// cover the amount due.
    InsufficientFunds,
    /// A listing for this asset already exists; at most one listing may
    /// exist per asset identifier at a time.
    ListingAlreadyExists,
    /// No listing is registered for this asset identifier.
    ListingNotFound,
}

impl RentalError {
    /// A short human-readable description of the error.
    pub fn message(&self) -> (r: &'static str)
        ensures
            r@.len() > 0,
    {
        let m: &'static str = match self {
            RentalError::InvalidTerms => "Invalid listing terms",
            RentalError::ListingNotActive => "Listing is not active",
            RentalError::AlreadyRented => "NFT is already rented",
            RentalError::InvalidDuration => "Invalid rental duration",
            RentalError::Overflow => "Arithmetic overflow",
            RentalError::NotRented => "NFT is not currently rented",
            RentalError::UnauthorizedRenter => "Unauthorized renter",
            RentalError::UnauthorizedOwner => "Unauthorized owner",
            RentalError::RentalNotExpired => "Rental period has not expired yet",
            RentalError::CannotUnlistRentedNFT => "Cannot unlist an NFT that is currently rented",
            RentalError::InsufficientFunds => "Insufficient funds",
            RentalError::ListingAlreadyExists => "Listing already exists for this asset",
            RentalError::ListingNotFound => "No listing exists for this asset",
        };
        proof {
            reveal_strlit("Invalid listing terms");
            reveal_strlit("Listing is not active");
            reveal_strlit("NFT is already rented");
            reveal_strlit("Invalid rental duration");
            reveal_strlit("Arithmetic overflow");
            reveal_strlit("NFT is not currently rented");
            reveal_strlit("Unauthorized renter");
            reveal_strlit("Unauthorized owner");
            reveal_strlit("Rental period has not expired yet");
            reveal_strlit("Cannot unlist an NFT that is currently rented");
            reveal_strlit("Insufficient funds");
            reveal_strlit("Listing already exists for this asset");
            reveal_strlit("No listing exists for this asset");
        }
        m
    }
}

} // verus!
