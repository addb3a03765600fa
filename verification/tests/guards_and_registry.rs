//! Authorization guards, error taxonomy, and the one-listing-per-asset
//! registry.

use nft_rental::errors::RentalError;
use nft_rental::listing::{AssetCustody, ListingAccount};
use nft_rental::registry::ListingRegistry;

const OWNER: u64 = 1;
const RENTER: u64 = 9;
const STRANGER: u64 = 77;
const MINT: u64 = 42;

fn rented() -> (ListingAccount, u64, u64) {
    let mut a = ListingAccount::list_nft(OWNER, MINT, 100, 1000, 1, 30, 1000).unwrap();
    let mut renter_bal: u64 = 5000;
    let mut owner_bal: u64 = 0;
    a.rent_nft(RENTER, 10, 2000, &mut renter_bal, &mut owner_bal)
        .unwrap();
    (a, renter_bal, owner_bal)
}

#[test]
fn return_by_wrong_caller_is_refused() {
    let (mut a, _, _) = rented();
    let mut stranger_bal: u64 = 0;
    let r = a.return_nft(STRANGER, &mut stranger_bal);
    assert_eq!(r, Err(RentalError::UnauthorizedRenter));
    assert_eq!(stranger_bal, 0);
    assert_eq!(a.listing.current_renter(), Some(RENTER));
}

#[test]
fn return_when_not_rented_is_refused() {
    let mut a = ListingAccount::list_nft(OWNER, MINT, 100, 1000, 1, 30, 1000).unwrap();
    let mut renter_bal: u64 = 0;
    let r = a.return_nft(RENTER, &mut renter_bal);
    assert_eq!(r, Err(RentalError::NotRented));
}

#[test]
fn claim_by_non_owner_is_refused() {
    let (mut a, _, _) = rented();
    let mut stranger_bal: u64 = 0;
    let r = a.claim_expired_nft(STRANGER, i64::MAX, &mut stranger_bal);
    assert_eq!(r, Err(RentalError::UnauthorizedOwner));
    assert_eq!(stranger_bal, 0);
    assert_eq!(a.custody, AssetCustody::WithRenter);
}

#[test]
fn claim_when_not_rented_is_refused() {
    let mut a = ListingAccount::list_nft(OWNER, MINT, 100, 1000, 1, 30, 1000).unwrap();
    let mut owner_bal: u64 = 0;
    let r = a.claim_expired_nft(OWNER, i64::MAX, &mut owner_bal);
    assert_eq!(r, Err(RentalError::NotRented));
}

#[test]
fn unlist_by_non_owner_is_refused() {
    let mut a = ListingAccount::list_nft(OWNER, MINT, 100, 1000, 1, 30, 1000).unwrap();
    let r = a.unlist_nft(STRANGER);
    assert_eq!(r, Err(RentalError::UnauthorizedOwner));
    assert!(a.listing.is_active);
}

#[test]
fn unlist_while_rented_is_refused() {
    let (mut a, _, _) = rented();
    let r = a.unlist_nft(OWNER);
    assert_eq!(r, Err(RentalError::CannotUnlistRentedNFT));
    assert_eq!(a.custody, AssetCustody::WithRenter);
}

#[test]
fn unlist_closed_listing_is_refused() {
    let mut a = ListingAccount::list_nft(OWNER, MINT, 100, 1000, 1, 30, 1000).unwrap();
    a.unlist_nft(OWNER).unwrap();
    let r = a.unlist_nft(OWNER);
    assert_eq!(r, Err(RentalError::ListingNotActive));
}

#[test]
fn rent_with_insufficient_funds_moves_nothing() {
    let mut a = ListingAccount::list_nft(OWNER, MINT, 100, 1000, 1, 30, 1000).unwrap();
    let mut renter_bal: u64 = 1999;
    let mut owner_bal: u64 = 0;
    // 10 days cost 1000 rent + 1000 collateral = 2000
    let r = a.rent_nft(RENTER, 10, 2000, &mut renter_bal, &mut owner_bal);
    assert_eq!(r, Err(RentalError::InsufficientFunds));
    assert_eq!(renter_bal, 1999);
    assert_eq!(owner_bal, 0);
    assert_eq!(a.listing.current_renter(), None);
}

#[test]
fn error_messages_are_distinct() {
    let errors = [
        RentalError::InvalidTerms,
        RentalError::ListingNotActive,
        RentalError::AlreadyRented,
        RentalError::InvalidDuration,
        RentalError::Overflow,
        RentalError::NotRented,
        RentalError::UnauthorizedRenter,
        RentalError::UnauthorizedOwner,
        RentalError::RentalNotExpired,
        RentalError::CannotUnlistRentedNFT,
        RentalError::InsufficientFunds,
        RentalError::ListingAlreadyExists,
        RentalError::ListingNotFound,
    ];
    for (i, a) in errors.iter().enumerate() {
        assert!(!a.message().is_empty());
        for b in errors.iter().skip(i + 1) {
            assert_ne!(a.message(), b.message());
        }
    }
}

#[test]
fn registry_enforces_one_listing_per_asset() {
    let mut reg = ListingRegistry::new();
    assert_eq!(reg.list_nft(OWNER, MINT, 100, 1000, 1, 30, 1000), Ok(()));
    let r = reg.list_nft(STRANGER, MINT, 7, 7, 1, 1, 1000);
    assert_eq!(r, Err(RentalError::ListingAlreadyExists));
    // the registered listing is untouched by the refused creation
    let a = reg.get_listing(MINT).unwrap();
    assert_eq!(a.listing.owner, OWNER);
    assert_eq!(a.listing.daily_rent_lamports, 100);
}

#[test]
fn registry_rejects_invalid_terms() {
    let mut reg = ListingRegistry::new();
    let r = reg.list_nft(OWNER, MINT, 100, 1000, 3, 2, 1000);
    assert_eq!(r, Err(RentalError::InvalidTerms));
    assert!(reg.get_listing(MINT).is_none());
}

#[test]
fn registry_refuses_unknown_asset() {
    let mut reg = ListingRegistry::new();
    let mut bal: u64 = 1000;
    let mut owner_bal: u64 = 0;
    assert_eq!(
        reg.rent_nft(MINT, RENTER, 1, 0, &mut bal, &mut owner_bal),
        Err(RentalError::ListingNotFound)
    );
    assert_eq!(
        reg.return_nft(MINT, RENTER, &mut bal),
        Err(RentalError::ListingNotFound)
    );
    assert_eq!(
        reg.claim_expired_nft(MINT, OWNER, 0, &mut bal),
        Err(RentalError::ListingNotFound)
    );
    assert_eq!(
        reg.unlist_nft(MINT, OWNER),
        Err(RentalError::ListingNotFound)
    );
}

#[test]
fn registry_full_lifecycle() {
    let mut reg = ListingRegistry::new();
    let mut renter_bal: u64 = 5000;
    let mut owner_bal: u64 = 0;
    reg.list_nft(OWNER, MINT, 100, 1000, 1, 30, 1000).unwrap();
    // two independent listings coexist under different asset identifiers
    reg.list_nft(OWNER, MINT + 1, 500, 0, 1, 2, 1000).unwrap();

    reg.rent_nft(MINT, RENTER, 10, 2000, &mut renter_bal, &mut owner_bal)
        .unwrap();
    assert_eq!(renter_bal, 3000);
    assert_eq!(owner_bal, 1000);
    let a = reg.get_listing(MINT).unwrap();
    assert_eq!(a.listing.current_renter(), Some(RENTER));
    // the sibling listing is untouched
    let b = reg.get_listing(MINT + 1).unwrap();
    assert_eq!(b.listing.current_renter(), None);

    reg.return_nft(MINT, RENTER, &mut renter_bal).unwrap();
    assert_eq!(renter_bal, 4000);

    reg.unlist_nft(MINT, OWNER).unwrap();
    let a = reg.get_listing(MINT).unwrap();
    assert!(!a.listing.is_active);
    assert_eq!(a.custody, AssetCustody::WithOwner);
}
