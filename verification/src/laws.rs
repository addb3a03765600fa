//! Laws of the rental lifecycle, proved over the same transition
//! predicates that the executable contracts are stated with.

use vstd::prelude::*;

use crate::errors::RentalError;
use crate::listing::{valid_terms, AssetCustody, ListingAccount, RentalListing};

verus! {

/// A renter and an expiry instant are recorded together or not at all:
/// for every listing record, the current renter is present exactly when
/// the rental end time is present.
pub proof fn lemma_renter_and_expiry_paired(l: RentalListing)
    ensures
        l.spec_current_renter() is Some <==> l.spec_rental_end_time() is Some,
{
}

/// Every transition preserves well-formedness of the account it acts on.
pub proof fn lemma_transitions_preserve_wf(
    a: ListingAccount,
    renter: u64,
    duration_days: u32,
    now: i64,
    renter_lamports: u64,
    caller: u64,
)
    requires
        a.wf(),
    ensures
        a.spec_rent_result(duration_days, renter_lamports) is Ok
            ==> a.spec_rent_post(renter, duration_days, now).wf(),
        a.spec_return_result(caller) is Ok ==> a.spec_return_post().wf(),
        a.spec_claim_result(caller, now) is Ok ==> a.spec_claim_post().wf(),
        a.spec_unlist_result(caller) is Ok ==> a.spec_unlist_post().wf(),
{
}

/// Listing and then unlisting, with no rental in between, hands the asset
/// back to the owner, closes the listing, and leaves no residual balance
/// in the funds vault.
pub proof fn lemma_list_unlist_round_trip(
    owner: u64,
    mint: u64,
    daily_rent_lamports: u64,
    collateral_lamports: u64,
    min_duration_days: u32,
    max_duration_days: u32,
    now: i64,
)
    requires
        valid_terms(daily_rent_lamports, min_duration_days, max_duration_days),
    ensures
        ({
            let a = ListingAccount::spec_listed(
                owner,
                mint,
                daily_rent_lamports,
                collateral_lamports,
                min_duration_days,
                max_duration_days,
                now,
            );
            let b = a.spec_unlist_post();
            &&& a.spec_unlist_result(owner) is Ok
            &&& b.custody == AssetCustody::WithOwner
            &&& b.vault_lamports == 0
            &&& !b.listing.is_active
            &&& b.listing.spec_current_renter() is None
        }),
{
}

/// A second `rent_nft` immediately after a successful one fails with
/// `AlreadyRented`, whoever calls it and whatever they offer. Together
/// with the no-effect-on-error contract of `rent_nft`, the second call
/// can neither charge anyone nor move the asset.
pub proof fn lemma_second_rent_fails(
    pre: ListingAccount,
    renter1: u64,
    duration1: u32,
    now1: i64,
    balance1: u64,
    duration2: u32,
    balance2: u64,
)
    requires
        pre.wf(),
        pre.spec_rent_result(duration1, balance1) is Ok,
    ensures
        pre.spec_rent_post(renter1, duration1, now1).spec_rent_result(duration2, balance2)
            == Err::<(), RentalError>(RentalError::AlreadyRented),
{
}

/// Collateral conservation on the cooperative path: after `rent_nft` for
/// `duration_days` followed by `return_nft` by the same renter, the
/// renter's net balance change is exactly minus the rent — the collateral
/// came back in full — and the funds vault is empty again.
pub proof fn lemma_return_refunds_collateral(
    pre: ListingAccount,
    renter: u64,
    duration_days: u32,
    now: i64,
    renter_balance: u64,
)
    requires
        pre.wf(),
        pre.spec_rent_result(duration_days, renter_balance) is Ok,
    ensures
        ({
            let mid = pre.spec_rent_post(renter, duration_days, now);
            let after_rent = renter_balance - pre.spec_total_payment(duration_days);
            &&& mid.spec_return_result(renter) is Ok
            &&& after_rent + mid.listing.collateral_lamports
                == renter_balance - pre.spec_total_rent(duration_days)
            &&& mid.spec_return_post().vault_lamports == 0
            &&& mid.spec_return_post().listing.is_active
        }),
{
}

/// Collateral conservation on the forfeiture path: after `rent_nft` for
/// `duration_days` and an owner's claim at or past expiry, the renter's
/// net change is minus rent plus collateral, the owner's receipts over
/// the two steps equal exactly what the renter paid, and the funds vault
/// is empty.
pub proof fn lemma_claim_forfeits_collateral(
    pre: ListingAccount,
    renter: u64,
    duration_days: u32,
    now: i64,
    renter_balance: u64,
    claim_now: i64,
)
    requires
        pre.wf(),
        pre.spec_rent_result(duration_days, renter_balance) is Ok,
        ListingAccount::spec_rent_end_time(now, duration_days) <= i64::MAX,
        claim_now >= ListingAccount::spec_rent_end_time(now, duration_days),
    ensures
        ({
            let mid = pre.spec_rent_post(renter, duration_days, now);
            // the owner may claim; the rent received at rent time plus the
            // collateral received at claim time equal exactly the renter's
            // outlay, and nothing stays behind in the vault
            &&& mid.spec_claim_result(pre.listing.owner, claim_now) is Ok
            &&& pre.spec_total_rent(duration_days) + mid.listing.collateral_lamports
                == pre.spec_total_payment(duration_days)
            &&& renter_balance - pre.spec_total_payment(duration_days)
                == renter_balance - pre.spec_total_rent(duration_days)
                    - pre.listing.collateral_lamports
            &&& mid.spec_claim_post().vault_lamports == 0
            &&& !mid.spec_claim_post().listing.is_active
        }),
{
}

/// Renting succeeds at both inclusive duration bounds and fails with
/// `InvalidDuration` just outside them, on an active, vacant listing
/// whose largest payment is representable and funded. The bound
/// `max_duration_days < u32::MAX` keeps "one day longer than the
/// maximum" representable.
pub proof fn lemma_rent_duration_boundaries(pre: ListingAccount, renter_balance: u64)
    requires
        pre.wf(),
        pre.listing.is_active,
        !pre.listing.spec_is_rented(),
        pre.spec_payment_fits(pre.listing.max_duration_days),
        renter_balance >= pre.spec_total_payment(pre.listing.max_duration_days),
        pre.listing.max_duration_days < u32::MAX,
    ensures
        pre.spec_rent_result(pre.listing.min_duration_days, renter_balance) is Ok,
        pre.spec_rent_result(pre.listing.max_duration_days, renter_balance) is Ok,
        pre.spec_rent_result((pre.listing.min_duration_days - 1) as u32, renter_balance)
            == Err::<(), RentalError>(RentalError::InvalidDuration),
        pre.spec_rent_result((pre.listing.max_duration_days + 1) as u32, renter_balance)
            == Err::<(), RentalError>(RentalError::InvalidDuration),
{
    let daily = pre.listing.daily_rent_lamports as int;
    let min_d = pre.listing.min_duration_days as int;
    let max_d = pre.listing.max_duration_days as int;
    vstd::arithmetic::mul::lemma_mul_inequality(min_d, max_d, daily);
}

/// A closed listing is terminal: every transition on it fails, so it can
/// neither be rented, returned, claimed, unlisted, nor ever set active
/// again.
pub proof fn lemma_closed_listing_is_terminal(
    a: ListingAccount,
    caller: u64,
    duration_days: u32,
    now: i64,
    renter_lamports: u64,
)
    requires
        a.wf(),
        !a.listing.is_active,
    ensures
        a.spec_rent_result(duration_days, renter_lamports)
            == Err::<(), RentalError>(RentalError::ListingNotActive),
        a.spec_return_result(caller) == Err::<(), RentalError>(RentalError::NotRented),
        a.spec_claim_result(caller, now) is Err,
        a.spec_unlist_result(caller) is Err,
{
}

} // verus!
