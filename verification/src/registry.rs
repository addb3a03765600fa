//! The listing registry: one listing record per asset identifier.
//!
//! Records are held in a map keyed by the asset identifier, so at most one
//! listing can exist per asset at a time by construction — a second
//! creation for the same asset collides on the key and is refused. The
//! registry is the single source of truth: the lifecycle transitions read
//! an account out of it, step it, and write the result back atomically
//! with the step's fund and asset movements.

use std::collections::HashMap;
use vstd::prelude::*;

use crate::errors::RentalError;
use crate::listing::{valid_terms, ListingAccount};

verus! {

broadcast use vstd::std_specs::hash::group_hash_axioms;

/// All listings, keyed by asset identifier.
pub struct ListingRegistry {
    listings: HashMap<u64, ListingAccount>,
}

impl View for ListingRegistry {
    type V = Map<u64, ListingAccount>;

    closed spec fn view(&self) -> Map<u64, ListingAccount> {
        self.listings@
    }
}

impl ListingRegistry {
    /// Every registered account is well formed and is filed under its own
    /// asset identifier.
    pub open spec fn wf(self) -> bool {
        forall|mint: u64| #[trigger] self@.dom().contains(mint) ==> {
            &&& self@[mint].wf()
            &&& self@[mint].listing.mint == mint
        }
    }

    /// An empty registry.
    pub fn new() -> (r: ListingRegistry)
        ensures
            r@ == Map::<u64, ListingAccount>::empty(),
            r.wf(),
    {
        ListingRegistry { listings: HashMap::new() }
    }

    /// Outcome of creating a listing for `mint`: refused when a listing
    /// for that asset already exists, or when the terms are malformed.
    pub open spec fn spec_list_result(
        self,
        mint: u64,
        daily_rent_lamports: u64,
        min_duration_days: u32,
        max_duration_days: u32,
    ) -> Result<(), RentalError> {
        if self@.dom().contains(mint) {
            Err(RentalError::ListingAlreadyExists)
        } else if !valid_terms(daily_rent_lamports, min_duration_days, max_duration_days) {
            Err(RentalError::InvalidTerms)
        } else {
            Ok(())
        }
    }

    /// Create the listing for `mint`, depositing the asset into its
    /// vault. At most one listing per asset can ever be present.
    pub fn list_nft(
        &mut self,
        owner: u64,
        mint: u64,
        daily_rent_lamports: u64,
        collateral_lamports: u64,
        min_duration_days: u32,
        max_duration_days: u32,
        now: i64,
    ) -> (r: Result<(), RentalError>)
        requires
            old(self).wf(),
        ensures
            final(self).wf(),
            r == old(self).spec_list_result(
                mint,
                daily_rent_lamports,
                min_duration_days,
                max_duration_days,
            ),
            r is Err ==> final(self)@ == old(self)@,
            r is Ok ==> final(self)@ == old(self)@.insert(
                mint,
                ListingAccount::spec_listed(
                    owner,
                    mint,
                    daily_rent_lamports,
                    collateral_lamports,
                    min_duration_days,
                    max_duration_days,
                    now,
                ),
            ),
    {
        if self.listings.contains_key(&mint) {
            return Err(RentalError::ListingAlreadyExists);
        }
        match ListingAccount::list_nft(
            owner,
            mint,
            daily_rent_lamports,
            collateral_lamports,
            min_duration_days,
            max_duration_days,
            now,
        ) {
            Ok(account) => {
                self.listings.insert(mint, account);
                Ok(())
            },
            Err(e) => Err(e),
        }
    }

    /// The registered account for `mint`, if any.
    pub fn get_listing(&self, mint: u64) -> (r: Option<ListingAccount>)
        ensures
            r is Some <==> self@.dom().contains(mint),
            r is Some ==> r->0 == self@[mint],
    {
        match self.listings.get(&mint) {
            Some(account) => Some(*account),
            None => None,
        }
    }

    /// Outcome of renting the asset `mint`: unknown assets are refused,
    /// everything else follows the account's own rental rule.
    pub open spec fn spec_rent_result(
        self,
        mint: u64,
        duration_days: u32,
        renter_lamports: u64,
    ) -> Result<(), RentalError> {
        if !self@.dom().contains(mint) {
            Err(RentalError::ListingNotFound)
        } else {
            self@[mint].spec_rent_result(duration_days, renter_lamports)
        }
    }

    /// Rent the asset `mint` for `duration_days`, as one atomic step on
    /// the registered account and the two balances.
    pub fn rent_nft(
        &mut self,
        mint: u64,
        renter: u64,
        duration_days: u32,
        now: i64,
        renter_lamports: &mut u64,
        owner_lamports: &mut u64,
    ) -> (r: Result<(), RentalError>)
        requires
            old(self).wf(),
            old(self).spec_rent_result(mint, duration_days, *old(renter_lamports)) is Ok ==> {
                &&& *old(owner_lamports) + old(self)@[mint].spec_total_rent(duration_days)
                    <= u64::MAX
                &&& ListingAccount::spec_rent_end_time(now, duration_days) <= i64::MAX
            },
        ensures
            final(self).wf(),
            r == old(self).spec_rent_result(mint, duration_days, *old(renter_lamports)),
            r is Err ==> {
                &&& final(self)@ == old(self)@
                &&& *final(renter_lamports) == *old(renter_lamports)
                &&& *final(owner_lamports) == *old(owner_lamports)
            },
            r is Ok ==> {
                &&& final(self)@ == old(self)@.insert(
                    mint,
                    old(self)@[mint].spec_rent_post(renter, duration_days, now),
                )
                &&& *final(renter_lamports) == *old(renter_lamports)
                    - old(self)@[mint].spec_total_payment(duration_days)
                &&& *final(owner_lamports) == *old(owner_lamports)
                    + old(self)@[mint].spec_total_rent(duration_days)
            },
    {
        let mut account = match self.listings.get(&mint) {
            Some(account) => *account,
            None => {
                return Err(RentalError::ListingNotFound);
            },
        };
        match account.rent_nft(renter, duration_days, now, renter_lamports, owner_lamports) {
            Ok(()) => {
                self.listings.insert(mint, account);
                Ok(())
            },
            Err(e) => Err(e),
        }
    }

    /// Outcome of returning the asset `mint`.
    pub open spec fn spec_return_result(self, mint: u64, caller: u64) -> Result<
        (),
        RentalError,
    > {
        if !self@.dom().contains(mint) {
            Err(RentalError::ListingNotFound)
        } else {
            self@[mint].spec_return_result(caller)
        }
    }

    /// Return the asset `mint` and refund the collateral, as one atomic
    /// step.
    pub fn return_nft(
        &mut self,
        mint: u64,
        caller: u64,
        renter_lamports: &mut u64,
    ) -> (r: Result<(), RentalError>)
        requires
            old(self).wf(),
            old(self).spec_return_result(mint, caller) is Ok ==>
                *old(renter_lamports) + old(self)@[mint].listing.collateral_lamports <= u64::MAX,
        ensures
            final(self).wf(),
            r == old(self).spec_return_result(mint, caller),
            r is Err ==> {
                &&& final(self)@ == old(self)@
                &&& *final(renter_lamports) == *old(renter_lamports)
            },
            r is Ok ==> {
                &&& final(self)@ == old(self)@.insert(mint, old(self)@[mint].spec_return_post())
                &&& *final(renter_lamports) == *old(renter_lamports)
                    + old(self)@[mint].listing.collateral_lamports
            },
    {
        let mut account = match self.listings.get(&mint) {
            Some(account) => *account,
            None => {
                return Err(RentalError::ListingNotFound);
            },
        };
        match account.return_nft(caller, renter_lamports) {
            Ok(()) => {
                self.listings.insert(mint, account);
                Ok(())
            },
            Err(e) => Err(e),
        }
    }

    /// Outcome of claiming the expired rental of `mint`.
    pub open spec fn spec_claim_result(self, mint: u64, caller: u64, now: i64) -> Result<
        (),
        RentalError,
    > {
        if !self@.dom().contains(mint) {
            Err(RentalError::ListingNotFound)
        } else {
            self@[mint].spec_claim_result(caller, now)
        }
    }

    /// Claim the expired rental of `mint`: asset and collateral go to the
    /// owner and the listing is permanently closed, as one atomic step.
    pub fn claim_expired_nft(
        &mut self,
        mint: u64,
        caller: u64,
        now: i64,
        owner_lamports: &mut u64,
    ) -> (r: Result<(), RentalError>)
        requires
            old(self).wf(),
            old(self).spec_claim_result(mint, caller, now) is Ok ==>
                *old(owner_lamports) + old(self)@[mint].listing.collateral_lamports <= u64::MAX,
        ensures
            final(self).wf(),
            r == old(self).spec_claim_result(mint, caller, now),
            r is Err ==> {
                &&& final(self)@ == old(self)@
                &&& *final(owner_lamports) == *old(owner_lamports)
            },
            r is Ok ==> {
                &&& final(self)@ == old(self)@.insert(mint, old(self)@[mint].spec_claim_post())
                &&& *final(owner_lamports) == *old(owner_lamports)
                    + old(self)@[mint].listing.collateral_lamports
            },
    {
        let mut account = match self.listings.get(&mint) {
            Some(account) => *account,
            None => {
                return Err(RentalError::ListingNotFound);
            },
        };
        match account.claim_expired_nft(caller, now, owner_lamports) {
            Ok(()) => {
                self.listings.insert(mint, account);
                Ok(())
            },
            Err(e) => Err(e),
        }
    }

    /// Outcome of unlisting the asset `mint`.
    pub open spec fn spec_unlist_result(self, mint: u64, caller: u64) -> Result<
        (),
        RentalError,
    > {
        if !self@.dom().contains(mint) {
            Err(RentalError::ListingNotFound)
        } else {
            self@[mint].spec_unlist_result(caller)
        }
    }

    /// Withdraw the un-rented asset `mint` to its owner and close the
    /// listing, as one atomic step.
    pub fn unlist_nft(&mut self, mint: u64, caller: u64) -> (r: Result<(), RentalError>)
        requires
            old(self).wf(),
        ensures
            final(self).wf(),
            r == old(self).spec_unlist_result(mint, caller),
            r is Err ==> final(self)@ == old(self)@,
            r is Ok ==> final(self)@ == old(self)@.insert(
                mint,
                old(self)@[mint].spec_unlist_post(),
            ),
    {
        let mut account = match self.listings.get(&mint) {
            Some(account) => *account,
            None => {
                return Err(RentalError::ListingNotFound);
            },
        };
        match account.unlist_nft(caller) {
            Ok(()) => {
                self.listings.insert(mint, account);
                Ok(())
            },
            Err(e) => Err(e),
        }
    }
}

} // verus!
