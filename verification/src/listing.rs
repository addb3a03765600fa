//! The rental listing record and its guarded lifecycle transitions.
//!
//! One `ListingAccount` exists per asset. It bundles the listing record with
//! the two custody positions that the protocol derives for the asset: the
//! asset vault (holds the single asset unit while the listing is available)
//! and the funds vault (holds exactly the collateral while the asset is out
//! on rent). Every transition is a single all-or-nothing step: either every
//! sub-effect (fund movement, asset movement, record mutation) happens, or
//! the call returns an error and nothing changed.
//!
//! Identities (owner, renter) and asset identifiers are plain unsigned
//! integers; currency amounts are in the smallest currency unit; timestamps
//! are seconds.

use vstd::prelude::*;

use crate::errors::RentalError;

verus! {

/// Number of seconds in one whole day.
pub const SECONDS_PER_DAY: i64 = 86400;

/// Where the single asset unit governed by a listing currently sits.
#[derive(Clone, Copy, Debug, PartialEq, Eq, Structural)]
pub enum AssetCustody {
    /// In the asset vault derived for the listing.
    InVault,
    /// Out with the current renter.
    WithRenter,
    /// Back with the owner, after a withdrawal or a forfeiture claim.
    WithOwner,
}

/// Occupancy of a listing: vacant, or occupied by one renter until an
/// absolute expiry instant. Renter and expiry are a single tagged value, so
/// they are set together or cleared together by construction.
#[derive(Clone, Copy, Debug, PartialEq, Eq, Structural)]
pub enum RentalState {
    /// No renter; the asset is available (or the listing is closed).
    Available,
    /// Out on rent to `renter` until `end_time` (seconds).
    Rented { renter: u64, end_time: i64 },
}

/// The listing record: terms, lifecycle flag, occupancy.
#[derive(Clone, Copy, Debug, PartialEq, Eq, Structural)]
pub struct RentalListing {
    /// Party entitled to rent proceeds and asset return.
    pub owner: u64,
    /// The unique asset under management.
    pub mint: u64,
    /// Price per day, in the smallest currency unit.
    pub daily_rent_lamports: u64,
    /// Fixed refundable bond, in the smallest currency unit.
    pub collateral_lamports: u64,
    /// Inclusive lower bound on rental length, in days.
    pub min_duration_days: u32,
    /// Inclusive upper bound on rental length, in days.
    pub max_duration_days: u32,
    /// False once permanently withdrawn or forfeited; never set back.
    pub is_active: bool,
    /// Current occupancy: renter and expiry together, or neither.
    pub state: RentalState,
    /// Immutable creation time (seconds).
    pub created_at: i64,
}

/// Listing terms are well formed: a positive daily rent and duration bounds
/// that are neither zero nor inverted.
pub open spec fn valid_terms(
    daily_rent_lamports: u64,
    min_duration_days: u32,
    max_duration_days: u32,
) -> bool {
    &&& daily_rent_lamports > 0
    &&& 1 <= min_duration_days
    &&& min_duration_days <= max_duration_days
}

impl RentalListing {
    /// The recorded renter, present iff the asset is out on rent.
    pub open spec fn spec_current_renter(self) -> Option<u64> {
        match self.state {
            RentalState::Available => None,
            RentalState::Rented { renter, .. } => Some(renter),
        }
    }

    /// The absolute expiry instant, present iff the asset is out on rent.
    pub open spec fn spec_rental_end_time(self) -> Option<i64> {
        match self.state {
            RentalState::Available => None,
            RentalState::Rented { end_time, .. } => Some(end_time),
        }
    }

    /// True iff a renter is currently recorded.
    pub open spec fn spec_is_rented(self) -> bool {
        self.state is Rented
    }

    /// The recorded renter, present iff the asset is out on rent.
    pub fn current_renter(&self) -> (r: Option<u64>)
        ensures
            r == self.spec_current_renter(),
    {
        match self.state {
            RentalState::Available => None,
            RentalState::Rented { renter, .. } => Some(renter),
        }
    }

    /// The absolute expiry instant, present iff the asset is out on rent.
    pub fn rental_end_time(&self) -> (r: Option<i64>)
        ensures
            r == self.spec_rental_end_time(),
    {
        match self.state {
            RentalState::Available => None,
            RentalState::Rented { end_time, .. } => Some(end_time),
        }
    }

    /// True iff a renter is currently recorded.
    pub fn is_rented(&self) -> (b: bool)
        ensures
            b == self.spec_is_rented(),
    {
        match self.state {
            RentalState::Available => false,
            RentalState::Rented { .. } => true,
        }
    }
}

/// A listing together with its two custody positions.
#[derive(Clone, Copy, Debug, PartialEq, Eq, Structural)]
pub struct ListingAccount {
    /// The listing record, the single source of truth for transitions.
    pub listing: RentalListing,
    /// Where the asset unit sits.
    pub custody: AssetCustody,
    /// Balance of the funds vault, in the smallest currency unit.
    pub vault_lamports: u64,
}

impl ListingAccount {
    /// Well-formedness, preserved by every transition:
    /// - the terms are valid;
    /// - while rented: the listing is active, the asset is with the renter
    ///   (the asset vault holds zero units) and the funds vault holds
    ///   exactly the collateral;
    /// - while vacant and active: the asset is in the vault and the funds
    ///   vault is empty;
    /// - once closed: the asset is back with the owner and the funds vault
    ///   is empty.
    pub open spec fn wf(self) -> bool {
        &&& valid_terms(
            self.listing.daily_rent_lamports,
            self.listing.min_duration_days,
            self.listing.max_duration_days,
        )
        &&& match self.listing.state {
            RentalState::Available => {
                &&& self.vault_lamports == 0
                &&& self.custody == (if self.listing.is_active {
                    AssetCustody::InVault
                } else {
                    AssetCustody::WithOwner
                })
            },
            RentalState::Rented { .. } => {
                &&& self.listing.is_active
                &&& self.custody == AssetCustody::WithRenter
                &&& self.vault_lamports == self.listing.collateral_lamports
            },
        }
    }

    /// The account that a successful `list_nft` creates: active, vacant,
    /// asset deposited in the vault, funds vault empty.
    pub open spec fn spec_listed(
        owner: u64,
        mint: u64,
        daily_rent_lamports: u64,
        collateral_lamports: u64,
        min_duration_days: u32,
        max_duration_days: u32,
        now: i64,
    ) -> ListingAccount {
        ListingAccount {
            listing: RentalListing {
                owner,
                mint,
                daily_rent_lamports,
                collateral_lamports,
                min_duration_days,
                max_duration_days,
                is_active: true,
                state: RentalState::Available,
                created_at: now,
            },
            custody: AssetCustody::InVault,
            vault_lamports: 0,
        }
    }

    /// Total rent due for `duration_days`, in the widened integer domain.
    pub open spec fn spec_total_rent(self, duration_days: u32) -> int {
        (self.listing.daily_rent_lamports as int) * (duration_days as int)
    }

    /// Total payment a renter deposits: rent plus collateral, widened.
    pub open spec fn spec_total_payment(self, duration_days: u32) -> int {
        self.spec_total_rent(duration_days) + self.listing.collateral_lamports
    }

    /// The requested duration lies within the listing's inclusive bounds.
    pub open spec fn spec_duration_ok(self, duration_days: u32) -> bool {
        &&& self.listing.min_duration_days <= duration_days
        &&& duration_days <= self.listing.max_duration_days
    }

    /// The total payment fits in the payment type's range.
    pub open spec fn spec_payment_fits(self, duration_days: u32) -> bool {
        self.spec_total_payment(duration_days) <= u64::MAX
    }

    /// Expiry instant of a rental taken out at `now` for `duration_days`,
    /// in the widened integer domain.
    pub open spec fn spec_rent_end_time(now: i64, duration_days: u32) -> int {
        (now as int) + (duration_days as int) * (SECONDS_PER_DAY as int)
    }

    /// Outcome of `rent_nft`, checked in order with the first failure
    /// winning: active listing, no present renter, duration within bounds,
    /// payment representable, renter balance sufficient.
    pub open spec fn spec_rent_result(self, duration_days: u32, renter_lamports: u64)
        -> Result<(), RentalError>
    {
        if !self.listing.is_active {
            Err(RentalError::ListingNotActive)
        } else if self.listing.spec_is_rented() {
            Err(RentalError::AlreadyRented)
        } else if !self.spec_duration_ok(duration_days) {
            Err(RentalError::InvalidDuration)
        } else if !self.spec_payment_fits(duration_days) {
            Err(RentalError::Overflow)
        } else if renter_lamports < self.spec_total_payment(duration_days) {
            Err(RentalError::InsufficientFunds)
        } else {
            Ok(())
        }
    }

    /// The account after a successful `rent_nft`: occupied by `renter`
    /// until the computed expiry, asset with the renter, funds vault
    /// holding exactly the collateral.
    pub open spec fn spec_rent_post(self, renter: u64, duration_days: u32, now: i64)
        -> ListingAccount
    {
        ListingAccount {
            listing: RentalListing {
                state: RentalState::Rented {
                    renter,
                    end_time: Self::spec_rent_end_time(now, duration_days) as i64,
                },
                ..self.listing
            },
            custody: AssetCustody::WithRenter,
            vault_lamports: self.listing.collateral_lamports,
        }
    }

    /// Outcome of `return_nft`: fails with `NotRented` when vacant, with
    /// `UnauthorizedRenter` when the caller is not the recorded renter.
    pub open spec fn spec_return_result(self, caller: u64) -> Result<(), RentalError> {
        match self.listing.state {
            RentalState::Available => Err(RentalError::NotRented),
            RentalState::Rented { renter, .. } => if caller != renter {
                Err(RentalError::UnauthorizedRenter)
            } else {
                Ok(())
            },
        }
    }

    /// The account after a successful `return_nft`: vacant again, asset
    /// back in the vault, funds vault emptied, listing still active.
    pub open spec fn spec_return_post(self) -> ListingAccount {
        ListingAccount {
            listing: RentalListing { state: RentalState::Available, ..self.listing },
            custody: AssetCustody::InVault,
            vault_lamports: 0,
        }
    }

    /// Outcome of `claim_expired_nft`: the owner's unilateral remedy for
    /// non-return, available only at or after the expiry instant. The
    /// renter's cooperation is neither required nor checked.
    pub open spec fn spec_claim_result(self, caller: u64, now: i64) -> Result<(), RentalError> {
        if caller != self.listing.owner {
            Err(RentalError::UnauthorizedOwner)
        } else {
            match self.listing.state {
                RentalState::Available => Err(RentalError::NotRented),
                RentalState::Rented { end_time, .. } => if now < end_time {
                    Err(RentalError::RentalNotExpired)
                } else {
                    Ok(())
                },
            }
        }
    }

    /// The account after a successful `claim_expired_nft`: the asset and
    /// the forfeited collateral go to the owner and the listing is
    /// permanently closed.
    pub open spec fn spec_claim_post(self) -> ListingAccount {
        ListingAccount {
            listing: RentalListing {
                is_active: false,
                state: RentalState::Available,
                ..self.listing
            },
            custody: AssetCustody::WithOwner,
            vault_lamports: 0,
        }
    }

    /// Outcome of `unlist_nft`: only the owner may withdraw, never while
    /// the asset is out on rent, and never from a listing already closed.
    pub open spec fn spec_unlist_result(self, caller: u64) -> Result<(), RentalError> {
        if caller != self.listing.owner {
            Err(RentalError::UnauthorizedOwner)
        } else if self.listing.spec_is_rented() {
            Err(RentalError::CannotUnlistRentedNFT)
        } else if !self.listing.is_active {
            Err(RentalError::ListingNotActive)
        } else {
            Ok(())
        }
    }

    /// The account after a successful `unlist_nft`: asset withdrawn to the
    /// owner, listing permanently closed, funds vault empty.
    pub open spec fn spec_unlist_post(self) -> ListingAccount {
        ListingAccount {
            listing: RentalListing { is_active: false, ..self.listing },
            custody: AssetCustody::WithOwner,
            vault_lamports: 0,
        }
    }

    /// Create a listing: validate the terms, deposit the asset unit into
    /// the asset vault and record the terms. Creation is atomic with the
    /// deposit: on `InvalidTerms` no record exists and nothing moved.
    pub fn list_nft(
        owner: u64,
        mint: u64,
        daily_rent_lamports: u64,
        collateral_lamports: u64,
        min_duration_days: u32,
        max_duration_days: u32,
        now: i64,
    ) -> (r: Result<ListingAccount, RentalError>)
        ensures
            r is Ok <==> valid_terms(daily_rent_lamports, min_duration_days, max_duration_days),
            r is Err ==> r->Err_0 == RentalError::InvalidTerms,
            r is Ok ==> r->Ok_0 == Self::spec_listed(
                owner,
                mint,
                daily_rent_lamports,
                collateral_lamports,
                min_duration_days,
                max_duration_days,
                now,
            ),
            r is Ok ==> r->Ok_0.wf(),
    {
        if daily_rent_lamports == 0 || min_duration_days == 0
            || min_duration_days > max_duration_days {
            return Err(RentalError::InvalidTerms);
        }
        Ok(ListingAccount {
            listing: RentalListing {
                owner,
                mint,
                daily_rent_lamports,
                collateral_lamports,
                min_duration_days,
                max_duration_days,
                is_active: true,
                state: RentalState::Available,
                created_at: now,
            },
            custody: AssetCustody::InVault,
            vault_lamports: 0,
        })
    }

    /// Rent the asset for `duration_days`, atomically: the renter pays
    /// rent plus collateral into the funds vault, the asset unit leaves
    /// the vault for the renter under the vault's own derived authority,
    /// and only then is the rent forwarded to the owner, leaving exactly
    /// the collateral behind. On any error nothing moved.
    pub fn rent_nft(
        &mut self,
        renter: u64,
        duration_days: u32,
        now: i64,
        renter_lamports: &mut u64,
        owner_lamports: &mut u64,
    ) -> (r: Result<(), RentalError>)
        requires
            old(self).wf(),
            // machine limits, needed only where the transition succeeds:
            // the owner's balance and the expiry instant must stay
            // representable
            old(self).spec_rent_result(duration_days, *old(renter_lamports)) is Ok ==> {
                &&& *old(owner_lamports) + old(self).spec_total_rent(duration_days) <= u64::MAX
                &&& Self::spec_rent_end_time(now, duration_days) <= i64::MAX
            },
        ensures
            final(self).wf(),
            r == old(self).spec_rent_result(duration_days, *old(renter_lamports)),
            r is Err ==> {
                &&& *final(self) == *old(self)
                &&& *final(renter_lamports) == *old(renter_lamports)
                &&& *final(owner_lamports) == *old(owner_lamports)
            },
            r is Ok ==> {
                &&& *final(self) == old(self).spec_rent_post(renter, duration_days, now)
                &&& *final(renter_lamports)
                    == *old(renter_lamports) - old(self).spec_total_payment(duration_days)
                &&& *final(owner_lamports)
                    == *old(owner_lamports) + old(self).spec_total_rent(duration_days)
            },
    {
        if !self.listing.is_active {
            return Err(RentalError::ListingNotActive);
        }
        match self.listing.state {
            RentalState::Rented { .. } => {
                return Err(RentalError::AlreadyRented);
            },
            RentalState::Available => {},
        }
        if duration_days < self.listing.min_duration_days
            || duration_days > self.listing.max_duration_days {
            return Err(RentalError::InvalidDuration);
        }
        // widened-domain overflow detection before any movement
        let total_rent = match self.listing.daily_rent_lamports.checked_mul(duration_days as u64) {
            Some(v) => v,
            None => {
                return Err(RentalError::Overflow);
            },
        };
        let total_payment = match total_rent.checked_add(self.listing.collateral_lamports) {
            Some(v) => v,
            None => {
                return Err(RentalError::Overflow);
            },
        };
        if *renter_lamports < total_payment {
            return Err(RentalError::InsufficientFunds);
        }
        // (a) the renter pays rent plus collateral into the funds vault
        *renter_lamports = *renter_lamports - total_payment;
        self.vault_lamports = total_payment;
        // (b) the asset unit moves from the vault to the renter
        self.custody = AssetCustody::WithRenter;
        // (c) the rent is forwarded to the owner; exactly the collateral stays
        self.vault_lamports = self.vault_lamports - total_rent;
        *owner_lamports = *owner_lamports + total_rent;
        // (d) record the renter and the absolute expiry instant
        let end_time = now + (duration_days as i64) * SECONDS_PER_DAY;
        self.listing.state = RentalState::Rented { renter, end_time };
        Ok(())
    }

    /// Return the asset: the recorded renter gives the asset unit back to
    /// the vault and receives the full collateral from the funds vault;
    /// the listing stays active and becomes available for a new rental.
    pub fn return_nft(
        &mut self,
        caller: u64,
        renter_lamports: &mut u64,
    ) -> (r: Result<(), RentalError>)
        requires
            old(self).wf(),
            // machine limit: the refunded balance must stay representable
            old(self).spec_return_result(caller) is Ok ==>
                *old(renter_lamports) + old(self).listing.collateral_lamports <= u64::MAX,
        ensures
            final(self).wf(),
            r == old(self).spec_return_result(caller),
            r is Err ==> {
                &&& *final(self) == *old(self)
                &&& *final(renter_lamports) == *old(renter_lamports)
            },
            r is Ok ==> {
                &&& *final(self) == old(self).spec_return_post()
                &&& *final(renter_lamports)
                    == *old(renter_lamports) + old(self).listing.collateral_lamports
            },
    {
        let renter = match self.listing.state {
            RentalState::Available => {
                return Err(RentalError::NotRented);
            },
            RentalState::Rented { renter, .. } => renter,
        };
        if caller != renter {
            return Err(RentalError::UnauthorizedRenter);
        }
        // the asset unit moves from the renter back into the vault
        self.custody = AssetCustody::InVault;
        // the full collateral moves from the funds vault to the renter
        *renter_lamports = *renter_lamports + self.vault_lamports;
        self.vault_lamports = 0;
        // clear the occupancy; the listing remains active
        self.listing.state = RentalState::Available;
        Ok(())
    }

    /// Owner's unilateral remedy for non-return, at or after expiry: the
    /// asset unit goes to the owner (the renter forfeits the return), the
    /// full collateral moves to the owner as a penalty, and the listing is
    /// permanently closed.
    pub fn claim_expired_nft(
        &mut self,
        caller: u64,
        now: i64,
        owner_lamports: &mut u64,
    ) -> (r: Result<(), RentalError>)
        requires
            old(self).wf(),
            // machine limit: the owner's balance must stay representable
            old(self).spec_claim_result(caller, now) is Ok ==>
                *old(owner_lamports) + old(self).listing.collateral_lamports <= u64::MAX,
        ensures
            final(self).wf(),
            r == old(self).spec_claim_result(caller, now),
            r is Err ==> {
                &&& *final(self) == *old(self)
                &&& *final(owner_lamports) == *old(owner_lamports)
            },
            r is Ok ==> {
                &&& *final(self) == old(self).spec_claim_post()
                &&& *final(owner_lamports)
                    == *old(owner_lamports) + old(self).listing.collateral_lamports
            },
    {
        if caller != self.listing.owner {
            return Err(RentalError::UnauthorizedOwner);
        }
        let end_time = match self.listing.state {
            RentalState::Available => {
                return Err(RentalError::NotRented);
            },
            RentalState::Rented { end_time, .. } => end_time,
        };
        if now < end_time {
            return Err(RentalError::RentalNotExpired);
        }
        // the asset unit goes directly to the owner; the renter forfeits
        self.custody = AssetCustody::WithOwner;
        // the full collateral moves from the funds vault to the owner
        *owner_lamports = *owner_lamports + self.vault_lamports;
        self.vault_lamports = 0;
        // clear the occupancy and close the listing for good
        self.listing.state = RentalState::Available;
        self.listing.is_active = false;
        Ok(())
    }

    /// Withdraw an un-rented asset back to its owner and close the
    /// listing. An asset that is out on rent can never be reclaimed this
    /// way, even past its nominal term: that is what the expiry claim is
    /// for.
    pub fn unlist_nft(&mut self, caller: u64) -> (r: Result<(), RentalError>)
        requires
            old(self).wf(),
        ensures
            final(self).wf(),
            r == old(self).spec_unlist_result(caller),
            r is Err ==> *final(self) == *old(self),
            r is Ok ==> *final(self) == old(self).spec_unlist_post(),
    {
        if caller != self.listing.owner {
            return Err(RentalError::UnauthorizedOwner);
        }
        match self.listing.state {
            RentalState::Rented { .. } => {
                return Err(RentalError::CannotUnlistRentedNFT);
            },
            RentalState::Available => {},
        }
        if !self.listing.is_active {
            return Err(RentalError::ListingNotActive);
        }
        // the asset unit moves from the vault back to the owner
        self.custody = AssetCustody::WithOwner;
        self.listing.is_active = false;
        Ok(())
    }
}

} // verus!
