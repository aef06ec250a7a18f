//! License accounting: trial, subscription and shift-pack state, and the
//! decisions around consuming and verifying entitlements. Network
//! verification and persistence happen in the binary around the library.
use vstd::prelude::*;
use crate::chars::{contains_lit, spec_contains, str_to_chars};
use crate::error::EshuError;

verus! {

/// Shapeshifts the free trial grants.
pub const FREE_TRIAL_SHIFTS: u32 = 2;

/// Shifts a newly activated pack grants.
pub const SHIFT_PACK_SIZE: u32 = 10;

/// The license types available.
#[derive(Debug, Clone)]
pub enum LicenseType {
    /// Free trial with a fixed number of shapeshifts.
    FreeTrial,
    /// Subscription: unlimited while the subscription stays active.
    Subscription { license_key: String },
    /// Pay-per-use pack with a running count.
    ShiftPack { license_key: String, shifts_remaining: u32 },
}

/// License information kept locally.
#[derive(Debug, Clone)]
pub struct LicenseInfo {
    pub license_type: LicenseType,
    pub shifts_used: u32,
    pub first_use_timestamp: i64,
    pub last_verified: i64,
}

/// What a local look at the license settles about shapeshifting.
#[derive(Debug, Clone, Copy, PartialEq, Eq, Structural)]
pub enum ShiftEligibility {
    /// The shift may proceed.
    Allowed,
    /// The entitlement is exhausted.
    Denied,
    /// A subscription must be verified remotely before the answer is known.
    NeedsSubscriptionCheck,
    /// An exhausted pack may have been restocked; a remote refresh decides.
    NeedsPackRefresh,
}

impl LicenseInfo {
    /// A fresh trial license first used at the given time.
    pub fn initial(now: i64) -> (r: Self)
        ensures
            r.license_type is FreeTrial,
            r.shifts_used == 0,
            r.first_use_timestamp == now,
            r.last_verified == 0,
    {
        LicenseInfo {
            license_type: LicenseType::FreeTrial,
            shifts_used: 0,
            first_use_timestamp: now,
            last_verified: 0,
        }
    }

    /// How many shapeshifts remain: the trial's remainder, unlimited for a
    /// subscription, or the pack's running count.
    pub fn get_shifts_remaining(&self) -> (r: u32)
        ensures
            match self.license_type {
                LicenseType::FreeTrial => r == (if self.shifts_used < FREE_TRIAL_SHIFTS {
                    FREE_TRIAL_SHIFTS - self.shifts_used
                } else {
                    0
                }) as int,
                LicenseType::Subscription { .. } => r == u32::MAX,
                LicenseType::ShiftPack { shifts_remaining, .. } => r == shifts_remaining,
            },
    {
        match &self.license_type {
            LicenseType::FreeTrial => {
                if self.shifts_used < FREE_TRIAL_SHIFTS {
                    FREE_TRIAL_SHIFTS - self.shifts_used
                } else {
                    0
                }
            },
            LicenseType::Subscription { .. } => u32::MAX,
            LicenseType::ShiftPack { shifts_remaining, .. } => *shifts_remaining,
        }
    }

    /// What the local state alone settles about performing a shapeshift; the
    /// two remote cases are answered by the caller's verification.
    pub fn can_shapeshift(&self) -> (r: ShiftEligibility)
        ensures
            match self.license_type {
                LicenseType::FreeTrial => r == (if self.shifts_used < FREE_TRIAL_SHIFTS {
                    ShiftEligibility::Allowed
                } else {
                    ShiftEligibility::Denied
                }),
                LicenseType::Subscription { .. } => r == ShiftEligibility::NeedsSubscriptionCheck,
                LicenseType::ShiftPack { shifts_remaining, .. } => r == (if shifts_remaining > 0 {
                    ShiftEligibility::Allowed
                } else {
                    ShiftEligibility::NeedsPackRefresh
                }),
            },
    {
        match &self.license_type {
            LicenseType::FreeTrial => {
                if self.shifts_used < FREE_TRIAL_SHIFTS {
                    ShiftEligibility::Allowed
                } else {
                    ShiftEligibility::Denied
                }
            },
            LicenseType::Subscription { .. } => ShiftEligibility::NeedsSubscriptionCheck,
            LicenseType::ShiftPack { shifts_remaining, .. } => {
                if *shifts_remaining > 0 {
                    ShiftEligibility::Allowed
                } else {
                    ShiftEligibility::NeedsPackRefresh
                }
            },
        }
    }

    /// Consumes one shapeshift: the trial and a pack decrement their
    /// remainder and fail when exhausted; a subscription only counts usage.
    pub fn use_shapeshift(&mut self) -> (r: Result<(), EshuError>)
        requires
            old(self).shifts_used < u32::MAX,
        ensures
            final(self).first_use_timestamp == old(self).first_use_timestamp,
            final(self).last_verified == old(self).last_verified,
            match old(self).license_type {
                LicenseType::FreeTrial => {
                    if old(self).shifts_used < FREE_TRIAL_SHIFTS {
                        &&& r is Ok
                        &&& final(self).shifts_used == old(self).shifts_used + 1
                        &&& final(self).license_type is FreeTrial
                    } else {
                        &&& r is Err
                        &&& (r->Err_0 matches EshuError::Validation(m) && m@
                            == "Free trial exhausted"@)
                        &&& *final(self) == *old(self)
                    }
                },
                LicenseType::Subscription { license_key } => {
                    &&& r is Ok
                    &&& final(self).shifts_used == old(self).shifts_used + 1
                    &&& (final(self).license_type matches LicenseType::Subscription {
                        license_key: k,
                    } && k == license_key)
                },
                LicenseType::ShiftPack { license_key, shifts_remaining } => {
                    if shifts_remaining > 0 {
                        &&& r is Ok
                        &&& final(self).shifts_used == old(self).shifts_used + 1
                        &&& (final(self).license_type matches LicenseType::ShiftPack {
                            license_key: k,
                            shifts_remaining: n,
                        } && k == license_key && n == shifts_remaining - 1)
                    } else {
                        &&& r is Err
                        &&& (r->Err_0 matches EshuError::Validation(m) && m@
                            == "No shifts remaining"@)
                        &&& *final(self) == *old(self)
                    }
                },
            },
    {
        match &mut self.license_type {
            LicenseType::FreeTrial => {
                if self.shifts_used < FREE_TRIAL_SHIFTS {
                    self.shifts_used = self.shifts_used + 1;
                    Ok(())
                } else {
                    Err(EshuError::Validation(String::from_str("Free trial exhausted")))
                }
            },
            LicenseType::Subscription { .. } => {
                self.shifts_used = self.shifts_used + 1;
                Ok(())
            },
            LicenseType::ShiftPack { shifts_remaining, .. } => {
                if *shifts_remaining > 0 {
                    *shifts_remaining = *shifts_remaining - 1;
                    self.shifts_used = self.shifts_used + 1;
                    Ok(())
                } else {
                    Err(EshuError::Validation(String::from_str("No shifts remaining")))
                }
            },
        }
    }

    /// Applies the outcome of an activation attempt that already passed
    /// remote verification: a subscription product requires the subscription
    /// to be active; a pack product grants a full pack; anything else leaves
    /// the license unchanged.
    pub fn apply_activation(
        &mut self,
        kind: ProductKind,
        license_key: String,
        subscription_ended: bool,
        subscription_failed: bool,
        subscription_cancelled: bool,
        now: i64,
    ) -> (r: Result<(), EshuError>)
        ensures
            final(self).shifts_used == old(self).shifts_used,
            final(self).first_use_timestamp == old(self).first_use_timestamp,
            match kind {
                ProductKind::Subscription => {
                    if subscription_ended || subscription_failed || subscription_cancelled {
                        &&& r is Err
                        &&& (r->Err_0 matches EshuError::Validation(m) && m@
                            == "Subscription is not active"@)
                        &&& *final(self) == *old(self)
                    } else {
                        &&& r is Ok
                        &&& (final(self).license_type matches LicenseType::Subscription {
                            license_key: k,
                        } && k == license_key)
                        &&& final(self).last_verified == now
                    }
                },
                ProductKind::Pack => {
                    &&& r is Ok
                    &&& (final(self).license_type matches LicenseType::ShiftPack {
                        license_key: k,
                        shifts_remaining: n,
                    } && k == license_key && n == SHIFT_PACK_SIZE)
                    &&& final(self).last_verified == old(self).last_verified
                },
                ProductKind::Unknown => r is Ok && *final(self) == *old(self),
            },
    {
        match kind {
            ProductKind::Subscription => {
                if subscription_ended || subscription_failed || subscription_cancelled {
                    Err(EshuError::Validation(String::from_str("Subscription is not active")))
                } else {
                    self.license_type = LicenseType::Subscription { license_key };
                    self.last_verified = now;
                    Ok(())
                }
            },
            ProductKind::Pack => {
                self.license_type = LicenseType::ShiftPack {
                    license_key,
                    shifts_remaining: SHIFT_PACK_SIZE,
                };
                Ok(())
            },
            ProductKind::Unknown => Ok(()),
        }
    }

    /// Records a passed subscription verification at the given time.
    pub fn record_verification(&mut self, now: i64)
        ensures
            final(self).last_verified == now,
            final(self).license_type == old(self).license_type,
            final(self).shifts_used == old(self).shifts_used,
            final(self).first_use_timestamp == old(self).first_use_timestamp,
    {
        self.last_verified = now;
    }
}

/// A subscription is re-verified remotely at most once per day.
pub fn needs_subscription_check(now: i64, last_verified: i64) -> (r: bool)
    ensures
        r == (now as int - last_verified as int >= 86400),
{
    (now as i128) - (last_verified as i128) >= 86400
}

/// A subscription counts as active only when it has neither ended, failed
/// payment, nor been cancelled.
pub fn subscription_is_active(ended: bool, failed: bool, cancelled: bool) -> (r: bool)
    ensures
        r == !(ended || failed || cancelled),
{
    !(ended || failed || cancelled)
}

/// The product classes a permalink can name.
#[derive(Debug, Clone, Copy, PartialEq, Eq, Structural)]
pub enum ProductKind {
    Subscription,
    Pack,
    Unknown,
}

/// Classifies a product permalink: unlimited or subscription products grant
/// a subscription, pack products a shift pack.
pub fn classify_product(permalink: &str) -> (r: ProductKind)
    ensures
        spec_contains(permalink@, "unlimited"@) || spec_contains(permalink@, "subscription"@)
            ==> r == ProductKind::Subscription,
        !(spec_contains(permalink@, "unlimited"@) || spec_contains(permalink@, "subscription"@))
            && spec_contains(permalink@, "pack"@) ==> r == ProductKind::Pack,
        !(spec_contains(permalink@, "unlimited"@) || spec_contains(permalink@, "subscription"@))
            && !spec_contains(permalink@, "pack"@) ==> r == ProductKind::Unknown,
{
    let v = str_to_chars(permalink);
    if contains_lit(&v, "unlimited") || contains_lit(&v, "subscription") {
        ProductKind::Subscription
    } else if contains_lit(&v, "pack") {
        ProductKind::Pack
    } else {
        ProductKind::Unknown
    }
}

} // verus!
