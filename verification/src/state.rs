//! The persisted record kinds and their field-level update helpers.
//!
//! Identities (admins, authorities, subscribers, mints) are plain `u64`
//! identifiers. Parent references are stable handles: indices into the
//! per-kind stores of [`crate::ledger::Ledger`]. Each record keeps a
//! `bump` byte, the derivation nonce reserved by the addressing scheme.

use vstd::prelude::*;

verus! {

/// Seconds in one day; billing intervals and pause windows are given in days.
pub const DAY_IN_SECONDS: u64 = 86400;

/// The fixed policy ceiling on pause windows, in days, set when a tenant
/// record is created.
pub const DEFAULT_MAX_PAUSE_DURATION_DAYS: u8 = 30;

/// The tenant root record: one per admin identity.
#[derive(Clone, Copy, Debug)]
pub struct Subflow {
    /// Identity of the admin that created this tenant.
    pub admin: u64,
    /// How many services were ever created under this tenant (no removal
    /// path exists, so the counter only grows).
    pub active_services: u64,
    /// Derivation nonce reserved by the addressing scheme.
    pub bump: u8,
    /// Ceiling on `pause` durations for every service under this tenant.
    pub max_pause_duration_days: u8,
}

/// A billable offering published by a tenant; owns plans and a payment vault.
#[derive(Debug)]
pub struct Service {
    /// Handle of the owning tenant record.
    pub subflow: usize,
    pub id: u64,
    /// Display name, at most [`Service::MAX_NAME_LENGTH`] characters.
    pub name: String,
    /// Image URI, at most [`Service::URI_LENGTH`] characters.
    pub image_uri: String,
    /// Identity that may pause, unpause and add plans.
    pub authority: u64,
    /// How many plans were ever added (grows only).
    pub active_plans: u8,
    /// Derivation nonce reserved by the addressing scheme.
    pub bump: u8,
    /// Handle of the escrow vault token account collecting payments.
    pub vault: usize,
    /// The payment-token mint this service accepts.
    pub mint: u64,
    /// While `true`, adding plans, subscribing and renewing are blocked.
    pub paused: bool,
    /// Timestamp at which the active pause window started.
    pub active_pause_start_time: i64,
    /// Length of the active pause window, in days.
    pub active_pause_duration: u8,
}

/// A fixed price/interval billing option under a service; immutable once
/// created, and unique per (service, interval) pair.
#[derive(Clone, Copy, Debug)]
pub struct Plan {
    /// Tokens moved into the vault per billing interval.
    pub cost_per_interval: u64,
    /// Length of one billing interval, in days.
    pub interval_in_days: u64,
    /// Derivation nonce reserved by the addressing scheme.
    pub bump: u8,
    /// Handle of the owning service record.
    pub service: usize,
}

/// Per-(plan, subscriber) entitlement record tracking the paid-up expiry.
#[derive(Clone, Copy, Debug)]
pub struct Subscriber {
    /// Identity of the subscriber.
    pub subscriber: u64,
    /// Handle of the plan subscribed to.
    pub plan: usize,
    /// The entitlement is valid strictly before this timestamp.
    pub subscription_end_date: i64,
    /// Derivation nonce reserved by the addressing scheme.
    pub bump: u8,
}

/// A fungible-token account: the escrow vaults and the payment sources the
/// token collaborator moves balances between.
#[derive(Clone, Copy, Debug)]
pub struct TokenAccount {
    /// Identity allowed to spend from this account.
    pub owner: u64,
    /// The mint this account holds tokens of.
    pub mint: u64,
    /// Current balance.
    pub amount: u64,
}

impl Subflow {
    /// This record with its service counter replaced.
    pub open spec fn with_count(self, n: u64) -> Subflow {
        Subflow {
            admin: self.admin,
            active_services: n,
            bump: self.bump,
            max_pause_duration_days: self.max_pause_duration_days,
        }
    }
}

impl Service {
    pub const MAX_NAME_LENGTH: usize = 16;

    pub const URI_LENGTH: usize = 50;

    /// This record with its pause state replaced; every other field is kept.
    pub open spec fn with_pause_state(self, paused: bool, start: i64, duration: u8) -> Service {
        Service {
            subflow: self.subflow,
            id: self.id,
            name: self.name,
            image_uri: self.image_uri,
            authority: self.authority,
            active_plans: self.active_plans,
            bump: self.bump,
            vault: self.vault,
            mint: self.mint,
            paused: paused,
            active_pause_start_time: start,
            active_pause_duration: duration,
        }
    }

    /// This record with its plan counter replaced; every other field is kept.
    pub open spec fn with_plan_count(self, n: u8) -> Service {
        Service {
            subflow: self.subflow,
            id: self.id,
            name: self.name,
            image_uri: self.image_uri,
            authority: self.authority,
            active_plans: n,
            bump: self.bump,
            vault: self.vault,
            mint: self.mint,
            paused: self.paused,
            active_pause_start_time: self.active_pause_start_time,
            active_pause_duration: self.active_pause_duration,
        }
    }
}

impl Subscriber {
    /// This record with its expiry replaced; every other field is kept.
    pub open spec fn with_end_date(self, end: i64) -> Subscriber {
        Subscriber {
            subscriber: self.subscriber,
            plan: self.plan,
            subscription_end_date: end,
            bump: self.bump,
        }
    }
}

impl TokenAccount {
    /// This account with its balance replaced; owner and mint are kept.
    pub open spec fn with_amount(self, amount: u64) -> TokenAccount {
        TokenAccount { owner: self.owner, mint: self.mint, amount: amount }
    }
}

} // verus!
