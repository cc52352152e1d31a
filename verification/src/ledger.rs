//! The ledger: one store per record kind, and the operations that the host
//! commits atomically.
//!
//! Derived addressing is modelled as composite-key uniqueness: a record's
//! address is the pair of its namespace and its parent identifiers, so
//! creating a record whose key is already taken fails with
//! [`SubflowError::DuplicateEntity`], exactly as creation at an occupied
//! derived address would. Parent references are handles, indices into the
//! stores, stable because no removal path exists.

use vstd::prelude::*;
use vstd::string::StrSliceExecFns;

use crate::error::SubflowError;
use crate::state::DAY_IN_SECONDS;
use crate::state::DEFAULT_MAX_PAUSE_DURATION_DAYS;
use crate::state::Plan;
use crate::state::Service;
use crate::state::Subflow;
use crate::state::Subscriber;
use crate::state::TokenAccount;

verus! {

/// Every record the operations read or write, in one place.
pub struct Ledger {
    pub subflows: Vec<Subflow>,
    pub services: Vec<Service>,
    pub plans: Vec<Plan>,
    pub subscribers: Vec<Subscriber>,
    pub accounts: Vec<TokenAccount>,
}

/// Is there a tenant record for this admin identity?
pub open spec fn has_subflow_in(subflows: Seq<Subflow>, admin: u64) -> bool {
    exists|i: int| 0 <= i < subflows.len() && (#[trigger] subflows[i]).admin == admin
}

/// Is there a service with this name under this tenant and authority?
pub open spec fn has_service_in(
    services: Seq<Service>,
    subflow: usize,
    name: Seq<char>,
    authority: u64,
) -> bool {
    exists|i: int|
        0 <= i < services.len() && (#[trigger] services[i]).subflow == subflow
            && services[i].name@ == name && services[i].authority == authority
}

/// Does this service already have a plan at this billing interval?
pub open spec fn has_plan_in(plans: Seq<Plan>, service: usize, interval: u64) -> bool {
    exists|i: int|
        0 <= i < plans.len() && (#[trigger] plans[i]).service == service
            && plans[i].interval_in_days == interval
}

/// Is there an entitlement record for this (plan, subscriber) pair?
pub open spec fn has_subscriber_in(subs: Seq<Subscriber>, plan: usize, subscriber: u64) -> bool {
    exists|i: int|
        0 <= i < subs.len() && (#[trigger] subs[i]).plan == plan && subs[i].subscriber
            == subscriber
}

/// Index of the entitlement record for this (plan, subscriber) pair;
/// meaningful when `has_subscriber_in` holds, and unique under
/// `subscribers_unique`.
pub open spec fn subscriber_index_in(subs: Seq<Subscriber>, plan: usize, subscriber: u64) -> int {
    choose|i: int|
        0 <= i < subs.len() && (#[trigger] subs[i]).plan == plan && subs[i].subscriber
            == subscriber
}

/// What `check_status` answers over a store of entitlement records: whether
/// the record's expiry lies strictly after `now`, or `UserNeverSubscribed`
/// when there is no record. Reads nothing but the records themselves, so no
/// other part of the ledger, a service's pause state included, can change
/// the answer.
pub open spec fn status_in(subs: Seq<Subscriber>, plan: usize, subscriber: u64, now: i64) -> Result<
    bool,
    SubflowError,
> {
    if has_subscriber_in(subs, plan, subscriber) {
        Ok(subs[subscriber_index_in(subs, plan, subscriber)].subscription_end_date > now)
    } else {
        Err(SubflowError::UserNeverSubscribed)
    }
}

/// A billing interval in seconds, as unbounded arithmetic.
pub open spec fn interval_seconds(interval: u64) -> int {
    interval * (DAY_IN_SECONDS as int)
}

/// Extend-from-expiry rule: a renewal extends from the old expiry while the
/// entitlement is still active (`end > now`), and from `now` once it has
/// lapsed.
pub open spec fn renew_start(end: i64, now: i64) -> i64 {
    if end > now {
        end
    } else {
        now
    }
}

/// Would computing `start + interval` days overflow a 64-bit signed
/// timestamp, in the interval-to-seconds step or in the final sum?
pub open spec fn end_date_overflows(start: i64, interval: u64) -> bool {
    ||| interval_seconds(interval) > i64::MAX
    ||| start + interval_seconds(interval) > i64::MAX
}

/// Why the token collaborator would refuse to move `amount` tokens from
/// `from` to `to`: the source holds too little, or the destination balance
/// would overflow. `None` means the transfer is owed success.
pub open spec fn token_transfer_err(
    accounts: Seq<TokenAccount>,
    from: int,
    to: int,
    amount: u64,
) -> Option<SubflowError> {
    if accounts[from].amount < amount {
        Some(SubflowError::InsufficientFunds)
    } else if (if from == to {
        accounts[from].amount - amount
    } else {
        accounts[to].amount as int
    }) + amount > u64::MAX {
        Some(SubflowError::Overflow)
    } else {
        None
    }
}

/// The account store after moving `amount` tokens from `from` to `to`:
/// debit first, then credit, so a transfer of an account to itself nets to
/// no change, and no token is created or destroyed.
pub open spec fn token_transfer(
    accounts: Seq<TokenAccount>,
    from: int,
    to: int,
    amount: u64,
) -> Seq<TokenAccount> {
    let debited = accounts.update(
        from,
        accounts[from].with_amount((accounts[from].amount - amount) as u64),
    );
    debited.update(to, debited[to].with_amount((debited[to].amount + amount) as u64))
}

/// Would the token collaborator refuse this transfer? Decides
/// `token_transfer_err` without touching any balance.
fn can_transfer(accounts: &Vec<TokenAccount>, from: usize, to: usize, amount: u64) -> (r: Option<
    SubflowError,
>)
    requires
        from < accounts@.len(),
        to < accounts@.len(),
    ensures
        r == token_transfer_err(accounts@, from as int, to as int, amount),
{
    let from_amount = accounts[from].amount;
    if from_amount < amount {
        return Some(SubflowError::InsufficientFunds);
    }
    let to_base = if from == to {
        from_amount - amount
    } else {
        accounts[to].amount
    };
    if to_base > u64::MAX - amount {
        return Some(SubflowError::Overflow);
    }
    None
}

/// Move `amount` tokens from `from` to `to`, once `can_transfer` has said
/// the transfer is owed success. The one balance-moving step of the escrow
/// model.
fn do_transfer(accounts: &mut Vec<TokenAccount>, from: usize, to: usize, amount: u64)
    requires
        from < old(accounts)@.len(),
        to < old(accounts)@.len(),
        token_transfer_err(old(accounts)@, from as int, to as int, amount) is None,
    ensures
        final(accounts)@ == token_transfer(old(accounts)@, from as int, to as int, amount),
{
    let from_amount = accounts[from].amount;
    accounts[from].amount = from_amount - amount;
    let to_base = accounts[to].amount;
    accounts[to].amount = to_base + amount;
}

impl Ledger {
    /// Tenant admins are unique: one tenant record per admin identity.
    pub open spec fn subflows_unique(self) -> bool {
        forall|i: int, j: int|
            0 <= i < j < self.subflows@.len() ==> (#[trigger] self.subflows@[i]).admin != (
            #[trigger] self.subflows@[j]).admin
    }

    /// Every handle stored in a record points into the store it names.
    pub open spec fn refs_ok(self) -> bool {
        &&& forall|i: int|
            0 <= i < self.services@.len() ==> (#[trigger] self.services@[i]).subflow
                < self.subflows@.len() && self.services@[i].vault < self.accounts@.len()
        &&& forall|i: int|
            0 <= i < self.plans@.len() ==> (#[trigger] self.plans@[i]).service
                < self.services@.len()
        &&& forall|i: int|
            0 <= i < self.subscribers@.len() ==> (#[trigger] self.subscribers@[i]).plan
                < self.plans@.len()
    }

    /// Services are unique per (tenant, name, authority) key.
    pub open spec fn services_unique(self) -> bool {
        forall|i: int, j: int|
            0 <= i < j < self.services@.len() ==> !((#[trigger] self.services@[i]).subflow == (
            #[trigger] self.services@[j]).subflow && self.services@[i].name@
                == self.services@[j].name@ && self.services@[i].authority
                == self.services@[j].authority)
    }

    /// Plans are unique per (service, interval) key.
    pub open spec fn plans_unique(self) -> bool {
        forall|i: int, j: int|
            0 <= i < j < self.plans@.len() ==> !((#[trigger] self.plans@[i]).service == (
            #[trigger] self.plans@[j]).service && self.plans@[i].interval_in_days
                == self.plans@[j].interval_in_days)
    }

    /// Entitlement records are unique per (plan, subscriber) key.
    pub open spec fn subscribers_unique(self) -> bool {
        forall|i: int, j: int|
            0 <= i < j < self.subscribers@.len() ==> !((#[trigger] self.subscribers@[i]).plan == (
            #[trigger] self.subscribers@[j]).plan && self.subscribers@[i].subscriber
                == self.subscribers@[j].subscriber)
    }

    /// Whenever a service is paused, its window length respects the owning
    /// tenant's ceiling.
    pub open spec fn pause_bound_ok(self) -> bool {
        forall|i: int|
            0 <= i < self.services@.len() ==> ((#[trigger] self.services@[i]).paused
                ==> self.services@[i].active_pause_duration <= self.subflows@[self.services@[
                i].subflow as int].max_pause_duration_days)
    }

    /// The ledger is well formed: handles are in range, the composite keys
    /// that stand for derived addresses are unique, and active pause windows
    /// respect their tenant's ceiling.
    pub open spec fn wf(self) -> bool {
        &&& self.refs_ok()
        &&& self.subflows_unique()
        &&& self.services_unique()
        &&& self.plans_unique()
        &&& self.subscribers_unique()
        &&& self.pause_bound_ok()
    }

    /// An empty ledger, holding no records at all.
    pub fn new() -> (r: Ledger)
        ensures
            r.wf(),
            r.subflows@ == Seq::<Subflow>::empty(),
            r.services@ == Seq::<Service>::empty(),
            r.plans@ == Seq::<Plan>::empty(),
            r.subscribers@ == Seq::<Subscriber>::empty(),
            r.accounts@ == Seq::<TokenAccount>::empty(),
    {
        Ledger {
            subflows: Vec::new(),
            services: Vec::new(),
            plans: Vec::new(),
            subscribers: Vec::new(),
            accounts: Vec::new(),
        }
    }

    /// Handle of the tenant record for this admin, if one exists.
    fn find_subflow(&self, admin: u64) -> (r: Option<usize>)
        ensures
            match r {
                Some(i) => i < self.subflows@.len() && self.subflows@[i as int].admin == admin,
                None => !has_subflow_in(self.subflows@, admin),
            },
    {
        let mut i: usize = 0;
        while i < self.subflows.len()
            invariant
                i <= self.subflows@.len(),
                forall|k: int| 0 <= k < i ==> (#[trigger] self.subflows@[k]).admin != admin,
            decreases self.subflows@.len() - i,
        {
            if self.subflows[i].admin == admin {
                return Some(i);
            }
            i = i + 1;
        }
        None
    }

    /// Create the tenant record for `admin`: service counter zero and the
    /// fixed pause ceiling. Fails with `DuplicateEntity` when the admin's
    /// derived address is already occupied, that is, when a tenant record
    /// for the same admin already exists.
    pub fn initialize(&mut self, admin: u64) -> (r: Result<usize, SubflowError>)
        requires
            old(self).wf(),
        ensures
            final(self).wf(),
            match r {
                Ok(h) => {
                    &&& !has_subflow_in(old(self).subflows@, admin)
                    &&& h == old(self).subflows@.len()
                    &&& final(self).subflows@ == old(self).subflows@.push(
                        (Subflow {
                            admin: admin,
                            active_services: 0,
                            bump: 0,
                            max_pause_duration_days: DEFAULT_MAX_PAUSE_DURATION_DAYS,
                        }),
                    )
                    &&& final(self).services@ == old(self).services@
                    &&& final(self).plans@ == old(self).plans@
                    &&& final(self).subscribers@ == old(self).subscribers@
                    &&& final(self).accounts@ == old(self).accounts@
                },
                Err(e) => {
                    &&& e == SubflowError::DuplicateEntity
                    &&& has_subflow_in(old(self).subflows@, admin)
                    &&& *final(self) == *old(self)
                },
            },
    {
        if self.find_subflow(admin).is_some() {
            return Err(SubflowError::DuplicateEntity);
        }
        let h = self.subflows.len();
        self.subflows.push(
            Subflow {
                admin: admin,
                active_services: 0,
                bump: 0,
                max_pause_duration_days: DEFAULT_MAX_PAUSE_DURATION_DAYS,
            },
        );
        Ok(h)
    }

    /// Handle of the service under `subflow_h` with this name and authority,
    /// if one exists.
    fn find_service(&self, subflow_h: usize, name: &String, authority: u64) -> (r: Option<usize>)
        ensures
            match r {
                Some(i) => {
                    &&& i < self.services@.len()
                    &&& self.services@[i as int].subflow == subflow_h
                    &&& self.services@[i as int].name@ == name@
                    &&& self.services@[i as int].authority == authority
                },
                None => !has_service_in(self.services@, subflow_h, name@, authority),
            },
    {
        let mut i: usize = 0;
        while i < self.services.len()
            invariant
                i <= self.services@.len(),
                forall|k: int|
                    0 <= k < i ==> !((#[trigger] self.services@[k]).subflow == subflow_h
                        && self.services@[k].name@ == name@ && self.services@[k].authority
                        == authority),
            decreases self.services@.len() - i,
        {
            if self.services[i].subflow == subflow_h && self.services[i].authority == authority
                && self.services[i].name == *name {
                return Some(i);
            }
            i = i + 1;
        }
        None
    }

    /// The first check `create_service` fails on, or `None` when it is owed
    /// success: name too long, URI too long, tenant service counter at its
    /// ceiling, or the service's derived address already occupied.
    pub open spec fn create_service_err(
        self,
        subflow_h: usize,
        authority: u64,
        name: Seq<char>,
        uri: Seq<char>,
    ) -> Option<SubflowError> {
        if name.len() > Service::MAX_NAME_LENGTH {
            Some(SubflowError::MaxServiceNameExceeded)
        } else if uri.len() > Service::URI_LENGTH {
            Some(SubflowError::MaxURILengthExceeded)
        } else if self.subflows@[subflow_h as int].active_services == u64::MAX {
            Some(SubflowError::Overflow)
        } else if has_service_in(self.services@, subflow_h, name, authority) {
            Some(SubflowError::DuplicateEntity)
        } else {
            None
        }
    }

    /// Create a service under the tenant `subflow_h`, together with its
    /// empty escrow vault for `mint`: name at most 16 characters, URI at
    /// most 50, tenant service counter bumped by one, and the new record
    /// unpaused with no plans.
    pub fn create_service(
        &mut self,
        subflow_h: usize,
        authority: u64,
        name: String,
        image_uri: String,
        mint: u64,
    ) -> (r: Result<usize, SubflowError>)
        requires
            old(self).wf(),
            subflow_h < old(self).subflows@.len(),
        ensures
            final(self).wf(),
            match r {
                Ok(h) => {
                    &&& old(self).create_service_err(subflow_h, authority, name@, image_uri@)
                        is None
                    &&& h == old(self).services@.len()
                    &&& final(self).services@ == old(self).services@.push(
                        (Service {
                            subflow: subflow_h,
                            id: 0,
                            name: name,
                            image_uri: image_uri,
                            authority: authority,
                            active_plans: 0,
                            bump: 0,
                            vault: old(self).accounts@.len() as usize,
                            mint: mint,
                            paused: false,
                            active_pause_start_time: 0,
                            active_pause_duration: 0,
                        }),
                    )
                    &&& final(self).accounts@ == old(self).accounts@.push(
                        (TokenAccount { owner: authority, mint: mint, amount: 0 }),
                    )
                    &&& final(self).subflows@ == old(self).subflows@.update(
                        subflow_h as int,
                        old(self).subflows@[subflow_h as int].with_count(
                            (old(self).subflows@[subflow_h as int].active_services + 1) as u64,
                        ),
                    )
                    &&& final(self).plans@ == old(self).plans@
                    &&& final(self).subscribers@ == old(self).subscribers@
                },
                Err(e) => {
                    &&& Some(e) == old(self).create_service_err(
                        subflow_h,
                        authority,
                        name@,
                        image_uri@,
                    )
                    &&& *final(self) == *old(self)
                },
            },
    {
        if name.as_str().unicode_len() > Service::MAX_NAME_LENGTH {
            return Err(SubflowError::MaxServiceNameExceeded);
        }
        if image_uri.as_str().unicode_len() > Service::URI_LENGTH {
            return Err(SubflowError::MaxURILengthExceeded);
        }
        let count = self.subflows[subflow_h].active_services;
        if count == u64::MAX {
            return Err(SubflowError::Overflow);
        }
        if self.find_service(subflow_h, &name, authority).is_some() {
            return Err(SubflowError::DuplicateEntity);
        }
        let vault_h = self.accounts.len();
        self.accounts.push(TokenAccount { owner: authority, mint: mint, amount: 0 });
        self.subflows[subflow_h].active_services = count + 1;
        let h = self.services.len();
        self.services.push(
            Service {
                subflow: subflow_h,
                id: 0,
                name: name,
                image_uri: image_uri,
                authority: authority,
                active_plans: 0,
                bump: 0,
                vault: vault_h,
                mint: mint,
                paused: false,
                active_pause_start_time: 0,
                active_pause_duration: 0,
            },
        );
        Ok(h)
    }

    /// Handle of the plan under `service_h` at this billing interval, if one
    /// exists.
    fn find_plan(&self, service_h: usize, interval: u64) -> (r: Option<usize>)
        ensures
            match r {
                Some(i) => {
                    &&& i < self.plans@.len()
                    &&& self.plans@[i as int].service == service_h
                    &&& self.plans@[i as int].interval_in_days == interval
                },
                None => !has_plan_in(self.plans@, service_h, interval),
            },
    {
        let mut i: usize = 0;
        while i < self.plans.len()
            invariant
                i <= self.plans@.len(),
                forall|k: int|
                    0 <= k < i ==> !((#[trigger] self.plans@[k]).service == service_h
                        && self.plans@[k].interval_in_days == interval),
            decreases self.plans@.len() - i,
        {
            if self.plans[i].service == service_h && self.plans[i].interval_in_days == interval {
                return Some(i);
            }
            i = i + 1;
        }
        None
    }

    /// The first check `add_plan` fails on, or `None` when it is owed
    /// success: caller not the service authority, service paused, a plan
    /// already at this interval, or the plan counter at its ceiling.
    pub open spec fn add_plan_err(self, service_h: usize, authority: u64, interval: u64) -> Option<
        SubflowError,
    > {
        let service = self.services@[service_h as int];
        if authority != service.authority {
            Some(SubflowError::Unauthorized)
        } else if service.paused {
            Some(SubflowError::ServicePaused)
        } else if has_plan_in(self.plans@, service_h, interval) {
            Some(SubflowError::DuplicateEntity)
        } else if service.active_plans == u8::MAX {
            Some(SubflowError::Overflow)
        } else {
            None
        }
    }

    /// Add an immutable plan at `interval` days for `cost` tokens per
    /// interval under `service_h`, bumping the service's plan counter. The
    /// interval is part of the plan's derived address, so a service can
    /// never hold two plans at the same interval.
    pub fn add_plan(&mut self, service_h: usize, authority: u64, interval: u64, cost: u64) -> (r:
        Result<usize, SubflowError>)
        requires
            old(self).wf(),
            service_h < old(self).services@.len(),
        ensures
            final(self).wf(),
            match r {
                Ok(h) => {
                    &&& old(self).add_plan_err(service_h, authority, interval) is None
                    &&& h == old(self).plans@.len()
                    &&& final(self).plans@ == old(self).plans@.push(
                        (Plan {
                            cost_per_interval: cost,
                            interval_in_days: interval,
                            bump: 0,
                            service: service_h,
                        }),
                    )
                    &&& final(self).services@ == old(self).services@.update(
                        service_h as int,
                        old(self).services@[service_h as int].with_plan_count(
                            (old(self).services@[service_h as int].active_plans + 1) as u8,
                        ),
                    )
                    &&& final(self).subflows@ == old(self).subflows@
                    &&& final(self).subscribers@ == old(self).subscribers@
                    &&& final(self).accounts@ == old(self).accounts@
                },
                Err(e) => {
                    &&& Some(e) == old(self).add_plan_err(service_h, authority, interval)
                    &&& *final(self) == *old(self)
                },
            },
    {
        if authority != self.services[service_h].authority {
            return Err(SubflowError::Unauthorized);
        }
        if self.services[service_h].paused {
            return Err(SubflowError::ServicePaused);
        }
        if self.find_plan(service_h, interval).is_some() {
            return Err(SubflowError::DuplicateEntity);
        }
        let count = self.services[service_h].active_plans;
        if count == u8::MAX {
            return Err(SubflowError::Overflow);
        }
        self.services[service_h].active_plans = count + 1;
        let h = self.plans.len();
        self.plans.push(
            Plan {
                cost_per_interval: cost,
                interval_in_days: interval,
                bump: 0,
                service: service_h,
            },
        );
        Ok(h)
    }

    /// The first check `pause` fails on, or `None` when it is owed success:
    /// caller not the service authority, or a window longer than the
    /// tenant's ceiling.
    pub open spec fn pause_err(self, service_h: usize, authority: u64, duration: u8) -> Option<
        SubflowError,
    > {
        let service = self.services@[service_h as int];
        if authority != service.authority {
            Some(SubflowError::Unauthorized)
        } else if duration > self.subflows@[service.subflow as int].max_pause_duration_days {
            Some(SubflowError::ExceededMaxPauseTime)
        } else {
            None
        }
    }

    /// Open a pause window of `duration` days starting at `now`. While it
    /// is open, adding plans, subscribing and renewing are blocked; existing
    /// entitlements are untouched and `check_status` is unaffected. Pausing
    /// an already-paused service replaces its window.
    pub fn pause(&mut self, service_h: usize, authority: u64, duration: u8, now: i64) -> (r: Result<
        (),
        SubflowError,
    >)
        requires
            old(self).wf(),
            service_h < old(self).services@.len(),
        ensures
            final(self).wf(),
            match r {
                Ok(()) => {
                    &&& old(self).pause_err(service_h, authority, duration) is None
                    &&& final(self).services@ == old(self).services@.update(
                        service_h as int,
                        old(self).services@[service_h as int].with_pause_state(
                            true,
                            now,
                            duration,
                        ),
                    )
                    &&& final(self).subflows@ == old(self).subflows@
                    &&& final(self).plans@ == old(self).plans@
                    &&& final(self).subscribers@ == old(self).subscribers@
                    &&& final(self).accounts@ == old(self).accounts@
                },
                Err(e) => {
                    &&& Some(e) == old(self).pause_err(service_h, authority, duration)
                    &&& *final(self) == *old(self)
                },
            },
    {
        if authority != self.services[service_h].authority {
            return Err(SubflowError::Unauthorized);
        }
        let subflow_h = self.services[service_h].subflow;
        if duration > self.subflows[subflow_h].max_pause_duration_days {
            return Err(SubflowError::ExceededMaxPauseTime);
        }
        self.services[service_h].paused = true;
        self.services[service_h].active_pause_start_time = now;
        self.services[service_h].active_pause_duration = duration;
        Ok(())
    }

    /// The instant the pause window of this service ends; unpausing is
    /// allowed strictly after it.
    pub open spec fn pause_window_end(service: Service) -> int {
        service.active_pause_start_time + service.active_pause_duration * (
        DAY_IN_SECONDS as int)
    }

    /// The first check `unpause` fails on, or `None` when it is owed
    /// success: caller not the service authority, the window's end not
    /// representable, or `now` not strictly past the window's end.
    pub open spec fn unpause_err(self, service_h: usize, authority: u64, now: i64) -> Option<
        SubflowError,
    > {
        let service = self.services@[service_h as int];
        if authority != service.authority {
            Some(SubflowError::Unauthorized)
        } else if Self::pause_window_end(service) > i64::MAX {
            Some(SubflowError::Overflow)
        } else if !(now > Self::pause_window_end(service)) {
            Some(SubflowError::CantUnpauseYet)
        } else {
            None
        }
    }

    /// Close the pause window once it has elapsed: allowed only strictly
    /// after `active_pause_start_time + active_pause_duration` days, so at
    /// the exact boundary instant it still fails. Resets the pause fields
    /// to zero.
    pub fn unpause(&mut self, service_h: usize, authority: u64, now: i64) -> (r: Result<
        (),
        SubflowError,
    >)
        requires
            old(self).wf(),
            service_h < old(self).services@.len(),
        ensures
            final(self).wf(),
            match r {
                Ok(()) => {
                    &&& old(self).unpause_err(service_h, authority, now) is None
                    &&& final(self).services@ == old(self).services@.update(
                        service_h as int,
                        old(self).services@[service_h as int].with_pause_state(false, 0, 0),
                    )
                    &&& final(self).subflows@ == old(self).subflows@
                    &&& final(self).plans@ == old(self).plans@
                    &&& final(self).subscribers@ == old(self).subscribers@
                    &&& final(self).accounts@ == old(self).accounts@
                },
                Err(e) => {
                    &&& Some(e) == old(self).unpause_err(service_h, authority, now)
                    &&& *final(self) == *old(self)
                },
            },
    {
        if authority != self.services[service_h].authority {
            return Err(SubflowError::Unauthorized);
        }
        let start = self.services[service_h].active_pause_start_time;
        let duration = self.services[service_h].active_pause_duration;
        let duration_in_seconds: i64 = (duration as i64) * (DAY_IN_SECONDS as i64);
        if start > i64::MAX - duration_in_seconds {
            return Err(SubflowError::Overflow);
        }
        if !(now > start + duration_in_seconds) {
            return Err(SubflowError::CantUnpauseYet);
        }
        self.services[service_h].paused = false;
        self.services[service_h].active_pause_start_time = 0;
        self.services[service_h].active_pause_duration = 0;
        Ok(())
    }

    /// Create a token account for `owner` holding `amount` tokens of
    /// `mint`. Stands in for the token collaborator's account creation; the
    /// operations only read and transfer between accounts made here and the
    /// vaults made by `create_service`.
    pub fn create_token_account(&mut self, owner: u64, mint: u64, amount: u64) -> (h: usize)
        requires
            old(self).wf(),
        ensures
            final(self).wf(),
            h == old(self).accounts@.len(),
            final(self).accounts@ == old(self).accounts@.push(
                (TokenAccount { owner: owner, mint: mint, amount: amount }),
            ),
            final(self).subflows@ == old(self).subflows@,
            final(self).services@ == old(self).services@,
            final(self).plans@ == old(self).plans@,
            final(self).subscribers@ == old(self).subscribers@,
    {
        let h = self.accounts.len();
        self.accounts.push(TokenAccount { owner: owner, mint: mint, amount: amount });
        h
    }

    /// Index of the entitlement record for this (plan, subscriber) pair, if
    /// one exists.
    fn find_subscriber(&self, plan_h: usize, subscriber: u64) -> (r: Option<usize>)
        ensures
            match r {
                Some(i) => {
                    &&& i < self.subscribers@.len()
                    &&& self.subscribers@[i as int].plan == plan_h
                    &&& self.subscribers@[i as int].subscriber == subscriber
                },
                None => !has_subscriber_in(self.subscribers@, plan_h, subscriber),
            },
    {
        let mut i: usize = 0;
        while i < self.subscribers.len()
            invariant
                i <= self.subscribers@.len(),
                forall|k: int|
                    0 <= k < i ==> !((#[trigger] self.subscribers@[k]).plan == plan_h
                        && self.subscribers@[k].subscriber == subscriber),
            decreases self.subscribers@.len() - i,
        {
            if self.subscribers[i].plan == plan_h && self.subscribers[i].subscriber == subscriber {
                return Some(i);
            }
            i = i + 1;
        }
        None
    }

    /// Under key uniqueness, any index holding the (plan, subscriber) key
    /// is the one `subscriber_index_in` names.
    proof fn lemma_subscriber_index(self, plan_h: usize, subscriber: u64, k: int)
        requires
            self.subscribers_unique(),
            0 <= k < self.subscribers@.len(),
            self.subscribers@[k].plan == plan_h,
            self.subscribers@[k].subscriber == subscriber,
        ensures
            subscriber_index_in(self.subscribers@, plan_h, subscriber) == k,
    {
        assert(has_subscriber_in(self.subscribers@, plan_h, subscriber));
        let j = subscriber_index_in(self.subscribers@, plan_h, subscriber);
        if j < k {
            assert(!(self.subscribers@[j].plan == self.subscribers@[k].plan
                && self.subscribers@[j].subscriber == self.subscribers@[k].subscriber));
        } else if k < j {
            assert(!(self.subscribers@[k].plan == self.subscribers@[j].plan
                && self.subscribers@[k].subscriber == self.subscribers@[j].subscriber));
        }
    }

    /// The first check `subscribe` fails on, or `None` when it is owed
    /// success: service paused, payment source of the wrong mint or not
    /// owned by the subscriber, an entitlement record already at the
    /// derived address, a transfer the token collaborator would refuse, or
    /// an expiry that overflows its timestamp.
    pub open spec fn subscribe_err(
        self,
        plan_h: usize,
        subscriber: u64,
        payment_h: usize,
        now: i64,
    ) -> Option<SubflowError> {
        let plan = self.plans@[plan_h as int];
        let service = self.services@[plan.service as int];
        let payment = self.accounts@[payment_h as int];
        if service.paused {
            Some(SubflowError::ServicePaused)
        } else if payment.mint != service.mint {
            Some(SubflowError::WrongMint)
        } else if payment.owner != subscriber {
            Some(SubflowError::Unauthorized)
        } else if has_subscriber_in(self.subscribers@, plan_h, subscriber) {
            Some(SubflowError::DuplicateEntity)
        } else if token_transfer_err(
            self.accounts@,
            payment_h as int,
            service.vault as int,
            plan.cost_per_interval,
        ) is Some {
            token_transfer_err(
                self.accounts@,
                payment_h as int,
                service.vault as int,
                plan.cost_per_interval,
            )
        } else if end_date_overflows(now, plan.interval_in_days) {
            Some(SubflowError::Overflow)
        } else {
            None
        }
    }

    /// First subscription of `subscriber` to `plan_h`: moves the plan's
    /// cost from the payment source into the service's vault and creates
    /// the entitlement record expiring `interval_in_days` days after `now`.
    /// Either the transfer and the record creation both happen, or neither.
    pub fn subscribe(&mut self, plan_h: usize, subscriber: u64, payment_h: usize, now: i64) -> (r:
        Result<usize, SubflowError>)
        requires
            old(self).wf(),
            plan_h < old(self).plans@.len(),
            payment_h < old(self).accounts@.len(),
        ensures
            final(self).wf(),
            match r {
                Ok(h) => {
                    &&& old(self).subscribe_err(plan_h, subscriber, payment_h, now) is None
                    &&& h == old(self).subscribers@.len()
                    &&& final(self).subscribers@ == old(self).subscribers@.push(
                        (Subscriber {
                            subscriber: subscriber,
                            plan: plan_h,
                            subscription_end_date: (now + interval_seconds(
                                old(self).plans@[plan_h as int].interval_in_days,
                            )) as i64,
                            bump: 0,
                        }),
                    )
                    &&& final(self).accounts@ == token_transfer(
                        old(self).accounts@,
                        payment_h as int,
                        old(self).services@[old(self).plans@[plan_h as int].service as int].vault
                            as int,
                        old(self).plans@[plan_h as int].cost_per_interval,
                    )
                    &&& final(self).subflows@ == old(self).subflows@
                    &&& final(self).services@ == old(self).services@
                    &&& final(self).plans@ == old(self).plans@
                },
                Err(e) => {
                    &&& Some(e) == old(self).subscribe_err(plan_h, subscriber, payment_h, now)
                    &&& *final(self) == *old(self)
                },
            },
    {
        let service_h = self.plans[plan_h].service;
        if self.services[service_h].paused {
            return Err(SubflowError::ServicePaused);
        }
        let vault_h = self.services[service_h].vault;
        if self.accounts[payment_h].mint != self.services[service_h].mint {
            return Err(SubflowError::WrongMint);
        }
        if self.accounts[payment_h].owner != subscriber {
            return Err(SubflowError::Unauthorized);
        }
        if self.find_subscriber(plan_h, subscriber).is_some() {
            return Err(SubflowError::DuplicateEntity);
        }
        let cost = self.plans[plan_h].cost_per_interval;
        if let Some(e) = can_transfer(&self.accounts, payment_h, vault_h, cost) {
            return Err(e);
        }
        let interval = self.plans[plan_h].interval_in_days;
        let seconds_u = match interval.checked_mul(DAY_IN_SECONDS) {
            Some(s) => s,
            None => return Err(SubflowError::Overflow),
        };
        if seconds_u > i64::MAX as u64 {
            return Err(SubflowError::Overflow);
        }
        let end = match now.checked_add(seconds_u as i64) {
            Some(e) => e,
            None => return Err(SubflowError::Overflow),
        };
        do_transfer(&mut self.accounts, payment_h, vault_h, cost);
        let h = self.subscribers.len();
        self.subscribers.push(
            Subscriber {
                subscriber: subscriber,
                plan: plan_h,
                subscription_end_date: end,
                bump: 0,
            },
        );
        Ok(h)
    }

    /// The first check `renew` fails on, or `None` when it is owed success:
    /// like `subscribe`, except that the entitlement record must already
    /// exist, and the overflow check starts from the extend-from-expiry
    /// start date.
    pub open spec fn renew_err(
        self,
        plan_h: usize,
        subscriber: u64,
        payment_h: usize,
        now: i64,
    ) -> Option<SubflowError> {
        let plan = self.plans@[plan_h as int];
        let service = self.services@[plan.service as int];
        let payment = self.accounts@[payment_h as int];
        if service.paused {
            Some(SubflowError::ServicePaused)
        } else if payment.mint != service.mint {
            Some(SubflowError::WrongMint)
        } else if payment.owner != subscriber {
            Some(SubflowError::Unauthorized)
        } else if !has_subscriber_in(self.subscribers@, plan_h, subscriber) {
            Some(SubflowError::UserNeverSubscribed)
        } else if token_transfer_err(
            self.accounts@,
            payment_h as int,
            service.vault as int,
            plan.cost_per_interval,
        ) is Some {
            token_transfer_err(
                self.accounts@,
                payment_h as int,
                service.vault as int,
                plan.cost_per_interval,
            )
        } else if end_date_overflows(
            renew_start(
                self.subscribers@[subscriber_index_in(
                    self.subscribers@,
                    plan_h,
                    subscriber,
                )].subscription_end_date,
                now,
            ),
            plan.interval_in_days,
        ) {
            Some(SubflowError::Overflow)
        } else {
            None
        }
    }

    /// Renew an existing subscription: moves the plan's cost into the vault
    /// and pushes the expiry out by one interval — from the old expiry while
    /// the entitlement is still active, from `now` once it has lapsed, so
    /// renewing early never loses remaining paid time.
    pub fn renew(&mut self, plan_h: usize, subscriber: u64, payment_h: usize, now: i64) -> (r:
        Result<(), SubflowError>)
        requires
            old(self).wf(),
            plan_h < old(self).plans@.len(),
            payment_h < old(self).accounts@.len(),
        ensures
            final(self).wf(),
            match r {
                Ok(()) => ({
                    let k = subscriber_index_in(old(self).subscribers@, plan_h, subscriber);
                    &&& old(self).renew_err(plan_h, subscriber, payment_h, now) is None
                    &&& final(self).subscribers@ == old(self).subscribers@.update(
                        k,
                        old(self).subscribers@[k].with_end_date(
                            (renew_start(old(self).subscribers@[k].subscription_end_date, now)
                                + interval_seconds(
                                old(self).plans@[plan_h as int].interval_in_days,
                            )) as i64,
                        ),
                    )
                    &&& final(self).accounts@ == token_transfer(
                        old(self).accounts@,
                        payment_h as int,
                        old(self).services@[old(self).plans@[plan_h as int].service as int].vault
                            as int,
                        old(self).plans@[plan_h as int].cost_per_interval,
                    )
                    &&& final(self).subflows@ == old(self).subflows@
                    &&& final(self).services@ == old(self).services@
                    &&& final(self).plans@ == old(self).plans@
                }),
                Err(e) => {
                    &&& Some(e) == old(self).renew_err(plan_h, subscriber, payment_h, now)
                    &&& *final(self) == *old(self)
                },
            },
    {
        let service_h = self.plans[plan_h].service;
        if self.services[service_h].paused {
            return Err(SubflowError::ServicePaused);
        }
        let vault_h = self.services[service_h].vault;
        if self.accounts[payment_h].mint != self.services[service_h].mint {
            return Err(SubflowError::WrongMint);
        }
        if self.accounts[payment_h].owner != subscriber {
            return Err(SubflowError::Unauthorized);
        }
        let k = match self.find_subscriber(plan_h, subscriber) {
            Some(k) => k,
            None => return Err(SubflowError::UserNeverSubscribed),
        };
        proof {
            self.lemma_subscriber_index(plan_h, subscriber, k as int);
        }
        let cost = self.plans[plan_h].cost_per_interval;
        if let Some(e) = can_transfer(&self.accounts, payment_h, vault_h, cost) {
            return Err(e);
        }
        let interval = self.plans[plan_h].interval_in_days;
        let seconds_u = match interval.checked_mul(DAY_IN_SECONDS) {
            Some(s) => s,
            None => return Err(SubflowError::Overflow),
        };
        if seconds_u > i64::MAX as u64 {
            return Err(SubflowError::Overflow);
        }
        let old_end = self.subscribers[k].subscription_end_date;
        let start_date: i64 = if old_end > now {
            old_end
        } else {
            now
        };
        let end = match start_date.checked_add(seconds_u as i64) {
            Some(e) => e,
            None => return Err(SubflowError::Overflow),
        };
        do_transfer(&mut self.accounts, payment_h, vault_h, cost);
        self.subscribers[k].subscription_end_date = end;
        Ok(())
    }

    /// Is the subscriber's entitlement under `plan_h` valid at `now`? True
    /// strictly before the recorded expiry, false at or after it; fails
    /// with `UserNeverSubscribed` when no record exists. A pure read,
    /// answerable while the owning service is paused.
    pub fn check_status(&self, plan_h: usize, subscriber: u64, now: i64) -> (r: Result<
        bool,
        SubflowError,
    >)
        requires
            self.wf(),
        ensures
            r == status_in(self.subscribers@, plan_h, subscriber, now),
    {
        match self.find_subscriber(plan_h, subscriber) {
            Some(k) => {
                proof {
                    self.lemma_subscriber_index(plan_h, subscriber, k as int);
                }
                Ok(self.subscribers[k].subscription_end_date > now)
            },
            None => Err(SubflowError::UserNeverSubscribed),
        }
    }
}

} // verus!
