//! The record types of the registry: module definitions, subscription
//! records, the ledger key types, and the pure computations that build and
//! evaluate subscription records.

use vstd::prelude::*;

verus! {

/// Number of seconds in one day; a subscription of `d` days spans
/// `d * SECONDS_PER_DAY` seconds from its start.
pub const SECONDS_PER_DAY: u64 = 86400;

/// A time-bounded grant of access to one module for one user, paid in full
/// at creation. The user identity is a plain numeric identifier; mapping a
/// host-side identity (an authenticated address) to such a number is the
/// host shell's concern.
#[derive(Clone, Copy, PartialEq, Eq, Structural, Debug)]
pub struct Subscription {
    pub user: u64,
    pub module_id: u64,
    pub start_time: u64,
    pub end_time: u64,
    pub is_active: bool,
    pub tokens_paid: u64,
}

/// A purchasable named service unit with a fixed daily price.
#[derive(Clone, Debug)]
pub struct SaaSModule {
    pub module_id: u64,
    pub name: String,
    pub price_per_day: u64,
    pub is_available: bool,
}

/// Key of the subscription ledger: one user identity paired with one
/// module ID.
#[derive(Clone, Copy, PartialEq, Eq, Structural, Debug)]
pub enum SubBook {
    Subscription(u64, u64),
}

/// Key of the module registry: one module ID.
#[derive(Clone, Copy, PartialEq, Eq, Structural, Debug)]
pub enum ModuleBook {
    Module(u64),
}

/// Why a `subscribe` call was refused. Authentication of the caller is the
/// host's concern and aborts the operation before the registry runs, so the
/// registry itself reports only these conditions.
#[derive(Clone, Copy, PartialEq, Eq, Structural, Debug)]
pub enum SubscribeError {
    /// The module does not exist or is marked unavailable.
    ModuleUnavailable,
    /// `price_per_day * duration_days` or the expiry time would exceed
    /// `u64::MAX`; the operation is rejected rather than wrapping.
    ArithmeticOverflow,
}

/// The ledger key under which a subscription record is filed.
pub open spec fn spec_sub_key(s: Subscription) -> SubBook {
    SubBook::Subscription(s.user, s.module_id)
}

/// Builds the ledger key for a subscription record.
pub fn sub_key(s: &Subscription) -> (key: SubBook)
    ensures
        key == spec_sub_key(*s),
{
    SubBook::Subscription(s.user, s.module_id)
}

/// Whether the cost and the expiry time of a subscription of
/// `duration_days` days at daily price `price_per_day`, starting at `now`,
/// both fit in a `u64`.
pub open spec fn subscription_fits(price_per_day: u64, duration_days: u64, now: u64) -> bool {
    &&& price_per_day * duration_days <= u64::MAX
    &&& now + duration_days * SECONDS_PER_DAY <= u64::MAX
}

/// The subscription record that a successful `subscribe` call writes:
/// active from `now`, expiring `duration_days` days later, fully prepaid.
pub open spec fn spec_new_subscription(
    user: u64,
    module_id: u64,
    price_per_day: u64,
    duration_days: u64,
    now: u64,
) -> Subscription {
    (Subscription {
        user,
        module_id,
        start_time: now,
        end_time: (now + duration_days * SECONDS_PER_DAY) as u64,
        is_active: true,
        tokens_paid: (price_per_day * duration_days) as u64,
    })
}

/// Whether a stored record grants access at time `now`: it must be marked
/// active and `now` must not lie past its expiry. The flag is never cleared
/// by any operation, so in practice this reads "the record has not yet
/// expired".
pub open spec fn spec_subscription_active(s: Subscription, now: u64) -> bool {
    s.is_active && now <= s.end_time
}

/// Evaluates whether a subscription record grants access at time `now`.
pub fn subscription_active(s: &Subscription, now: u64) -> (active: bool)
    ensures
        active == spec_subscription_active(*s, now),
{
    s.is_active && now <= s.end_time
}

/// The compute step of module creation: after `module_count` modules the
/// next ID is `module_count + 1` (IDs run sequentially from 1, leaving 0
/// free as the not-found sentinel), and the new module is registered open
/// for subscriptions.
pub fn new_module(module_count: u64, name: String, price_per_day: u64) -> (module: SaaSModule)
    requires
        module_count < u64::MAX,
    ensures
        module.module_id == module_count + 1,
        module.name@ == name@,
        module.price_per_day == price_per_day,
        module.is_available,
{
    SaaSModule { module_id: module_count + 1, name, price_per_day, is_available: true }
}

/// Validates a subscription request against a module record and computes
/// the record a successful request writes. Refuses an unavailable module
/// (the not-found sentinel included, whose `is_available` is false) and any
/// request whose cost or expiry would overflow a `u64`.
pub fn plan_subscription(
    module: &SaaSModule,
    user: u64,
    duration_days: u64,
    now: u64,
) -> (result: Result<Subscription, SubscribeError>)
    ensures
        match result {
            Ok(s) => {
                &&& module.is_available
                &&& subscription_fits(module.price_per_day, duration_days, now)
                &&& s == spec_new_subscription(
                    user,
                    module.module_id,
                    module.price_per_day,
                    duration_days,
                    now,
                )
            },
            Err(SubscribeError::ModuleUnavailable) => !module.is_available,
            Err(SubscribeError::ArithmeticOverflow) => {
                &&& module.is_available
                &&& !subscription_fits(module.price_per_day, duration_days, now)
            },
        },
{
    if !module.is_available {
        return Err(SubscribeError::ModuleUnavailable);
    }
    let tokens_required = match module.price_per_day.checked_mul(duration_days) {
        Some(t) => t,
        None => {
            return Err(SubscribeError::ArithmeticOverflow);
        },
    };
    let span = match duration_days.checked_mul(SECONDS_PER_DAY) {
        Some(s) => s,
        None => {
            return Err(SubscribeError::ArithmeticOverflow);
        },
    };
    let end_time = match now.checked_add(span) {
        Some(e) => e,
        None => {
            return Err(SubscribeError::ArithmeticOverflow);
        },
    };
    Ok(Subscription {
        user,
        module_id: module.module_id,
        start_time: now,
        end_time,
        is_active: true,
        tokens_paid: tokens_required,
    })
}

} // verus!
