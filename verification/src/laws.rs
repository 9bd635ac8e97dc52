//! The guarantees of the registry that relate several operations, stated
//! and proved once and for all over the transition relations that the
//! operations' contracts establish.

use vstd::prelude::*;

use crate::records::SECONDS_PER_DAY;
use crate::records::SubscribeError;
use crate::records::spec_new_subscription;
use crate::registry::MicroSubscriptionContract;
use crate::registry::created_module;
use crate::registry::subscribed;

verus! {

/// Module IDs are strictly increasing across successive creations: each
/// creation returns the predecessor's ID plus one, every ID is at least 1,
/// and the first module of a fresh registry gets ID 1.
pub proof fn lemma_module_ids_strictly_increasing(
    s0: MicroSubscriptionContract,
    s1: MicroSubscriptionContract,
    s2: MicroSubscriptionContract,
    name1: Seq<char>,
    price1: u64,
    id1: u64,
    name2: Seq<char>,
    price2: u64,
    id2: u64,
)
    requires
        created_module(s0, s1, name1, price1, id1),
        created_module(s1, s2, name2, price2, id2),
    ensures
        1 <= id1,
        id2 == id1 + 1,
        s0.spec_module_count() == 0 ==> id1 == 1,
{
}

/// Creating a module does not allocate any earlier ID, so an ID that no
/// creation ever returned stays unallocated: reading it yields nothing
/// (and `view_module` therefore yields the not-found sentinel).
pub proof fn lemma_never_created_stays_absent(
    pre: MicroSubscriptionContract,
    post: MicroSubscriptionContract,
    name: Seq<char>,
    price: u64,
    id: u64,
    other: u64,
)
    requires
        created_module(pre, post, name, price, id),
        other == 0 || other > post.spec_module_count(),
    ensures
        post.spec_module(other) is None,
        pre.spec_module(other) is None,
{
}

/// Viewing a freshly created module yields its record: the ID it was
/// filed under, the given name and price, open for subscriptions.
pub proof fn lemma_view_after_create(
    pre: MicroSubscriptionContract,
    post: MicroSubscriptionContract,
    name: Seq<char>,
    price: u64,
    id: u64,
)
    requires
        created_module(pre, post, name, price, id),
    ensures
        post.spec_module(id) matches Some(m) && m.module_id == id && m.name@ == name
            && m.price_per_day == price && m.is_available,
{
}

/// Subscribing to an unavailable or never-created module always fails with
/// `ModuleUnavailable`, writes nothing, and a pair that held no record
/// before the attempt holds none — and no access — after it either.
pub proof fn lemma_failed_subscribe(
    pre: MicroSubscriptionContract,
    post: MicroSubscriptionContract,
    user: u64,
    module_id: u64,
    duration_days: u64,
    now: u64,
    result: Result<(), SubscribeError>,
    t: u64,
)
    requires
        !pre.spec_module_available(module_id),
        subscribed(pre, post, user, module_id, duration_days, now, result),
    ensures
        result == Err::<(), SubscribeError>(SubscribeError::ModuleUnavailable),
        post == pre,
        pre.spec_sub(user, module_id) is None ==> {
            &&& post.spec_sub(user, module_id) is None
            &&& !pre.spec_active(user, module_id, t)
            &&& !post.spec_active(user, module_id, t)
        },
{
}

/// A successful subscription grants access immediately: checking at the
/// very time of subscribing succeeds, and the recorded payment is exactly
/// the module's daily price times the duration.
pub proof fn lemma_subscribe_then_check(
    pre: MicroSubscriptionContract,
    post: MicroSubscriptionContract,
    user: u64,
    module_id: u64,
    duration_days: u64,
    now: u64,
)
    requires
        subscribed(pre, post, user, module_id, duration_days, now, Ok(())),
    ensures
        post.spec_active(user, module_id, now),
        post.spec_sub(user, module_id) matches Some(s) && s.tokens_paid == pre.spec_price(
            module_id,
        ) * duration_days && s.start_time == now && s.start_time <= s.end_time,
{
}

/// After a successful subscription, access holds at every time from the
/// start through the expiry (`start + duration_days` days) and at no time
/// strictly past the expiry.
pub proof fn lemma_check_subscription_window(
    pre: MicroSubscriptionContract,
    post: MicroSubscriptionContract,
    user: u64,
    module_id: u64,
    duration_days: u64,
    now: u64,
    t: u64,
)
    requires
        subscribed(pre, post, user, module_id, duration_days, now, Ok(())),
    ensures
        now <= t <= now + duration_days * SECONDS_PER_DAY ==> post.spec_active(
            user,
            module_id,
            t,
        ),
        t > now + duration_days * SECONDS_PER_DAY ==> !post.spec_active(user, module_id, t),
{
}

/// Re-subscribing the same (user, module) pair fully replaces the prior
/// record: the record after the second subscription is determined by the
/// new start time and duration alone, whatever the first subscription was.
pub proof fn lemma_resubscribe_replaces(
    s0: MicroSubscriptionContract,
    s1: MicroSubscriptionContract,
    s2: MicroSubscriptionContract,
    user: u64,
    module_id: u64,
    duration1: u64,
    time1: u64,
    duration2: u64,
    time2: u64,
)
    requires
        subscribed(s0, s1, user, module_id, duration1, time1, Ok(())),
        subscribed(s1, s2, user, module_id, duration2, time2, Ok(())),
    ensures
        s2.spec_sub(user, module_id) == Some(
            spec_new_subscription(user, module_id, s0.spec_price(module_id), duration2, time2),
        ),
        s2.spec_sub(user, module_id) matches Some(r) && r.start_time == time2 && r.end_time == time2
            + duration2 * SECONDS_PER_DAY && r.tokens_paid == s0.spec_price(module_id) * duration2,
{
}

} // verus!
