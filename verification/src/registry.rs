//! The registry state machine: module ID allocation, the module registry,
//! the subscription ledger, and the operations that read and mutate them.
//!
//! The host environment (durable storage, caller authentication, the clock,
//! logging) stays outside: every operation here works on the owned state,
//! and where a decision depends on the clock the operation takes the current
//! time as an argument.

use vstd::prelude::*;
use vstd::string::StringExecFns;

use crate::records::ModuleBook;
use crate::records::SaaSModule;
use crate::records::SubBook;
use crate::records::SubscribeError;
use crate::records::Subscription;
use crate::records::new_module;
use crate::records::plan_subscription;
use crate::records::spec_new_subscription;
use crate::records::spec_sub_key;
use crate::records::spec_subscription_active;
use crate::records::subscription_active;
use crate::records::subscription_fits;

verus! {

/// Looks a ledger key up in a sequence of subscription records: the first
/// record filed under the key, if any.
pub open spec fn spec_find_sub(subs: Seq<Subscription>, key: SubBook) -> Option<Subscription>
    decreases subs.len(),
{
    if subs.len() == 0 {
        None
    } else if spec_sub_key(subs[0]) == key {
        Some(subs[0])
    } else {
        spec_find_sub(subs.drop_first(), key)
    }
}

/// No two records of `subs` are filed under the same ledger key.
pub open spec fn unique_sub_keys(subs: Seq<Subscription>) -> bool {
    forall|i: int, j: int|
        0 <= i < j < subs.len() ==> spec_sub_key(#[trigger] subs[i]) != spec_sub_key(
            #[trigger] subs[j],
        )
}

/// A key is absent from a sequence exactly when no record carries it.
proof fn lemma_find_sub_absent(subs: Seq<Subscription>, key: SubBook)
    ensures
        spec_find_sub(subs, key) is None <==> (forall|i: int|
            0 <= i < subs.len() ==> spec_sub_key(#[trigger] subs[i]) != key),
    decreases subs.len(),
{
    if subs.len() > 0 {
        let rest = subs.drop_first();
        lemma_find_sub_absent(rest, key);
        if spec_find_sub(subs, key) is None {
            assert forall|i: int| 0 <= i < subs.len() implies spec_sub_key(#[trigger] subs[i])
                != key by {
                if i > 0 {
                    assert(rest[i - 1] == subs[i]);
                    assert(spec_sub_key(rest[i - 1]) != key);
                }
            }
        } else {
            if spec_sub_key(subs[0]) != key {
                let w = choose|i: int| 0 <= i < rest.len() && spec_sub_key(#[trigger] rest[i])
                    == key;
                assert(subs[w + 1] == rest[w]);
                assert(spec_sub_key(subs[w + 1]) == key);
            }
        }
    }
}

/// Looking up the key of a record that is the first of its key yields that
/// record.
proof fn lemma_find_sub_first(subs: Seq<Subscription>, key: SubBook, i: int)
    requires
        0 <= i < subs.len(),
        spec_sub_key(subs[i]) == key,
        forall|j: int| 0 <= j < i ==> spec_sub_key(#[trigger] subs[j]) != key,
    ensures
        spec_find_sub(subs, key) == Some(subs[i]),
    decreases i,
{
    if i > 0 {
        assert(forall|j: int|
            0 <= j < subs.drop_first().len() ==> #[trigger] subs.drop_first()[j] == subs[j + 1]);
        lemma_find_sub_first(subs.drop_first(), key, i - 1);
    }
}

/// Overwriting the one record that carries a key changes that key's lookup
/// to the new record and no other key's lookup at all.
proof fn lemma_find_sub_update(subs: Seq<Subscription>, i: int, s: Subscription)
    requires
        0 <= i < subs.len(),
        spec_sub_key(subs[i]) == spec_sub_key(s),
        forall|j: int|
            0 <= j < subs.len() && j != i ==> spec_sub_key(#[trigger] subs[j]) != spec_sub_key(s),
    ensures
        spec_find_sub(subs.update(i, s), spec_sub_key(s)) == Some(s),
        forall|k: SubBook|
            k != spec_sub_key(s) ==> #[trigger] spec_find_sub(subs.update(i, s), k)
                == spec_find_sub(subs, k),
    decreases subs.len(),
{
    let upd = subs.update(i, s);
    let rest = subs.drop_first();
    if i == 0 {
        assert(upd.drop_first() =~= rest);
        assert(spec_sub_key(upd[0]) == spec_sub_key(s));
        assert forall|k: SubBook| k != spec_sub_key(s) implies #[trigger] spec_find_sub(upd, k)
            == spec_find_sub(subs, k) by {
            assert(spec_find_sub(upd, k) == spec_find_sub(rest, k));
            assert(spec_find_sub(subs, k) == spec_find_sub(rest, k));
        }
    } else {
        assert(upd.drop_first() =~= rest.update(i - 1, s));
        assert forall|j: int|
            0 <= j < rest.len() && j != i - 1 implies spec_sub_key(#[trigger] rest[j])
            != spec_sub_key(s) by {
            assert(rest[j] == subs[j + 1]);
        }
        assert(rest[i - 1] == subs[i]);
        lemma_find_sub_update(rest, i - 1, s);
        assert(spec_sub_key(upd[0]) == spec_sub_key(subs[0]));
        assert(spec_sub_key(subs[0]) != spec_sub_key(s));
        assert(spec_find_sub(upd, spec_sub_key(s)) == spec_find_sub(rest.update(i - 1, s),
            spec_sub_key(s)));
        assert forall|k: SubBook| k != spec_sub_key(s) implies #[trigger] spec_find_sub(upd, k)
            == spec_find_sub(subs, k) by {
            if spec_sub_key(subs[0]) == k {
                assert(spec_find_sub(upd, k) == Some(upd[0]));
                assert(spec_find_sub(subs, k) == Some(subs[0]));
            } else {
                assert(spec_find_sub(upd, k) == spec_find_sub(rest.update(i - 1, s), k));
                assert(spec_find_sub(rest.update(i - 1, s), k) == spec_find_sub(rest, k));
                assert(spec_find_sub(subs, k) == spec_find_sub(rest, k));
            }
        }
    }
}

/// Appending a record whose key is absent makes that key's lookup yield the
/// new record and changes no other key's lookup.
proof fn lemma_find_sub_push(subs: Seq<Subscription>, s: Subscription)
    requires
        forall|i: int| 0 <= i < subs.len() ==> spec_sub_key(#[trigger] subs[i]) != spec_sub_key(s),
    ensures
        spec_find_sub(subs.push(s), spec_sub_key(s)) == Some(s),
        forall|k: SubBook|
            k != spec_sub_key(s) ==> #[trigger] spec_find_sub(subs.push(s), k) == spec_find_sub(
                subs,
                k,
            ),
    decreases subs.len(),
{
    let pushed = subs.push(s);
    let rest = subs.drop_first();
    if subs.len() == 0 {
        assert(pushed[0] == s);
        assert(pushed.drop_first() =~= Seq::<Subscription>::empty());
        assert forall|k: SubBook| k != spec_sub_key(s) implies #[trigger] spec_find_sub(pushed, k)
            == spec_find_sub(subs, k) by {
            assert(spec_find_sub(pushed, k) == spec_find_sub(pushed.drop_first(), k));
            assert(spec_find_sub(pushed.drop_first(), k) is None);
        }
    } else {
        assert(pushed.drop_first() =~= rest.push(s));
        assert forall|i: int| 0 <= i < rest.len() implies spec_sub_key(#[trigger] rest[i])
            != spec_sub_key(s) by {
            assert(rest[i] == subs[i + 1]);
        }
        lemma_find_sub_push(rest, s);
        assert(pushed[0] == subs[0]);
        assert(spec_sub_key(subs[0]) != spec_sub_key(s));
        assert(spec_find_sub(pushed, spec_sub_key(s)) == spec_find_sub(rest.push(s),
            spec_sub_key(s)));
        assert forall|k: SubBook| k != spec_sub_key(s) implies #[trigger] spec_find_sub(pushed, k)
            == spec_find_sub(subs, k) by {
            if spec_sub_key(subs[0]) == k {
                assert(spec_find_sub(pushed, k) == Some(pushed[0]));
                assert(spec_find_sub(subs, k) == Some(subs[0]));
            } else {
                assert(spec_find_sub(pushed, k) == spec_find_sub(rest.push(s), k));
                assert(spec_find_sub(rest.push(s), k) == spec_find_sub(rest, k));
                assert(spec_find_sub(subs, k) == spec_find_sub(rest, k));
            }
        }
    }
}

/// The subscription-billing registry: the module registry, the subscription
/// ledger, and (implicitly, as the registry's length) the module counter.
pub struct MicroSubscriptionContract {
    /// Module records in creation order: the record at index `i` carries
    /// module ID `i + 1`, so the registry doubles as the module counter.
    pub modules: Vec<SaaSModule>,
    /// The latest subscription record of each (user, module) pair, at most
    /// one record per ledger key.
    pub subscriptions: Vec<Subscription>,
}

impl MicroSubscriptionContract {
    /// Well-formedness: module IDs are exactly the positions shifted by
    /// one (sequential from 1, 0 left free as the not-found sentinel), and
    /// the ledger holds at most one record per (user, module) key.
    pub open spec fn wf(self) -> bool {
        &&& forall|i: int|
            0 <= i < self.modules@.len() ==> (#[trigger] self.modules@[i]).module_id == i + 1
        &&& unique_sub_keys(self.subscriptions@)
    }

    /// How many modules have ever been created.
    pub open spec fn spec_module_count(self) -> nat {
        self.modules@.len()
    }

    /// The module record filed under an ID, if the ID was ever allocated.
    pub open spec fn spec_module(self, module_id: u64) -> Option<SaaSModule> {
        if 1 <= module_id && module_id <= self.modules@.len() {
            Some(self.modules@[module_id - 1])
        } else {
            None
        }
    }

    /// Whether a module exists and is open for new subscriptions.
    pub open spec fn spec_module_available(self, module_id: u64) -> bool {
        match self.spec_module(module_id) {
            Some(m) => m.is_available,
            None => false,
        }
    }

    /// The daily price of a module; 0 for an ID that was never allocated.
    pub open spec fn spec_price(self, module_id: u64) -> u64 {
        match self.spec_module(module_id) {
            Some(m) => m.price_per_day,
            None => 0,
        }
    }

    /// The subscription record of a (user, module) pair, if one was ever
    /// written.
    pub open spec fn spec_sub(self, user: u64, module_id: u64) -> Option<Subscription> {
        spec_find_sub(self.subscriptions@, SubBook::Subscription(user, module_id))
    }

    /// Whether a (user, module) pair holds access at time `now`: a record
    /// exists, is marked active, and has not expired.
    pub open spec fn spec_active(self, user: u64, module_id: u64, now: u64) -> bool {
        match self.spec_sub(user, module_id) {
            Some(s) => spec_subscription_active(s, now),
            None => false,
        }
    }

    /// A registry with no modules and no subscriptions.
    pub fn new() -> (registry: Self)
        ensures
            registry.wf(),
            registry.spec_module_count() == 0,
            registry.subscriptions@.len() == 0,
    {
        MicroSubscriptionContract { modules: Vec::new(), subscriptions: Vec::new() }
    }

    /// Allocates the next module ID and registers a module under it, open
    /// for subscriptions. Duplicate names may coexist under different IDs,
    /// and any price (zero included) is accepted.
    pub fn create_module(&mut self, name: String, price_per_day: u64) -> (module_id: u64)
        requires
            old(self).wf(),
            old(self).spec_module_count() < u64::MAX,
        ensures
            final(self).wf(),
            created_module(*old(self), *final(self), name@, price_per_day, module_id),
    {
        let count: u64 = self.modules.len() as u64;
        let module = new_module(count, name, price_per_day);
        let module_id: u64 = module.module_id;
        self.modules.push(module);
        module_id
    }

    /// Looks a registry key up: a borrow of the module record filed under
    /// it, if the ID was ever allocated.
    fn lookup_module(&self, key: ModuleBook) -> (found: Option<&SaaSModule>)
        ensures
            match key {
                ModuleBook::Module(module_id) => match found {
                    Some(m) => self.spec_module(module_id) == Some(*m),
                    None => self.spec_module(module_id) is None,
                },
            },
    {
        let ModuleBook::Module(module_id) = key;
        if 1 <= module_id && module_id <= self.modules.len() as u64 {
            Some(&self.modules[(module_id - 1) as usize])
        } else {
            None
        }
    }

    /// Reads a module record. An ID that was never allocated yields the
    /// not-found sentinel (`module_id` 0, price 0, unavailable, named
    /// `Not_Found`) rather than an error; callers detect absence by
    /// `module_id == 0` or by `is_available == false`.
    pub fn view_module(&self, module_id: u64) -> (module: SaaSModule)
        ensures
            match self.spec_module(module_id) {
                Some(m) => module == m,
                None => is_sentinel_module(module),
            },
    {
        match self.lookup_module(ModuleBook::Module(module_id)) {
            Some(m) => SaaSModule {
                module_id: m.module_id,
                name: m.name.clone(),
                price_per_day: m.price_per_day,
                is_available: m.is_available,
            },
            None => SaaSModule {
                module_id: 0,
                name: String::from_str("Not_Found"),
                price_per_day: 0,
                is_available: false,
            },
        }
    }

    /// Reads the subscription record of a (user, module) pair. A pair that
    /// never subscribed yields the inactive sentinel record rather than an
    /// error.
    pub fn view_subscription(&self, user: u64, module_id: u64) -> (sub: Subscription)
        ensures
            match self.spec_sub(user, module_id) {
                Some(s) => sub == s,
                None => sub == spec_sentinel_subscription(user),
            },
    {
        let ghost key = SubBook::Subscription(user, module_id);
        let n: usize = self.subscriptions.len();
        let mut i: usize = 0;
        while i < n
            invariant
                n == self.subscriptions@.len(),
                i <= n,
                forall|j: int|
                    0 <= j < i ==> spec_sub_key(#[trigger] self.subscriptions@[j]) != key,
                key == SubBook::Subscription(user, module_id),
            decreases n - i,
        {
            let s = self.subscriptions[i];
            if s.user == user && s.module_id == module_id {
                proof {
                    lemma_find_sub_first(self.subscriptions@, key, i as int);
                }
                return s;
            }
            i = i + 1;
        }
        proof {
            lemma_find_sub_absent(self.subscriptions@, key);
        }
        Subscription {
            user,
            module_id: 0,
            start_time: 0,
            end_time: 0,
            is_active: false,
            tokens_paid: 0,
        }
    }

    /// Files a subscription record under its (user, module) key,
    /// overwriting any record the pair held before and touching no other
    /// pair's record.
    fn store_subscription(&mut self, s: Subscription)
        requires
            old(self).wf(),
        ensures
            final(self).wf(),
            final(self).modules@ == old(self).modules@,
            spec_find_sub(final(self).subscriptions@, spec_sub_key(s)) == Some(s),
            forall|k: SubBook|
                k != spec_sub_key(s) ==> spec_find_sub(final(self).subscriptions@, k)
                    == spec_find_sub(old(self).subscriptions@, k),
    {
        let n: usize = self.subscriptions.len();
        let mut i: usize = 0;
        while i < n
            invariant
                *self == *old(self),
                old(self).wf(),
                n == self.subscriptions@.len(),
                i <= n,
                forall|j: int|
                    0 <= j < i ==> spec_sub_key(#[trigger] self.subscriptions@[j])
                        != spec_sub_key(s),
            decreases n - i,
        {
            let at = self.subscriptions[i];
            if at.user == s.user && at.module_id == s.module_id {
                self.subscriptions[i] = s;
                proof {
                    let ghost pre = old(self).subscriptions@;
                    assert forall|a: int|
                        0 <= a < pre.len() && a != i implies spec_sub_key(#[trigger] pre[a])
                        != spec_sub_key(s) by {
                        if a < i {
                            assert(spec_sub_key(pre[a]) != spec_sub_key(pre[i as int]));
                        } else {
                            assert(spec_sub_key(pre[i as int]) != spec_sub_key(pre[a]));
                        }
                    }
                    lemma_find_sub_update(pre, i as int, s);
                    assert forall|a: int, b: int|
                        0 <= a < b < self.subscriptions@.len() implies spec_sub_key(
                        #[trigger] self.subscriptions@[a]) != spec_sub_key(
                        #[trigger] self.subscriptions@[b]) by {
                        assert(spec_sub_key(self.subscriptions@[a]) == spec_sub_key(pre[a]));
                        assert(spec_sub_key(self.subscriptions@[b]) == spec_sub_key(pre[b]));
                    }
                }
                return ;
            }
            i = i + 1;
        }
        self.subscriptions.push(s);
        proof {
            let ghost pre = old(self).subscriptions@;
            lemma_find_sub_push(pre, s);
            assert forall|a: int, b: int|
                0 <= a < b < self.subscriptions@.len() implies spec_sub_key(
                #[trigger] self.subscriptions@[a]) != spec_sub_key(
                #[trigger] self.subscriptions@[b]) by {
                assert(self.subscriptions@[a] == pre[a]);
                if b < pre.len() {
                    assert(self.subscriptions@[b] == pre[b]);
                } else {
                    assert(self.subscriptions@[b] == s);
                }
            }
        }
    }

    /// Creates (or fully replaces) the subscription of `user` to a module:
    /// validates that the module is open for subscriptions, charges
    /// `price_per_day * duration_days` up front, and grants access from
    /// `now` until `duration_days` days later. On failure nothing is
    /// written and nothing is charged. Authenticating the caller as `user`
    /// is the host's concern and precedes this call.
    pub fn subscribe(&mut self, user: u64, module_id: u64, duration_days: u64, now: u64) -> (result:
        Result<(), SubscribeError>)
        requires
            old(self).wf(),
        ensures
            final(self).wf(),
            subscribed(*old(self), *final(self), user, module_id, duration_days, now, result),
    {
        let module = self.view_module(module_id);
        match plan_subscription(&module, user, duration_days, now) {
            Ok(sub) => {
                proof {
                    assert(self.spec_module(module_id) is Some);
                    assert(self.modules@[module_id - 1].module_id == module_id);
                }
                self.store_subscription(sub);
                Ok(())
            },
            Err(e) => Err(e),
        }
    }

    /// Answers whether `user` currently holds access to a module: a
    /// subscription record exists, is marked active, and `now` has not
    /// passed its expiry. Never errors; an absent record reads as `false`.
    pub fn check_subscription(&self, user: u64, module_id: u64, now: u64) -> (active: bool)
        ensures
            active == self.spec_active(user, module_id, now),
    {
        let sub = self.view_subscription(user, module_id);
        subscription_active(&sub, now)
    }
}

/// The sentinel record that `view_module` yields for an ID that was never
/// allocated: ID 0 (never a real ID), unavailable, priced at zero, named
/// `Not_Found`.
pub open spec fn is_sentinel_module(m: SaaSModule) -> bool {
    &&& m.module_id == 0
    &&& m.name@ == "Not_Found"@
    &&& m.price_per_day == 0
    &&& !m.is_available
}

/// The sentinel record that `view_subscription` yields for a pair that
/// never subscribed: inactive, expired at time 0, nothing paid.
pub open spec fn spec_sentinel_subscription(user: u64) -> Subscription {
    (Subscription {
        user,
        module_id: 0,
        start_time: 0,
        end_time: 0,
        is_active: false,
        tokens_paid: 0,
    })
}

/// The state change of one successful `create_module` call: the returned
/// ID continues the sequence, the new module is registered under it open
/// for subscriptions, and no other module and no subscription is touched.
pub open spec fn created_module(
    pre: MicroSubscriptionContract,
    post: MicroSubscriptionContract,
    name: Seq<char>,
    price_per_day: u64,
    module_id: u64,
) -> bool {
    &&& module_id == pre.spec_module_count() + 1
    &&& post.spec_module_count() == pre.spec_module_count() + 1
    &&& (forall|id: u64| id != module_id ==> post.spec_module(id) == pre.spec_module(id))
    &&& (post.spec_module(module_id) matches Some(m) && m.module_id == module_id && m.name@ == name
        && m.price_per_day == price_per_day && m.is_available)
    &&& post.subscriptions@ == pre.subscriptions@
}

/// The state change of one `subscribe` call, by outcome. Success happens
/// exactly on an available module with cost and expiry in range of `u64`,
/// writes the fully determined new record for the (user, module) pair, and
/// leaves every other record and the module registry untouched; either
/// failure leaves the state exactly as it was.
pub open spec fn subscribed(
    pre: MicroSubscriptionContract,
    post: MicroSubscriptionContract,
    user: u64,
    module_id: u64,
    duration_days: u64,
    now: u64,
    result: Result<(), SubscribeError>,
) -> bool {
    match result {
        Ok(_) => {
            &&& pre.spec_module_available(module_id)
            &&& subscription_fits(pre.spec_price(module_id), duration_days, now)
            &&& post.spec_sub(user, module_id) == Some(
                spec_new_subscription(user, module_id, pre.spec_price(module_id), duration_days, now),
            )
            &&& (forall|u2: u64, m2: u64|
                !(u2 == user && m2 == module_id) ==> post.spec_sub(u2, m2) == pre.spec_sub(u2, m2))
            &&& post.modules@ == pre.modules@
        },
        Err(SubscribeError::ModuleUnavailable) => {
            &&& !pre.spec_module_available(module_id)
            &&& post == pre
        },
        Err(SubscribeError::ArithmeticOverflow) => {
            &&& pre.spec_module_available(module_id)
            &&& !subscription_fits(pre.spec_price(module_id), duration_days, now)
            &&& post == pre
        },
    }
}

} // verus!
