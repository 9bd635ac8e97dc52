use micro_subscription::SaaSModule;
use micro_subscription::SubscribeError;
use micro_subscription::Subscription;
use micro_subscription::records::plan_subscription;
use micro_subscription::records::sub_key;
use micro_subscription::records::subscription_active;
use micro_subscription::records::SubBook;

fn email_module() -> SaaSModule {
    SaaSModule { module_id: 1, name: "Email".to_string(), price_per_day: 10, is_available: true }
}

#[test]
fn plan_builds_the_exact_record() {
    let s = plan_subscription(&email_module(), 4, 5, 1000).unwrap();
    assert_eq!(s.user, 4);
    assert_eq!(s.module_id, 1);
    assert_eq!(s.start_time, 1000);
    assert_eq!(s.end_time, 433000);
    assert!(s.is_active);
    assert_eq!(s.tokens_paid, 50);
}

#[test]
fn plan_refuses_unavailable_module() {
    let mut m = email_module();
    m.is_available = false;
    assert_eq!(plan_subscription(&m, 4, 5, 1000), Err(SubscribeError::ModuleUnavailable));
}

#[test]
fn plan_refuses_overflowing_cost_or_expiry() {
    let mut m = email_module();
    m.price_per_day = u64::MAX;
    assert_eq!(plan_subscription(&m, 4, 2, 0), Err(SubscribeError::ArithmeticOverflow));
    let m2 = email_module();
    assert_eq!(plan_subscription(&m2, 4, u64::MAX / 86400 + 1, 0), Err(SubscribeError::ArithmeticOverflow));
    assert_eq!(plan_subscription(&m2, 4, 1, u64::MAX - 86399), Err(SubscribeError::ArithmeticOverflow));
}

#[test]
fn activity_needs_the_flag_and_an_unexpired_record() {
    let s = Subscription {
        user: 1,
        module_id: 1,
        start_time: 100,
        end_time: 200,
        is_active: true,
        tokens_paid: 10,
    };
    assert!(subscription_active(&s, 100));
    assert!(subscription_active(&s, 200));
    assert!(!subscription_active(&s, 201));
    let mut inactive = s;
    inactive.is_active = false;
    assert!(!subscription_active(&inactive, 150));
}

#[test]
fn ledger_key_pairs_user_and_module() {
    let s = Subscription {
        user: 8,
        module_id: 3,
        start_time: 0,
        end_time: 0,
        is_active: true,
        tokens_paid: 0,
    };
    assert_eq!(sub_key(&s), SubBook::Subscription(8, 3));
}
