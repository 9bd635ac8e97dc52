use micro_subscription::MicroSubscriptionContract;
use micro_subscription::SubscribeError;

#[test]
fn create_module_ids_start_at_one_and_increase() {
    let mut reg = MicroSubscriptionContract::new();
    let a = reg.create_module("Email".to_string(), 10);
    let b = reg.create_module("Chat".to_string(), 3);
    let c = reg.create_module("Email".to_string(), 25);
    assert_eq!(a, 1);
    assert_eq!(b, 2);
    assert_eq!(c, 3);
}

#[test]
fn view_module_of_never_created_id_is_sentinel() {
    let mut reg = MicroSubscriptionContract::new();
    let missing = reg.view_module(1);
    assert_eq!(missing.module_id, 0);
    assert_eq!(missing.name, "Not_Found");
    assert_eq!(missing.price_per_day, 0);
    assert!(!missing.is_available);
    reg.create_module("Email".to_string(), 10);
    let past_end = reg.view_module(2);
    assert_eq!(past_end.module_id, 0);
    assert!(!past_end.is_available);
    let zero = reg.view_module(0);
    assert_eq!(zero.module_id, 0);
    assert!(!zero.is_available);
}

#[test]
fn view_module_after_create_returns_the_record() {
    let mut reg = MicroSubscriptionContract::new();
    let id = reg.create_module("Email".to_string(), 10);
    let m = reg.view_module(id);
    assert_eq!(m.module_id, 1);
    assert_eq!(m.name, "Email");
    assert_eq!(m.price_per_day, 10);
    assert!(m.is_available);
}

#[test]
fn create_accepts_zero_price_and_duplicate_names() {
    let mut reg = MicroSubscriptionContract::new();
    let a = reg.create_module("Free".to_string(), 0);
    let b = reg.create_module("Free".to_string(), 0);
    assert_eq!(reg.view_module(a).price_per_day, 0);
    assert_eq!(reg.view_module(b).name, "Free");
    assert_eq!(reg.subscribe(1, a, 30, 500), Ok(()));
    assert_eq!(reg.view_subscription(1, a).tokens_paid, 0);
}

#[test]
fn subscribe_to_missing_module_fails_and_writes_nothing() {
    let mut reg = MicroSubscriptionContract::new();
    reg.create_module("Email".to_string(), 10);
    assert!(!reg.check_subscription(1, 2, 1000));
    let r = reg.subscribe(1, 2, 5, 1000);
    assert_eq!(r, Err(SubscribeError::ModuleUnavailable));
    assert!(!reg.check_subscription(1, 2, 1000));
    let sentinel = reg.view_subscription(1, 2);
    assert_eq!(sentinel.module_id, 0);
    assert!(!sentinel.is_active);
    assert_eq!(sentinel.tokens_paid, 0);
}

#[test]
fn subscribe_then_check_is_active_and_charges_price_times_days() {
    let mut reg = MicroSubscriptionContract::new();
    let id = reg.create_module("Email".to_string(), 7);
    assert_eq!(reg.subscribe(4, id, 3, 2000), Ok(()));
    assert!(reg.check_subscription(4, id, 2000));
    let s = reg.view_subscription(4, id);
    assert_eq!(s.user, 4);
    assert_eq!(s.module_id, id);
    assert_eq!(s.start_time, 2000);
    assert_eq!(s.end_time, 2000 + 3 * 86400);
    assert!(s.is_active);
    assert_eq!(s.tokens_paid, 21);
}

#[test]
fn check_subscription_window_boundaries() {
    let mut reg = MicroSubscriptionContract::new();
    let id = reg.create_module("Email".to_string(), 10);
    assert_eq!(reg.subscribe(9, id, 2, 1000), Ok(()));
    let end = 1000 + 2 * 86400;
    assert!(reg.check_subscription(9, id, 1000));
    assert!(reg.check_subscription(9, id, 50000));
    assert!(reg.check_subscription(9, id, end));
    assert!(!reg.check_subscription(9, id, end + 1));
}

#[test]
fn resubscribe_fully_replaces_the_prior_record() {
    let mut reg = MicroSubscriptionContract::new();
    let id = reg.create_module("Email".to_string(), 10);
    assert_eq!(reg.subscribe(2, id, 5, 100), Ok(()));
    let first_end = 100 + 5 * 86400;
    assert!(reg.check_subscription(2, id, first_end));
    assert_eq!(reg.subscribe(2, id, 1, 200), Ok(()));
    let s = reg.view_subscription(2, id);
    assert_eq!(s.start_time, 200);
    assert_eq!(s.end_time, 200 + 86400);
    assert_eq!(s.tokens_paid, 10);
    assert!(!reg.check_subscription(2, id, first_end));
    assert!(reg.check_subscription(2, id, 86600));
}

#[test]
fn subscriptions_of_other_pairs_are_untouched() {
    let mut reg = MicroSubscriptionContract::new();
    let email = reg.create_module("Email".to_string(), 10);
    let chat = reg.create_module("Chat".to_string(), 2);
    assert_eq!(reg.subscribe(1, email, 5, 1000), Ok(()));
    assert_eq!(reg.subscribe(1, chat, 1, 1000), Ok(()));
    assert_eq!(reg.subscribe(2, email, 2, 1000), Ok(()));
    assert_eq!(reg.subscribe(1, email, 1, 2000), Ok(()));
    assert_eq!(reg.view_subscription(1, chat).end_time, 1000 + 86400);
    assert_eq!(reg.view_subscription(2, email).end_time, 1000 + 2 * 86400);
    assert_eq!(reg.view_subscription(1, email).end_time, 2000 + 86400);
}

#[test]
fn subscribe_overflow_is_rejected_and_writes_nothing() {
    let mut reg = MicroSubscriptionContract::new();
    let pricey = reg.create_module("Vault".to_string(), u64::MAX);
    assert_eq!(reg.subscribe(1, pricey, 2, 0), Err(SubscribeError::ArithmeticOverflow));
    assert!(!reg.check_subscription(1, pricey, 0));
    let cheap = reg.create_module("Email".to_string(), 1);
    assert_eq!(reg.subscribe(1, cheap, u64::MAX, 0), Err(SubscribeError::ArithmeticOverflow));
    assert_eq!(reg.subscribe(1, cheap, 1, u64::MAX), Err(SubscribeError::ArithmeticOverflow));
    assert_eq!(reg.subscribe(1, cheap, 1, 500), Ok(()));
}

#[test]
fn scenario_email_module_five_days() {
    let mut reg = MicroSubscriptionContract::new();
    let id = reg.create_module("Email".to_string(), 10);
    assert_eq!(id, 1);
    assert_eq!(reg.subscribe(11, 1, 5, 1000), Ok(()));
    let s = reg.view_subscription(11, 1);
    assert_eq!(s.end_time, 433000);
    assert_eq!(s.tokens_paid, 50);
    assert!(reg.check_subscription(11, 1, 1000));
    assert!(!reg.check_subscription(11, 1, 433001));
}
