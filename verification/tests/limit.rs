use transport_service::limit::{
    plan_cache_limit, DEFAULT_PLAN_CACHE_LIMIT, PLAN_CACHE_LIMIT_VARIABLE,
};

fn limit(value: &str) -> usize {
    plan_cache_limit(Some(value.to_string()))
}

#[test]
fn the_default_limit_is_one_hundred() {
    assert_eq!(PLAN_CACHE_LIMIT_VARIABLE, "ROUTER_PLAN_CACHE_LIMIT");
    assert_eq!(DEFAULT_PLAN_CACHE_LIMIT, 100);
    assert_eq!(plan_cache_limit(None), 100);
}

#[test]
fn a_number_sets_the_limit() {
    assert_eq!(limit("0"), 0);
    assert_eq!(limit("7"), 7);
    assert_eq!(limit("512"), 512);
    assert_eq!(limit("00042"), 42);
    assert_eq!(limit("+42"), 42);
    assert_eq!(limit(&usize::MAX.to_string()), usize::MAX);
}

#[test]
fn what_is_no_number_is_ignored() {
    for value in ["", "+", "-", "-1", "-0", "++1", "+-1", " 1", "1 ", "1_000", "1.5", "0x10", "ten"] {
        assert_eq!(limit(value), 100, "{:?}", value);
    }
    assert_eq!(limit("\u{0661}"), 100);
}

#[test]
fn a_number_that_is_too_large_is_ignored() {
    assert_eq!(limit("340282366920938463463374607431768211456"), 100);
    assert_eq!(limit(&format!("{}0", usize::MAX)), 100);
}
