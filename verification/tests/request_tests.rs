use metrics_pipeline::request::plan_for;
use metrics_pipeline::request::route_for_path;
use metrics_pipeline::request::observe;
use metrics_pipeline::request::outcome_for_status;
use metrics_pipeline::request::pick_random_sleep_ms;
use metrics_pipeline::request::Outcome;
use metrics_pipeline::request::Route;
use metrics_pipeline::request::RANDOM_DELAY_BOUND_MS;
use metrics_pipeline::request::SLOW_DELAY_MS;

#[test]
fn index_plan_is_success_with_greeting() {
    let p = plan_for(Route::Index);
    assert_eq!(p.status, 200);
    assert_eq!(p.delay_ms, 0);
    assert_eq!(p.body, "Hello, World!");
}

#[test]
fn slow_plan_waits_then_greets_again() {
    let p = plan_for(Route::SlowFunction);
    assert_eq!(p.status, 200);
    assert_eq!(p.delay_ms, SLOW_DELAY_MS);
    assert_eq!(p.delay_ms, 1000);
    assert_eq!(p.body, "Hello, World again!");
}

#[test]
fn error_plan_is_a_plain_500() {
    let p = plan_for(Route::ErrorFunction);
    assert_eq!(p.status, 500);
    assert_eq!(p.delay_ms, 0);
    assert_eq!(p.body, "");
}

#[test]
fn routing_matches_exact_paths_only() {
    assert_eq!(route_for_path("/"), Some(Route::Index));
    assert_eq!(route_for_path("/slow"), Some(Route::SlowFunction));
    assert_eq!(route_for_path("/error"), Some(Route::ErrorFunction));
    assert_eq!(route_for_path(""), None);
    assert_eq!(route_for_path("/slow/"), None);
    assert_eq!(route_for_path("/index"), None);
    assert_eq!(route_for_path("slow"), None);
}

#[test]
fn dispatch_follows_routing_and_plans() {
    let p = metrics_pipeline::request::dispatch("/").unwrap();
    assert_eq!((p.status, p.delay_ms, p.body), (200, 0, "Hello, World!"));
    let p = metrics_pipeline::request::dispatch("/slow").unwrap();
    assert_eq!((p.status, p.delay_ms, p.body), (200, 1000, "Hello, World again!"));
    let p = metrics_pipeline::request::dispatch("/error").unwrap();
    assert_eq!((p.status, p.delay_ms, p.body), (500, 0, ""));
    assert!(metrics_pipeline::request::dispatch("/missing").is_none());
}

#[test]
fn route_names_match_the_instrumented_handlers() {
    assert_eq!(Route::Index.name(), "index");
    assert_eq!(Route::SlowFunction.name(), "slow_function");
    assert_eq!(Route::ErrorFunction.name(), "error_function");
}

#[test]
fn statuses_classify_into_outcomes() {
    assert_eq!(outcome_for_status(200), Outcome::Success);
    assert_eq!(outcome_for_status(302), Outcome::Success);
    assert_eq!(outcome_for_status(500), Outcome::ErrorCode(500));
    assert_eq!(outcome_for_status(404), Outcome::ErrorCode(404));
    assert_eq!(outcome_for_status(199), Outcome::ErrorCode(199));
}

#[test]
fn observation_carries_operation_outcome_and_duration() {
    let o = observe(Route::SlowFunction, 200, 1234);
    assert_eq!(o.operation, Route::SlowFunction);
    assert_eq!(o.outcome, Outcome::Success);
    assert_eq!(o.duration_ms, 1234);
    let e = observe(Route::ErrorFunction, 500, 2);
    assert_eq!(e.outcome, Outcome::ErrorCode(500));
}

#[test]
fn random_sleep_is_always_under_the_bound() {
    assert_eq!(RANDOM_DELAY_BOUND_MS, 300);
    for _ in 0..1000 {
        let d = pick_random_sleep_ms();
        assert!(d < RANDOM_DELAY_BOUND_MS);
    }
}
