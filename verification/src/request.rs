//! Routes served by the service, the response plan of each handler, and the
//! observation that instrumentation derives from a completed request.

use vstd::prelude::*;

verus! {

/// The three operations the service exposes, named after their handlers.
#[derive(Clone, Copy, PartialEq, Eq, Structural, Debug)]
pub enum Route {
    Index,
    SlowFunction,
    ErrorFunction,
}

/// The outcome of one completed request: success, or the error status code
/// that was returned.
#[derive(Clone, Copy, PartialEq, Eq, Structural, Debug)]
pub enum Outcome {
    Success,
    ErrorCode(u16),
}

impl Route {
    /// The operation name under which a route's handler is instrumented.
    pub fn name(&self) -> (r: &'static str)
        ensures
            *self == Route::Index ==> r@ == "index"@,
            *self == Route::SlowFunction ==> r@ == "slow_function"@,
            *self == Route::ErrorFunction ==> r@ == "error_function"@,
    {
        match self {
            Route::Index => "index",
            Route::SlowFunction => "slow_function",
            Route::ErrorFunction => "error_function",
        }
    }
}

/// What a handler is to do for a request: suspend for `delay_ms`, then answer
/// with `status` and `body`.
pub struct HandlerPlan {
    pub status: u16,
    pub delay_ms: u64,
    pub body: &'static str,
}

/// Delay of the deliberately slow handler, in milliseconds.
pub const SLOW_DELAY_MS: u64 = 1000;

/// The route that serves a request path, if any: only the three exact paths
/// are routed.
pub open spec fn route_of(path: Seq<char>) -> Option<Route> {
    if path == seq!['/'] {
        Some(Route::Index)
    } else if path == seq!['/', 's', 'l', 'o', 'w'] {
        Some(Route::SlowFunction)
    } else if path == seq!['/', 'e', 'r', 'r', 'o', 'r'] {
        Some(Route::ErrorFunction)
    } else {
        None
    }
}

/// Dispatch by exact path match.
pub fn route_for_path(path: &str) -> (r: Option<Route>)
    ensures
        r == route_of(path@),
{
    let n = path.unicode_len();
    if n == 1 && path.get_char(0) == '/' {
        proof {
            assert(path@ =~= seq!['/']);
        }
        Some(Route::Index)
    } else if n == 5 && path.get_char(0) == '/' && path.get_char(1) == 's' && path.get_char(2)
        == 'l' && path.get_char(3) == 'o' && path.get_char(4) == 'w' {
        proof {
            assert(path@ =~= seq!['/', 's', 'l', 'o', 'w']);
        }
        Some(Route::SlowFunction)
    } else if n == 6 && path.get_char(0) == '/' && path.get_char(1) == 'e' && path.get_char(2)
        == 'r' && path.get_char(3) == 'r' && path.get_char(4) == 'o' && path.get_char(5) == 'r' {
        proof {
            assert(path@ =~= seq!['/', 'e', 'r', 'r', 'o', 'r']);
        }
        Some(Route::ErrorFunction)
    } else {
        proof {
            assert(path@ != seq!['/']);
            assert(path@ != seq!['/', 's', 'l', 'o', 'w']);
            assert(path@ != seq!['/', 'e', 'r', 'r', 'o', 'r']);
        }
        None
    }
}

/// The fixed response plan of each handler: the index and slow handlers
/// succeed with their fixed bodies, the error handler answers 500; only the
/// slow handler suspends, for `SLOW_DELAY_MS`.
pub fn plan_for(route: Route) -> (p: HandlerPlan)
    ensures
        route == Route::Index ==> p.status == 200 && p.delay_ms == 0 && p.body@ == "Hello, World!"@,
        route == Route::SlowFunction ==> p.status == 200 && p.delay_ms == SLOW_DELAY_MS && p.body@
            == "Hello, World again!"@,
        route == Route::ErrorFunction ==> p.status == 500 && p.delay_ms == 0 && p.body@ == ""@,
{
    match route {
        Route::Index => HandlerPlan { status: 200, delay_ms: 0, body: "Hello, World!" },
        Route::SlowFunction => HandlerPlan {
            status: 200,
            delay_ms: SLOW_DELAY_MS,
            body: "Hello, World again!",
        },
        Route::ErrorFunction => HandlerPlan { status: 500, delay_ms: 0, body: "" },
    }
}

/// Dispatch one request: the plan of the handler that serves its path, or
/// nothing for an unrouted path. Every request to `/` is answered 200 with
/// the fixed greeting, every request to `/error` is answered 500, and every
/// request to `/slow` is answered 200 with the second greeting after the
/// fixed delay.
pub fn dispatch(path: &str) -> (r: Option<HandlerPlan>)
    ensures
        r is Some <==> route_of(path@) is Some,
        route_of(path@) == Some(Route::Index) ==> r->0.status == 200 && r->0.delay_ms == 0
            && r->0.body@ == "Hello, World!"@,
        route_of(path@) == Some(Route::SlowFunction) ==> r->0.status == 200 && r->0.delay_ms
            == SLOW_DELAY_MS && r->0.body@ == "Hello, World again!"@,
        route_of(path@) == Some(Route::ErrorFunction) ==> r->0.status == 500 && r->0.delay_ms == 0
            && r->0.body@ == ""@,
{
    match route_for_path(path) {
        Some(route) => Some(plan_for(route)),
        None => None,
    }
}

/// The outcome that a response status maps to: 2xx and 3xx statuses are a
/// success, anything else is recorded with its error code.
pub open spec fn outcome_of_status(status: u16) -> Outcome {
    if 200 <= status < 400 {
        Outcome::Success
    } else {
        Outcome::ErrorCode(status)
    }
}

/// Classify a response status as an outcome.
pub fn outcome_for_status(status: u16) -> (r: Outcome)
    ensures
        r == outcome_of_status(status),
{
    if 200 <= status && status < 400 {
        Outcome::Success
    } else {
        Outcome::ErrorCode(status)
    }
}

/// One record of a completed request: which operation ran, how it ended, and
/// how long it took.
#[derive(Clone, Copy, PartialEq, Eq, Structural, Debug)]
pub struct Observation {
    pub operation: Route,
    pub outcome: Outcome,
    pub duration_ms: u64,
}

/// The observation a completed request gives rise to.
pub open spec fn observation_of(route: Route, status: u16, duration_ms: u64) -> Observation {
    Observation { operation: route, outcome: outcome_of_status(status), duration_ms }
}

/// Build the observation for a completed request.
pub fn observe(route: Route, status: u16, duration_ms: u64) -> (o: Observation)
    ensures
        o == observation_of(route, status, duration_ms),
{
    Observation { operation: route, outcome: outcome_for_status(status), duration_ms }
}

/// Upper bound (exclusive) of the randomized utility sleep, in milliseconds.
pub const RANDOM_DELAY_BOUND_MS: u64 = 300;

/// Relies on rand::random_range over `0..bound`: it panics only on an empty
/// range, and returns a value drawn from the range.
#[verifier::external_body]
fn random_below(bound: u64) -> (r: u64)
    requires
        bound > 0,
    ensures
        r < bound,
{
    rand::random_range(0..bound)
}

/// Draw the duration of the randomized utility sleep. Whatever the draw, the
/// duration stays under `RANDOM_DELAY_BOUND_MS`.
pub fn pick_random_sleep_ms() -> (r: u64)
    ensures
        r < RANDOM_DELAY_BOUND_MS,
{
    random_below(RANDOM_DELAY_BOUND_MS)
}

} // verus!
