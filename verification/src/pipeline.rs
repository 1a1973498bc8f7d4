//! The metrics pipeline: one shared aggregation point that every completed
//! request reports one observation to, and that hands over a snapshot of
//! everything unexported on each periodic tick and on the final forced flush.
//!
//! The pipeline keeps, beside the pending observations, a ghost history of
//! everything already handed to an export: the contracts of `record`, `tick`
//! and `force_flush` pin down, against that history, that no observation is
//! lost, duplicated, or invented.

use vstd::prelude::*;

use crate::endpoint::authority_of;
use crate::endpoint::endpoint_matches;
use crate::endpoint::host_region_ok;
use crate::endpoint::http_prefix;
use crate::endpoint::https_prefix;
use crate::endpoint::parse_endpoint;
use crate::endpoint::port_region_ok;
use crate::endpoint::valid_endpoint;
use crate::endpoint::ConfigError;
use crate::endpoint::Endpoint;
use crate::request::observation_of;
use crate::request::observe;
use crate::request::Observation;
use crate::request::Outcome;
use crate::request::Route;

verus! {

/// Immutable configuration of the export pipeline: where snapshots go, and
/// how often the periodic push runs.
pub struct ExporterConfig {
    pub endpoint_text: String,
    pub endpoint: Endpoint,
    pub push_interval_ms: u64,
}

/// The aggregation state of the metrics pipeline.
pub struct Pipeline {
    config: ExporterConfig,
    pending: Vec<Observation>,
    exported: Ghost<Seq<Observation>>,
}

/// One recording step: exactly `obs` is appended to the pending observations,
/// and nothing else moves.
pub open spec fn record_transition(pre: Pipeline, post: Pipeline, obs: Observation) -> bool {
    &&& post.pending_view() == pre.pending_view().push(obs)
    &&& post.exported_view() == pre.exported_view()
    &&& post.spec_config() == pre.spec_config()
}

/// One export step: the snapshot is exactly what was pending, which moves,
/// whole and in order, from pending to exported.
pub open spec fn flush_transition(pre: Pipeline, post: Pipeline, snapshot: Seq<Observation>) -> bool {
    &&& snapshot == pre.pending_view()
    &&& post.pending_view() == Seq::<Observation>::empty()
    &&& post.exported_view() == pre.exported_view() + snapshot
    &&& post.spec_config() == pre.spec_config()
}

impl Pipeline {
    /// Observations recorded since the last export.
    pub closed spec fn pending_view(&self) -> Seq<Observation> {
        self.pending@
    }

    /// Observations already handed to an export, in export order.
    pub closed spec fn exported_view(&self) -> Seq<Observation> {
        self.exported@
    }

    /// Everything ever recorded, in order: the exported part, then the
    /// pending part.
    pub open spec fn recorded(&self) -> Seq<Observation> {
        self.exported_view() + self.pending_view()
    }

    pub closed spec fn spec_config(&self) -> ExporterConfig {
        self.config
    }

    /// Construct the pipeline. Rejects a malformed collector endpoint, and
    /// only that: on a well-formed endpoint the pipeline starts empty, with
    /// nothing sent yet.
    pub fn initialize(endpoint: &str, push_interval_ms: u64) -> (r: Result<Pipeline, ConfigError>)
        ensures
            r is Ok <==> valid_endpoint(endpoint@),
            r is Ok ==> ({
                let p = r->Ok_0;
                &&& endpoint_matches(p.spec_config().endpoint, endpoint@)
                &&& p.spec_config().endpoint_text@ == endpoint@
                &&& p.spec_config().push_interval_ms == push_interval_ms
                &&& p.pending_view() == Seq::<Observation>::empty()
                &&& p.exported_view() == Seq::<Observation>::empty()
            }),
            r is Err ==> (r->Err_0 == ConfigError::MissingScheme <==> !(http_prefix(endpoint@)
                || https_prefix(endpoint@))),
            r is Err ==> (r->Err_0 == ConfigError::InvalidHost <==> (http_prefix(endpoint@)
                || https_prefix(endpoint@)) && !host_region_ok(authority_of(endpoint@))),
            r is Err ==> (r->Err_0 == ConfigError::InvalidPort <==> (http_prefix(endpoint@)
                || https_prefix(endpoint@)) && host_region_ok(authority_of(endpoint@))
                && !port_region_ok(authority_of(endpoint@))),
    {
        match parse_endpoint(endpoint) {
            Err(e) => Err(e),
            Ok(ep) => Ok(
                Pipeline {
                    config: ExporterConfig {
                        endpoint_text: endpoint.to_owned(),
                        endpoint: ep,
                        push_interval_ms,
                    },
                    pending: Vec::new(),
                    exported: Ghost(Seq::empty()),
                },
            ),
        }
    }

    /// Record one observation. Recording never fails and alters nothing but
    /// the pending observations, which grow by exactly this one.
    pub fn record(&mut self, obs: Observation)
        ensures
            record_transition(*old(self), *final(self), obs),
    {
        self.pending.push(obs);
    }

    /// Record the one observation that a completed request gives rise to,
    /// whatever its outcome: its operation, the outcome its status maps to,
    /// and its duration.
    pub fn complete_request(&mut self, route: Route, status: u16, duration_ms: u64)
        ensures
            record_transition(
                *old(self),
                *final(self),
                observation_of(route, status, duration_ms),
            ),
    {
        let obs = observe(route, status, duration_ms);
        self.record(obs);
    }

    /// One periodic export: hand over everything recorded since the last
    /// export, in order, and account it as exported — whether or not the
    /// transport then delivers it, the interval's snapshot is not retried.
    pub fn tick(&mut self) -> (snapshot: Vec<Observation>)
        ensures
            flush_transition(*old(self), *final(self), snapshot@),
    {
        let mut snapshot: Vec<Observation> = Vec::new();
        core::mem::swap(&mut snapshot, &mut self.pending);
        proof {
            self.exported@ = self.exported@ + snapshot@;
        }
        snapshot
    }

    /// The terminal export at shutdown: the same state change as a periodic
    /// tick. Its required exclusivity against the periodic tick is the
    /// embedding's to arrange — both need the pipeline exclusively.
    pub fn force_flush(&mut self) -> (snapshot: Vec<Observation>)
        ensures
            flush_transition(*old(self), *final(self), snapshot@),
    {
        self.tick()
    }

    /// How many observations are pending export.
    pub fn pending_len(&self) -> (n: usize)
        ensures
            n == self.pending_view().len(),
    {
        self.pending.len()
    }

    /// The pipeline's configuration.
    pub fn config(&self) -> (c: &ExporterConfig)
        ensures
            *c == self.spec_config(),
    {
        &self.config
    }
}

/// Law: a recording step extends the recorded history by exactly its one
/// observation — nothing is lost, and nothing else appears.
pub proof fn lemma_record_exactly_one(pre: Pipeline, post: Pipeline, obs: Observation)
    requires
        record_transition(pre, post, obs),
    ensures
        post.recorded() == pre.recorded().push(obs),
        post.recorded().len() == pre.recorded().len() + 1,
{
    assert(post.recorded() =~= pre.recorded().push(obs));
}

/// Law: an export hands over exactly the observations not covered by a prior
/// export, duplicates none that were, loses none, and leaves the whole
/// history covered.
pub proof fn lemma_flush_exact(pre: Pipeline, post: Pipeline, snapshot: Seq<Observation>)
    requires
        flush_transition(pre, post, snapshot),
    ensures
        snapshot == pre.recorded().skip(pre.exported_view().len() as int),
        pre.exported_view() + snapshot == pre.recorded(),
        post.recorded() == pre.recorded(),
        post.exported_view() == post.recorded(),
{
    assert(pre.recorded().skip(pre.exported_view().len() as int) =~= pre.pending_view());
    assert(post.recorded() =~= pre.recorded());
    assert(post.exported_view() =~= post.recorded());
}

/// How many observations of `s` are of operation `op` with outcome `oc`.
pub open spec fn spec_count(s: Seq<Observation>, op: Route, oc: Outcome) -> nat
    decreases s.len(),
{
    if s.len() == 0 {
        0
    } else {
        spec_count(s.drop_last(), op, oc) + (if s.last().operation == op && s.last().outcome == oc {
            1nat
        } else {
            0nat
        })
    }
}

/// Count the observations of one operation and outcome in a snapshot.
pub fn count_matching(snapshot: &Vec<Observation>, op: Route, oc: Outcome) -> (n: usize)
    ensures
        n == spec_count(snapshot@, op, oc),
{
    let mut n: usize = 0;
    let mut i: usize = 0;
    while i < snapshot.len()
        invariant
            i <= snapshot@.len(),
            n <= i,
            n == spec_count(snapshot@.take(i as int), op, oc),
        decreases snapshot@.len() - i,
    {
        let o = snapshot[i];
        proof {
            let cur = snapshot@.take(i + 1);
            assert(cur.drop_last() =~= snapshot@.take(i as int));
            assert(cur.last() == snapshot@[i as int]);
        }
        if o.operation == op && o.outcome == oc {
            n += 1;
        }
        i += 1;
    }
    proof {
        assert(snapshot@.take(snapshot@.len() as int) =~= snapshot@);
    }
    n
}

} // verus!
