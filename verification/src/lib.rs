//! A small instrumented-service library: route handling plans for a
//! three-endpoint HTTP service, and a metrics pipeline that aggregates one
//! observation per completed request and exports snapshots on demand.

pub mod endpoint;
pub mod pipeline;
pub mod request;
