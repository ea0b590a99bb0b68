//! Per-request timing records of the dispatch pipeline.
use vstd::prelude::*;

verus! {

/// Per-request timing breakdown from the dispatch pipeline.
#[derive(Debug, Clone)]
pub struct RequestTrace {
    /// Record discriminator for JSONL parsing (`rust_req`).
    pub record_type: &'static str,
    pub path: String,
    pub method: String,
    pub status: u16,
    pub total_us: u64,
    pub body_collect_us: u64,
    pub gil_acquire_us: u64,
    pub scope_build_us: u64,
    pub app_call_us: u64,
    pub submit_us: u64,
    pub response_wait_us: u64,
}

/// Accumulates per-phase timings during dispatch, producing a
/// [`RequestTrace`].
#[derive(Debug)]
pub struct RequestTraceBuilder {
    pub method: String,
    pub path: String,
    pub body_collect_us: u64,
    pub gil_acquire_us: u64,
    pub scope_build_us: u64,
    pub app_call_us: u64,
    pub submit_us: u64,
    pub response_wait_us: u64,
}

impl RequestTraceBuilder {
    /// A builder for a request, with every phase at zero.
    pub fn new(method: String, path: String) -> (r: Self)
        ensures
            r.method@ == method@,
            r.path@ == path@,
            r.body_collect_us == 0,
            r.gil_acquire_us == 0,
            r.scope_build_us == 0,
            r.app_call_us == 0,
            r.submit_us == 0,
            r.response_wait_us == 0,
    {
        RequestTraceBuilder {
            method,
            path,
            body_collect_us: 0,
            gil_acquire_us: 0,
            scope_build_us: 0,
            app_call_us: 0,
            submit_us: 0,
            response_wait_us: 0,
        }
    }

    /// Set the body collection time.
    pub fn body_collect(self, us: u64) -> (r: Self)
        ensures
            r == (RequestTraceBuilder { body_collect_us: us, ..self }),
    {
        let mut s = self;
        s.body_collect_us = us;
        s
    }

    /// Set the GIL acquisition time.
    pub fn gil_acquire(self, us: u64) -> (r: Self)
        ensures
            r == (RequestTraceBuilder { gil_acquire_us: us, ..self }),
    {
        let mut s = self;
        s.gil_acquire_us = us;
        s
    }

    /// Set the scope build time.
    pub fn scope_build(self, us: u64) -> (r: Self)
        ensures
            r == (RequestTraceBuilder { scope_build_us: us, ..self }),
    {
        let mut s = self;
        s.scope_build_us = us;
        s
    }

    /// Set the app call time.
    pub fn app_call(self, us: u64) -> (r: Self)
        ensures
            r == (RequestTraceBuilder { app_call_us: us, ..self }),
    {
        let mut s = self;
        s.app_call_us = us;
        s
    }

    /// Set the submit time.
    pub fn submit(self, us: u64) -> (r: Self)
        ensures
            r == (RequestTraceBuilder { submit_us: us, ..self }),
    {
        let mut s = self;
        s.submit_us = us;
        s
    }

    /// Set the response wait time.
    pub fn response_wait(self, us: u64) -> (r: Self)
        ensures
            r == (RequestTraceBuilder { response_wait_us: us, ..self }),
    {
        let mut s = self;
        s.response_wait_us = us;
        s
    }

    /// The trace record, with the total time and response status.
    pub fn build(self, total_us: u64, status: u16) -> (r: RequestTrace)
        ensures
            r.record_type@ == "rust_req"@,
            r.path == self.path,
            r.method == self.method,
            r.status == status,
            r.total_us == total_us,
            r.body_collect_us == self.body_collect_us,
            r.gil_acquire_us == self.gil_acquire_us,
            r.scope_build_us == self.scope_build_us,
            r.app_call_us == self.app_call_us,
            r.submit_us == self.submit_us,
            r.response_wait_us == self.response_wait_us,
    {
        RequestTrace {
            record_type: "rust_req",
            path: self.path,
            method: self.method,
            status,
            total_us,
            body_collect_us: self.body_collect_us,
            gil_acquire_us: self.gil_acquire_us,
            scope_build_us: self.scope_build_us,
            app_call_us: self.app_call_us,
            submit_us: self.submit_us,
            response_wait_us: self.response_wait_us,
        }
    }
}

/// Where the trace records are appended.
pub fn trace_path() -> (r: &'static str)
    ensures
        r@ == "/tmp/bench_rust_trace.jsonl"@,
{
    "/tmp/bench_rust_trace.jsonl"
}

} // verus!
