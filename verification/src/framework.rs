//! The HTTP-to-Python bridge: route metadata, discovery, errors, the ASGI
//! event rules, request-parameter lookup and the dependency plan.
//!
//! These modules hold the decisions of the bridge as functions on plain
//! values. The runtime that applies them (the pyo3 calls into Python, the
//! asyncio loop and its driver threads, the axum/hyper server) is not part
//! of this crate: it is built on pyo3, axum, hyper and tower, and on
//! transport and runtime modules that this crate does not have.
pub mod app_discovery;
pub mod asgi;
pub mod bench_trace;
pub mod binding;
pub mod direct;
pub mod discovery;
pub mod error;
pub mod event_loop;
pub mod extract;
pub mod lifespan;
pub mod plan;
pub mod route;
pub mod scheduling;
pub mod scope;
