//! Verified core of the apx toolkit: configuration parsing, header and
//! query building, request-parameter lookup and the small state machines
//! that drive the ASGI bridge.
use vstd::prelude::*;

pub mod text;
pub mod sdk;
pub mod db;
pub mod framework;

verus! {

} // verus!
