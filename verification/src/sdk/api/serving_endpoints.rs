//! Serving endpoints: the REST model and its readiness and entity rules.
use vstd::prelude::*;
use crate::text::concat2;

verus! {

/// Readiness state of a serving endpoint.
#[derive(Debug, Clone, Copy, PartialEq, Eq, Structural)]
pub enum EndpointReadyState {
    /// The endpoint is ready to serve requests.
    Ready,
    /// The endpoint is not yet ready.
    NotReady,
    /// An unrecognized state (forward-compatible).
    Unknown,
}

/// Config-update state of a serving endpoint.
#[derive(Debug, Clone, Copy, PartialEq, Eq, Structural)]
pub enum EndpointConfigUpdateState {
    /// No config update in progress.
    NotUpdating,
    /// A config update is in progress.
    InProgress,
    /// A config update was canceled.
    UpdateCanceled,
    /// A config update failed.
    UpdateFailed,
    /// An unrecognized state (forward-compatible).
    Unknown,
}

/// Nested state object of a serving endpoint.
#[derive(Debug, Clone, Copy)]
pub struct EndpointState {
    /// Whether the endpoint is ready to serve.
    pub ready: Option<EndpointReadyState>,
    /// Current config-update status.
    pub config_update: Option<EndpointConfigUpdateState>,
}

/// An external model reference within a served entity.
#[derive(Debug, Clone)]
pub struct ExternalModel {
    /// Model name (e.g. `"gpt-4"`).
    pub name: String,
    /// Provider name (e.g. `"openai"`).
    pub provider: Option<String>,
}

/// A single served entity (model) within a serving endpoint config.
#[derive(Debug, Clone)]
pub struct ServedEntity {
    /// Name of the served entity.
    pub name: Option<String>,
    /// External model reference, if this entity wraps an external model.
    pub external_model: Option<ExternalModel>,
}

/// Configuration of a serving endpoint, containing the served entities.
#[derive(Debug, Clone)]
pub struct EndpointConfig {
    /// Current served entities (preferred).
    pub served_entities: Vec<ServedEntity>,
    /// Deprecated alias for `served_entities`.
    pub served_models: Vec<ServedEntity>,
}

/// A Databricks serving endpoint.
#[derive(Debug, Clone)]
pub struct ServingEndpoint {
    /// Endpoint name (unique within the workspace).
    pub name: String,
    /// User who created the endpoint.
    pub creator: Option<String>,
    /// Current endpoint state (readiness, config update status).
    pub state: Option<EndpointState>,
    /// Task type (e.g. `"llm/v1/chat"`, `"llm/v1/completions"`).
    pub task: Option<String>,
    /// Endpoint configuration with served entities.
    pub config: Option<EndpointConfig>,
}

impl ServingEndpoint {
    /// Whether the endpoint reports the `Ready` state.
    pub open spec fn ready(&self) -> bool {
        self.state is Some && self.state->0.ready == Some(EndpointReadyState::Ready)
    }

    /// The served entities: `served_entities` when it is not empty, else
    /// the deprecated `served_models`, and none without a config.
    pub open spec fn served(&self) -> Seq<ServedEntity> {
        match self.config {
            Some(cfg) => if cfg.served_entities@.len() > 0 {
                cfg.served_entities@
            } else {
                cfg.served_models@
            },
            None => Seq::empty(),
        }
    }

    /// Returns `true` if the endpoint is in the `Ready` state.
    pub fn is_ready(&self) -> (r: bool)
        ensures
            r == self.ready(),
    {
        match &self.state {
            Some(s) => match s.ready {
                Some(EndpointReadyState::Ready) => true,
                _ => false,
            },
            None => false,
        }
    }

    /// Returns the served entities, preferring `served_entities` over the
    /// deprecated `served_models` field.
    pub fn entities(&self) -> (r: &[ServedEntity])
        ensures
            r@ == self.served(),
    {
        match &self.config {
            Some(cfg) => if cfg.served_entities.len() > 0 {
                cfg.served_entities.as_slice()
            } else {
                cfg.served_models.as_slice()
            },
            None => &[],
        }
    }
}

/// The REST path of the endpoint list.
pub fn list_path() -> (r: &'static str)
    ensures
        r@ == "/api/2.0/serving-endpoints"@,
{
    "/api/2.0/serving-endpoints"
}

/// The REST path of one endpoint.
pub fn endpoint_path(name: &str) -> (r: String)
    ensures
        r@ == "/api/2.0/serving-endpoints/"@ + name@,
{
    concat2("/api/2.0/serving-endpoints/", name)
}

} // verus!
