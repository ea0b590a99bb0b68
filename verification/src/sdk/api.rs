//! Models of the REST resources and the logic around them.
pub mod apps;
pub mod current_user;
pub mod serving_endpoints;
