//! The current user as returned by the SCIM `/Me` endpoint.
use vstd::prelude::*;

verus! {

/// A Databricks user as returned by the SCIM `/Me` endpoint.
#[derive(Debug, Clone)]
pub struct User {
    /// Unique user identifier.
    pub id: String,
    /// Login username (typically an email address).
    pub user_name: String,
    /// Human-readable display name.
    pub display_name: Option<String>,
    /// Email addresses associated with the user.
    pub emails: Vec<UserEmail>,
    /// Whether the user account is active.
    pub active: Option<bool>,
    /// Structured name (given/family).
    pub name: Option<UserName>,
}

/// An email address entry from the SCIM user record.
#[derive(Debug, Clone)]
pub struct UserEmail {
    /// The email address.
    pub value: String,
    /// Whether this is the primary email.
    pub primary: Option<bool>,
    /// Email type (e.g. `"work"`).
    pub email_type: Option<String>,
}

/// Structured name from the SCIM user record.
#[derive(Debug, Clone)]
pub struct UserName {
    /// First / given name.
    pub given_name: Option<String>,
    /// Last / family name.
    pub family_name: Option<String>,
}

} // verus!
