//! Query helpers of the dev database (search indexes).
use vstd::prelude::*;
use crate::db::fts::{sanitized_query, sanitize_fts5_terms};
use crate::text::join_strings;

verus! {

/// Sanitize a query string for FTS5 MATCH syntax: every whitespace-separated
/// term is cleaned and quoted, terms that clean to nothing are dropped, and
/// the rest are joined with ` OR `.
pub fn sanitize_fts5_query(query: &str) -> (r: String)
    ensures
        r@ == sanitized_query(query@),
{
    let terms = sanitize_fts5_terms(query);
    join_strings(&terms, " OR ")
}

/// The statement that tells whether a table exists.
pub fn table_exists_sql() -> (r: &'static str)
    ensures
        r@ == "SELECT EXISTS(SELECT 1 FROM sqlite_master WHERE type='table' AND name=?1)"@,
{
    "SELECT EXISTS(SELECT 1 FROM sqlite_master WHERE type='table' AND name=?1)"
}

} // verus!
