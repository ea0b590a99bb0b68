//! Databricks workspace access: configuration, user agent, tokens, REST
//! models and the forwarded-user header.
pub mod api;
pub mod auth;
pub mod client;
pub mod config_parser;
pub mod error;
pub mod config;
pub mod useragent;

use vstd::prelude::*;
use crate::text::{
    chars_of, concat3, find_char, lemma_split_on_first, split_on, string_of_range,
};

verus! {

/// The workspace id named by a host URL: the text after its first `-` up
/// to the next `-` or `.`, or `placeholder` when the host has no `-`.
pub open spec fn workspace_id(host: Seq<char>) -> Seq<char> {
    let parts = split_on(host, '-');
    if parts.len() >= 2 {
        split_on(parts[1], '.')[0]
    } else {
        "placeholder"@
    }
}

/// Extract the workspace ID from a Databricks host URL, e.g.
/// `https://adb-1234567890123456.7.azuredatabricks.net` gives
/// `1234567890123456`.
pub fn extract_workspace_id(host: &str) -> (r: String)
    ensures
        r@ == workspace_id(host@),
{
    let v = chars_of(host);
    let n = v.len();
    let i = find_char(&v, 0, n, '-');
    proof {
        assert(v@.subrange(0, n as int) =~= v@);
        lemma_split_on_first(v@, '-', i as int);
    }
    if i == n {
        return String::from_str("placeholder");
    }
    let ghost rest = v@.subrange(i + 1, n as int);
    let j = find_char(&v, i + 1, n, '-');
    proof {
        assert forall|k: int| 0 <= k < j - (i + 1) implies #[trigger] rest[k] != '-' by {
            assert(rest[k] == v@[k + i + 1]);
        }
        lemma_split_on_first(rest, '-', j - (i + 1));
        assert(rest.subrange(0, j - (i + 1)) =~= v@.subrange(i + 1, j as int));
    }
    let ghost seg = v@.subrange(i + 1, j as int);
    let k = find_char(&v, i + 1, j, '.');
    proof {
        assert forall|m: int| 0 <= m < k - (i + 1) implies #[trigger] seg[m] != '.' by {
            assert(seg[m] == v@[m + i + 1]);
        }
        lemma_split_on_first(seg, '.', k - (i + 1));
        assert(seg.subrange(0, k - (i + 1)) =~= v@.subrange(i + 1, k as int));
    }
    string_of_range(&v, i + 1, k)
}

/// The forwarded-user header value: `{user_id}@{workspace_id}`.
pub fn forwarded_user_header(user_id: &str, host: &str) -> (r: String)
    ensures
        r@ == user_id@ + "@"@ + workspace_id(host@),
{
    let w = extract_workspace_id(host);
    concat3(user_id, "@", w.as_str())
}

} // verus!
