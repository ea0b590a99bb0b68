//! The statements of the logs database and the values bound to them.
use vstd::prelude::*;
use crate::text::{concat3, decimal, u64_to_string};

verus! {

/// Retention period in seconds (7 days).
pub const RETENTION_SECONDS: i64 = 7 * 24 * 60 * 60;

/// The columns read back from the logs table, in order.
pub open spec fn select_head() -> Seq<char> {
    "SELECT timestamp_ns, observed_timestamp_ns, severity_number, severity_text, body, service_name, app_path, resource_attributes, log_attributes, trace_id, span_id FROM logs WHERE "@
}

/// The timestamp a record is ordered and filtered by: its own timestamp,
/// or the observed one where that is zero.
pub open spec fn effective_ts() -> Seq<char> {
    "COALESCE(NULLIF(timestamp_ns, 0), observed_timestamp_ns)"@
}

/// The condition on the app path bound as parameter `?n`.
pub open spec fn path_filter(n: Seq<char>) -> Seq<char> {
    "(app_path LIKE ?"@ + n + " OR ?"@ + n + " LIKE '%' || app_path || '%')"@
}

/// The statement of `query_logs`: by app path (`?1`, when one is given)
/// and start time, oldest first, at most `limit` rows when a limit is given.
pub open spec fn logs_query(has_app_path: bool, limit: Option<nat>) -> Seq<char> {
    let cond = if has_app_path {
        path_filter("1"@) + " AND "@ + effective_ts() + " >= ?2"@
    } else {
        effective_ts() + " >= ?1"@
    };
    let order = " ORDER BY "@ + effective_ts() + " ASC"@;
    match limit {
        Some(l) => select_head() + cond + order + " LIMIT "@ + decimal(l),
        None => select_head() + cond + order,
    }
}

/// The statement of `query_logs_after_id`: rows after an id (`?1`), by app
/// path (`?2`) when one is given, oldest first.
pub open spec fn logs_after_id_query(has_app_path: bool) -> Seq<char> {
    let cond = if has_app_path {
        "id > ?1 AND "@ + path_filter("2"@)
    } else {
        "id > ?1"@
    };
    select_head() + cond + " ORDER BY "@ + effective_ts() + " ASC"@
}

fn push_str(s: &mut String, t: &str)
    ensures
        final(s)@ == old(s)@ + t@,
{
    s.append(t);
}

fn push_path_filter(s: &mut String, n: &str)
    ensures
        final(s)@ == old(s)@ + path_filter(n@),
{
    push_str(s, "(app_path LIKE ?");
    push_str(s, n);
    push_str(s, " OR ?");
    push_str(s, n);
    push_str(s, " LIKE '%' || app_path || '%')");
}

/// The SQL text of a log query by app path and start time.
pub fn query_logs_sql(has_app_path: bool, limit: Option<usize>) -> (r: String)
    ensures
        r@ == logs_query(
            has_app_path,
            match limit {
                Some(l) => Some(l as nat),
                None => None,
            },
        ),
{
    let mut s = String::from_str(
        "SELECT timestamp_ns, observed_timestamp_ns, severity_number, severity_text, body, service_name, app_path, resource_attributes, log_attributes, trace_id, span_id FROM logs WHERE ",
    );
    if has_app_path {
        push_path_filter(&mut s, "1");
        push_str(&mut s, " AND ");
        push_str(&mut s, "COALESCE(NULLIF(timestamp_ns, 0), observed_timestamp_ns)");
        push_str(&mut s, " >= ?2");
    } else {
        push_str(&mut s, "COALESCE(NULLIF(timestamp_ns, 0), observed_timestamp_ns)");
        push_str(&mut s, " >= ?1");
    }
    push_str(&mut s, " ORDER BY ");
    push_str(&mut s, "COALESCE(NULLIF(timestamp_ns, 0), observed_timestamp_ns)");
    push_str(&mut s, " ASC");
    match limit {
        Some(l) => {
            push_str(&mut s, " LIMIT ");
            let d = u64_to_string(l as u64);
            push_str(&mut s, d.as_str());
        },
        None => {},
    }
    s
}

/// The SQL text of a follow-mode query for rows after an id.
pub fn query_logs_after_id_sql(has_app_path: bool) -> (r: String)
    ensures
        r@ == logs_after_id_query(has_app_path),
{
    let mut s = String::from_str(
        "SELECT timestamp_ns, observed_timestamp_ns, severity_number, severity_text, body, service_name, app_path, resource_attributes, log_attributes, trace_id, span_id FROM logs WHERE ",
    );
    if has_app_path {
        push_str(&mut s, "id > ?1 AND ");
        push_path_filter(&mut s, "2");
    } else {
        push_str(&mut s, "id > ?1");
    }
    push_str(&mut s, " ORDER BY ");
    push_str(&mut s, "COALESCE(NULLIF(timestamp_ns, 0), observed_timestamp_ns)");
    push_str(&mut s, " ASC");
    s
}

/// The `LIKE` pattern bound for an app path: the path between `%` signs.
pub fn app_path_pattern(path: &str) -> (r: String)
    ensures
        r@ == "%"@ + path@ + "%"@,
{
    concat3("%", path, "%")
}

/// The `created_at` cutoff of the retention cleanup, from the seconds since
/// the Unix epoch read from the clock (`None` when the clock reads before
/// the epoch, which gives the cutoff 0).
pub fn cleanup_cutoff(secs_since_epoch: Option<u64>) -> (r: i64)
    requires
        secs_since_epoch matches Some(s) ==> (s as i64) - RETENTION_SECONDS >= i64::MIN,
    ensures
        r == match secs_since_epoch {
            Some(s) => (s as i64) - RETENTION_SECONDS,
            None => 0,
        },
{
    match secs_since_epoch {
        Some(s) => (s as i64) - RETENTION_SECONDS,
        None => 0,
    }
}

/// The statements that create the logs table and its indexes, in order.
pub fn schema_statements() -> (r: Vec<&'static str>)
    ensures
        r@.len() == 5,
        r@[0]@ == "CREATE TABLE IF NOT EXISTS logs (id INTEGER PRIMARY KEY AUTOINCREMENT, timestamp_ns INTEGER NOT NULL, observed_timestamp_ns INTEGER NOT NULL, severity_number INTEGER, severity_text TEXT, body TEXT, service_name TEXT, app_path TEXT, resource_attributes TEXT, log_attributes TEXT, trace_id TEXT, span_id TEXT, created_at INTEGER DEFAULT (strftime('%s', 'now')))"@,
        r@[1]@ == "CREATE INDEX IF NOT EXISTS idx_logs_timestamp ON logs(timestamp_ns)"@,
        r@[2]@ == "CREATE INDEX IF NOT EXISTS idx_logs_app_path ON logs(app_path)"@,
        r@[3]@ == "CREATE INDEX IF NOT EXISTS idx_logs_service ON logs(service_name)"@,
        r@[4]@ == "CREATE INDEX IF NOT EXISTS idx_logs_created ON logs(created_at)"@,
{
    let mut v: Vec<&'static str> = Vec::new();
    v.push("CREATE TABLE IF NOT EXISTS logs (id INTEGER PRIMARY KEY AUTOINCREMENT, timestamp_ns INTEGER NOT NULL, observed_timestamp_ns INTEGER NOT NULL, severity_number INTEGER, severity_text TEXT, body TEXT, service_name TEXT, app_path TEXT, resource_attributes TEXT, log_attributes TEXT, trace_id TEXT, span_id TEXT, created_at INTEGER DEFAULT (strftime('%s', 'now')))");
    v.push("CREATE INDEX IF NOT EXISTS idx_logs_timestamp ON logs(timestamp_ns)");
    v.push("CREATE INDEX IF NOT EXISTS idx_logs_app_path ON logs(app_path)");
    v.push("CREATE INDEX IF NOT EXISTS idx_logs_service ON logs(service_name)");
    v.push("CREATE INDEX IF NOT EXISTS idx_logs_created ON logs(created_at)");
    v
}

/// The statement that inserts one log record (eleven bound values).
pub fn insert_log_sql() -> (r: &'static str)
    ensures
        r@ == "INSERT INTO logs (timestamp_ns, observed_timestamp_ns, severity_number, severity_text, body, service_name, app_path, resource_attributes, log_attributes, trace_id, span_id) VALUES (?, ?, ?, ?, ?, ?, ?, ?, ?, ?, ?)"@,
{
    "INSERT INTO logs (timestamp_ns, observed_timestamp_ns, severity_number, severity_text, body, service_name, app_path, resource_attributes, log_attributes, trace_id, span_id) VALUES (?, ?, ?, ?, ?, ?, ?, ?, ?, ?, ?)"
}

/// The statement that reads the latest log id (0 for an empty table).
pub fn latest_id_sql() -> (r: &'static str)
    ensures
        r@ == "SELECT COALESCE(MAX(id), 0) as max_id FROM logs"@,
{
    "SELECT COALESCE(MAX(id), 0) as max_id FROM logs"
}

/// The statement that counts the logs.
pub fn count_sql() -> (r: &'static str)
    ensures
        r@ == "SELECT COUNT(*) as cnt FROM logs"@,
{
    "SELECT COUNT(*) as cnt FROM logs"
}

/// The statement that deletes the logs created before the bound cutoff.
pub fn cleanup_sql() -> (r: &'static str)
    ensures
        r@ == "DELETE FROM logs WHERE created_at < ?"@,
{
    "DELETE FROM logs WHERE created_at < ?"
}

} // verus!
