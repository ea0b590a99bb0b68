//! Tokens acquired through the Databricks CLI: reading the CLI's answer,
//! the errors of a failed call, and the validity window of a cached token.
use vstd::prelude::*;
use crate::sdk::error::{DatabricksError, DatabricksErrorView};
use crate::text::{concat2, i64_to_string, signed_decimal, trim, trim_str};

verus! {

/// Staleness buffer: a token counts as expired this many seconds before
/// its actual expiry.
pub const STALENESS_BUFFER_SECS: i64 = 40;

/// The CLI's JSON answer to `databricks auth token`.
#[derive(Debug, Clone)]
pub struct CliTokenResponse {
    pub access_token: String,
    pub token_type: String,
    pub expiry: String,
}

/// A token and the instant it expires, as seconds and nanoseconds since
/// the Unix epoch (UTC).
#[derive(Debug, Clone)]
pub struct CachedToken {
    pub access_token: String,
    pub expires_at_secs: i64,
    pub expires_at_nanos: u32,
}

/// Whether instant `a` comes strictly before instant `b`.
pub open spec fn instant_before(a: (int, int), b: (int, int)) -> bool {
    a.0 < b.0 || (a.0 == b.0 && a.1 < b.1)
}

impl CachedToken {
    /// Whether the token is still valid at `now`: `now` plus the staleness
    /// buffer comes strictly before the expiry.
    pub open spec fn valid_at(&self, now_secs: int, now_nanos: int) -> bool {
        instant_before(
            (now_secs + STALENESS_BUFFER_SECS, now_nanos),
            (self.expires_at_secs as int, self.expires_at_nanos as int),
        )
    }

    /// Whether the token is still valid at the given instant.
    pub fn is_valid_at(&self, now_secs: i64, now_nanos: u32) -> (r: bool)
        requires
            now_secs + STALENESS_BUFFER_SECS <= i64::MAX,
        ensures
            r == self.valid_at(now_secs as int, now_nanos as int),
    {
        let s = now_secs + STALENESS_BUFFER_SECS;
        s < self.expires_at_secs || (s == self.expires_at_secs && now_nanos < self.expires_at_nanos)
    }

    /// Whether the token is valid by a clock reading: a reading before the
    /// Unix epoch, or one too late for the staleness buffer to be added in
    /// `i64`, gives `false` (the clock library would panic there); otherwise
    /// the token's validity at that instant.
    pub open spec fn valid_by_clock(&self, clock: Option<(u64, u32)>) -> bool {
        match clock {
            Some(t) => t.0 + STALENESS_BUFFER_SECS <= i64::MAX && self.valid_at(t.0 as int, t.1 as int),
            None => false,
        }
    }

    /// Whether the token is valid by a clock reading.
    pub fn is_valid_by_clock(&self, clock: Option<(u64, u32)>) -> (r: bool)
        ensures
            r == self.valid_by_clock(clock),
    {
        match clock {
            Some((s, n)) => if s <= (i64::MAX - STALENESS_BUFFER_SECS) as u64 {
                self.is_valid_at(s as i64, n)
            } else {
                false
            },
            None => false,
        }
    }

    /// Whether the token is still valid now: its validity by the reading of
    /// the system clock taken in this call.
    pub fn is_valid(&self) -> (r: bool)
        ensures
            exists|c: Option<(u64, u32)>| clock_reading(c) && r == #[trigger] self.valid_by_clock(c),
    {
        let now = system_now();
        let c = since_epoch(&now);
        let r = self.is_valid_by_clock(c);
        assert(clock_reading(c) && r == self.valid_by_clock(c));
        r
    }

    /// The token from the CLI's answer and the instant its expiry text
    /// names, or the error for an expiry that is not RFC 3339.
    pub fn from_response(resp: CliTokenResponse) -> (r: Result<CachedToken, DatabricksError>)
        ensures
            match rfc3339_instant(resp.expiry@) {
                Ok((s, n)) => r matches Ok(t) && t.access_token@ == resp.access_token@
                    && t.expires_at_secs == s && t.expires_at_nanos == n,
                Err(e) => r matches Err(err) && err@ == DatabricksErrorView::Auth(
                    expiry_error(resp.expiry@, e),
                ),
            },
    {
        let parsed = parse_rfc3339(resp.expiry.as_str());
        CachedToken::from_parsed_expiry(resp.access_token, resp.expiry.as_str(), parsed)
    }

    /// The token with the instant its expiry text was parsed to, or the
    /// error for the parse failure.
    pub fn from_parsed_expiry(
        access_token: String,
        expiry: &str,
        parsed: Result<(i64, u32), String>,
    ) -> (r: Result<CachedToken, DatabricksError>)
        ensures
            match parsed {
                Ok((s, n)) => r matches Ok(t) && t.access_token@ == access_token@
                    && t.expires_at_secs == s && t.expires_at_nanos == n,
                Err(e) => r matches Err(err) && err@ == DatabricksErrorView::Auth(
                    expiry_error(expiry@, e@),
                ),
            },
    {
        match parsed {
            Ok((s, n)) => Ok(CachedToken { access_token, expires_at_secs: s, expires_at_nanos: n }),
            Err(e) => {
                let mut m = concat2("failed to parse token expiry '", expiry);
                m.append("': ");
                m.append(e.as_str());
                Err(DatabricksError::Auth(m))
            },
        }
    }
}

/// The message for an expiry that does not parse.
pub open spec fn expiry_error(expiry: Seq<char>, e: Seq<char>) -> Seq<char> {
    "failed to parse token expiry '"@ + expiry + "': "@ + e
}

/// A token valid at some instant is valid at every earlier instant.
pub proof fn law_validity_is_monotone(t: CachedToken, s1: int, n1: int, s2: int, n2: int)
    requires
        t.valid_at(s2, n2),
        instant_before((s1, n1), (s2, n2)) || (s1 == s2 && n1 == n2),
    ensures
        t.valid_at(s1, n1),
{
}

/// Name for the instant (seconds and nanoseconds since the Unix epoch, in
/// UTC) that `chrono::DateTime::parse_from_rfc3339` reads from a text, or
/// its rendered error.
pub uninterp spec fn rfc3339_instant(s: Seq<char>) -> Result<(i64, u32), Seq<char>>;

/// Calls `chrono::DateTime::parse_from_rfc3339` and reads the instant in
/// UTC (`timestamp` and `timestamp_subsec_nanos`), or renders the parse
/// error. The contract says only that the answer is the one named by
/// `rfc3339_instant`, a function of the text alone.
#[verifier::external_body]
fn parse_rfc3339(s: &str) -> (r: Result<(i64, u32), String>)
    ensures
        match r {
            Ok(t) => rfc3339_instant(s@) == Ok::<(i64, u32), Seq<char>>(t),
            Err(e) => rfc3339_instant(s@) == Err::<(i64, u32), Seq<char>>(e@),
        },
{
    match chrono::DateTime::parse_from_rfc3339(s) {
        Ok(dt) => {
            let u = dt.with_timezone(&chrono::Utc);
            Ok((u.timestamp(), u.timestamp_subsec_nanos()))
        },
        Err(e) => Err(format!("{e}")),
    }
}

/// The system clock's time type.
#[verifier::external_type_specification]
#[verifier::external_body]
pub struct ExSystemTime(std::time::SystemTime);

/// Calls `std::time::SystemTime::now`. Which instant comes back is the
/// clock's; nothing more is stated.
#[verifier::external_body]
fn system_now() -> (r: std::time::SystemTime) {
    std::time::SystemTime::now()
}

/// Calls `SystemTime::duration_since(UNIX_EPOCH)` and reads the duration as
/// whole seconds and nanoseconds: `None` for an instant before the Unix
/// epoch (the documented error). `Duration::subsec_nanos` is documented to
/// be below one second; what the seconds are is not stated.
#[verifier::external_body]
fn since_epoch(t: &std::time::SystemTime) -> (r: Option<(u64, u32)>)
    ensures
        r matches Some(d) ==> d.1 < 1_000_000_000,
{
    match t.duration_since(std::time::UNIX_EPOCH) {
        Ok(d) => Some((d.as_secs(), d.subsec_nanos())),
        Err(_) => None,
    }
}

/// A reading of the system clock: nothing, for a clock before the Unix
/// epoch, or seconds and nanoseconds (below one second) since it.
pub open spec fn clock_reading(c: Option<(u64, u32)>) -> bool {
    c matches Some(t) ==> t.1 < 1_000_000_000
}

/// The access token of a cached token that is still valid at `now`.
pub fn cached_access_token(cached: &Option<CachedToken>, now_secs: i64, now_nanos: u32) -> (r: Option<String>)
    requires
        now_secs + STALENESS_BUFFER_SECS <= i64::MAX,
    ensures
        match cached {
            Some(t) => if t.valid_at(now_secs as int, now_nanos as int) {
                r matches Some(a) && a@ == t.access_token@
            } else {
                r is None
            },
            None => r is None,
        },
{
    match cached {
        Some(t) => if t.is_valid_at(now_secs, now_nanos) {
            Some(t.access_token.clone())
        } else {
            None
        },
        None => None,
    }
}

/// The arguments of the CLI call that prints a token for a profile.
pub fn token_command_args(profile: &str) -> (r: Vec<String>)
    ensures
        r@.len() == 4,
        r@[0]@ == "auth"@,
        r@[1]@ == "token"@,
        r@[2]@ == "--profile"@,
        r@[3]@ == profile@,
{
    let mut v: Vec<String> = Vec::new();
    v.push(String::from_str("auth"));
    v.push(String::from_str("token"));
    v.push(String::from_str("--profile"));
    v.push(String::from_str(profile));
    v
}

/// The error when the CLI cannot be found.
pub fn cli_not_found() -> (r: DatabricksError)
    ensures
        r@ == DatabricksErrorView::Cli(
            "Databricks CLI not found. Install it: https://docs.databricks.com/dev-tools/cli/install.html"@,
        ),
{
    DatabricksError::Cli(
        String::from_str(
            "Databricks CLI not found. Install it: https://docs.databricks.com/dev-tools/cli/install.html",
        ),
    )
}

/// The error when the CLI exits unsuccessfully: its exit code (`-1`
/// without one) and its trimmed standard error.
pub fn cli_failure(code: Option<i32>, stderr: &str) -> (r: DatabricksError)
    ensures
        r@ == DatabricksErrorView::Auth(
            "databricks auth token failed (exit "@ + signed_decimal(
                match code {
                    Some(c) => c as int,
                    None => -1,
                },
            ) + "): "@ + trim(stderr@),
        ),
{
    let c: i64 = match code {
        Some(c) => c as i64,
        None => -1,
    };
    let mut m = String::from_str("databricks auth token failed (exit ");
    let d = i64_to_string(c);
    m.append(d.as_str());
    m.append("): ");
    let t = trim_str(stderr);
    m.append(t.as_str());
    DatabricksError::Auth(m)
}

} // verus!
