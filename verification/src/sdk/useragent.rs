//! User-Agent header builder matching the Databricks SDK format:
//!
//! ```text
//! {product}/{product_version} apx-databricks-sdk-rust/{sdk_version} rust/{rust_version} os/{os} auth/{auth_type} [extras...] [upstream/{name}] [upstream-version/{ver}] [runtime/{ver}] [cicd/{provider}]
//! ```
use vstd::prelude::*;
use crate::text::{chars_of, is_ascii_alnum, char_is_ascii_alnum, string_push, str_eq};

verus! {

/// A character that survives sanitizing: `[a-zA-Z0-9_.+-]`.
pub open spec fn ua_allowed(c: char) -> bool {
    is_ascii_alnum(c) || c == '.' || c == '_' || c == '+' || c == '-'
}

/// `s` with every character outside `[a-zA-Z0-9_.+-]` removed.
pub open spec fn sanitized(s: Seq<char>) -> Seq<char>
    decreases s.len(),
{
    if s.len() == 0 {
        s
    } else {
        let rest = sanitized(s.drop_last());
        if ua_allowed(s.last()) {
            rest.push(s.last())
        } else {
            rest
        }
    }
}

/// Sanitizing keeps only the allowed characters, and keeps a text made of
/// them unchanged.
pub proof fn law_sanitized_allowed(s: Seq<char>)
    ensures
        forall|j: int| 0 <= j < sanitized(s).len() ==> ua_allowed(#[trigger] sanitized(s)[j]),
        (forall|j: int| 0 <= j < s.len() ==> ua_allowed(#[trigger] s[j])) ==> sanitized(s) == s,
    decreases s.len(),
{
    if s.len() > 0 {
        law_sanitized_allowed(s.drop_last());
        let r = sanitized(s.drop_last());
        assert forall|j: int| 0 <= j < sanitized(s).len() implies ua_allowed(
            #[trigger] sanitized(s)[j],
        ) by {
            if j < r.len() {
                assert(sanitized(s)[j] == r[j]);
            }
        }
        if forall|j: int| 0 <= j < s.len() ==> ua_allowed(#[trigger] s[j]) {
            assert forall|j: int| 0 <= j < s.drop_last().len() implies ua_allowed(#[trigger] s.drop_last()[j]) by {
                assert(s.drop_last()[j] == s[j]);
            }
            assert(ua_allowed(s[s.len() - 1]));
            assert(s.drop_last().push(s.last()) =~= s);
        }
    }
}

/// Keep only characters matching `[a-zA-Z0-9_.+-]`.
pub fn sanitize(s: &str) -> (r: String)
    ensures
        r@ == sanitized(s@),
{
    let v = chars_of(s);
    let mut r = String::new();
    let mut i: usize = 0;
    while i < v.len()
        invariant
            i <= v.len(),
            r@ == sanitized(v@.take(i as int)),
        decreases v.len() - i,
    {
        let c = v[i];
        assert(v@.take(i + 1).drop_last() =~= v@.take(i as int));
        if char_is_ascii_alnum(c) || c == '.' || c == '_' || c == '+' || c == '-' {
            string_push(&mut r, c);
        }
        i = i + 1;
    }
    assert(v@.take(v.len() as int) =~= v@);
    r
}

/// Builds a structured User-Agent header.
#[derive(Debug)]
pub struct UserAgent {
    /// Sanitized product name.
    product: String,
    /// Sanitized product version.
    product_version: String,
    /// Optional authentication type tag.
    auth_type: Option<String>,
    /// Additional key/value pairs appended to the header.
    extras: Vec<(String, String)>,
}

/// Mathematical model of a [`UserAgent`].
pub struct UserAgentView {
    pub product: Seq<char>,
    pub product_version: Seq<char>,
    pub auth_type: Option<Seq<char>>,
    pub extras: Seq<(Seq<char>, Seq<char>)>,
}

impl View for UserAgent {
    type V = UserAgentView;

    closed spec fn view(&self) -> UserAgentView {
        UserAgentView {
            product: self.product@,
            product_version: self.product_version@,
            auth_type: match self.auth_type {
                Some(a) => Some(a@),
                None => None,
            },
            extras: self.extras@.map_values(|e: (String, String)| (e.0@, e.1@)),
        }
    }
}

/// What the process contributes to the header: build-time versions, the
/// operating system and the relevant environment variables.
#[derive(Debug, Clone)]
pub struct UserAgentEnvironment {
    /// Version of this SDK.
    pub sdk_version: String,
    /// Version of the Rust compiler that built it.
    pub rust_version: String,
    /// Operating system name.
    pub os: String,
    /// `DATABRICKS_SDK_UPSTREAM`, when set.
    pub upstream: Option<String>,
    /// `DATABRICKS_SDK_UPSTREAM_VERSION`, when set.
    pub upstream_version: Option<String>,
    /// `DATABRICKS_RUNTIME_VERSION`, when set.
    pub runtime_version: Option<String>,
    /// The detected CI/CD provider, if any.
    pub cicd: Option<String>,
}

pub open spec fn optv(o: Option<String>) -> Option<Seq<char>> {
    match o {
        Some(s) => Some(s@),
        None => None,
    }
}

/// ` {tag}/{value}` for a set variable whose sanitized value is non-empty.
pub open spec fn env_segment(tag: Seq<char>, value: Option<Seq<char>>) -> Seq<char> {
    match value {
        Some(v) => if sanitized(v).len() > 0 {
            tag + sanitized(v)
        } else {
            Seq::empty()
        },
        None => Seq::empty(),
    }
}

/// ` key/value` for every extra pair, in order.
pub open spec fn extras_text(extras: Seq<(Seq<char>, Seq<char>)>) -> Seq<char>
    decreases extras.len(),
{
    if extras.len() == 0 {
        Seq::empty()
    } else {
        extras_text(extras.drop_last()) + " "@ + extras.last().0 + "/"@ + extras.last().1
    }
}

/// The full header value.
pub open spec fn header_text(ua: UserAgentView, env: UserAgentEnvironment) -> Seq<char> {
    ua.product + "/"@ + ua.product_version + " apx-databricks-sdk-rust/"@ + env.sdk_version@
        + " rust/"@ + env.rust_version@ + " os/"@ + env.os@ + match ua.auth_type {
        Some(a) => " auth/"@ + a,
        None => Seq::empty(),
    } + extras_text(ua.extras) + env_segment(" upstream/"@, optv(env.upstream))
        + env_segment(" upstream-version/"@, optv(env.upstream_version)) + env_segment(
        " runtime/"@,
        optv(env.runtime_version),
    ) + match env.cicd {
        Some(p) => " cicd/"@ + p@,
        None => Seq::empty(),
    }
}

/// The header's CI/CD part: ` cicd/{provider}` when a provider was detected.
pub open spec fn cicd_text(env: UserAgentEnvironment) -> Seq<char> {
    match env.cicd {
        Some(p) => " cicd/"@ + p@,
        None => Seq::empty(),
    }
}

/// The runtime version shows in the header exactly when it is set and
/// sanitizes to a non-empty text `v`: then the header is the header without
/// it, with ` runtime/{v}` inserted just before the CI/CD part (so after the
/// upstream parts); otherwise the header is the one without it.
pub proof fn law_runtime_segment(ua: UserAgentView, env: UserAgentEnvironment, r: String)
    ensures
        ({
            let with = UserAgentEnvironment { runtime_version: Some(r), ..env };
            let without = UserAgentEnvironment { runtime_version: None, ..env };
            let base = header_text(ua, without);
            let c = cicd_text(env);
            &&& base.len() >= c.len()
            &&& base.subrange(base.len() - c.len(), base.len() as int) == c
            &&& sanitized(r@).len() > 0 ==> header_text(ua, with) == base.subrange(0, base.len() - c.len())
                + " runtime/"@ + sanitized(r@) + c
            &&& sanitized(r@).len() == 0 ==> header_text(ua, with) == base
        }),
{
    let with = UserAgentEnvironment { runtime_version: Some(r), ..env };
    let without = UserAgentEnvironment { runtime_version: None, ..env };
    let base = header_text(ua, without);
    let c = cicd_text(env);
    let front = ua.product + "/"@ + ua.product_version + " apx-databricks-sdk-rust/"@ + env.sdk_version@
        + " rust/"@ + env.rust_version@ + " os/"@ + env.os@ + match ua.auth_type {
        Some(a) => " auth/"@ + a,
        None => Seq::empty(),
    } + extras_text(ua.extras) + env_segment(" upstream/"@, optv(env.upstream)) + env_segment(
        " upstream-version/"@,
        optv(env.upstream_version),
    );
    assert(base =~= front + c);
    assert(base.subrange(0, base.len() - c.len()) =~= front);
    assert(base.subrange(base.len() - c.len(), base.len() as int) =~= c);
    if sanitized(r@).len() > 0 {
        assert(header_text(ua, with) =~= front + " runtime/"@ + sanitized(r@) + c);
    } else {
        assert(header_text(ua, with) =~= base);
    }
}

/// Appends ` {tag}/{sanitized value}` when the value is set and survives sanitizing.
fn append_env_segment(out: &mut String, tag: &str, value: &Option<String>)
    ensures
        final(out)@ == old(out)@ + env_segment(tag@, optv(*value)),
{
    match value {
        Some(v) => {
            let s = sanitize(v.as_str());
            if !s.as_str().is_empty() {
                out.append(tag);
                out.append(s.as_str());
            } else {
                assert(old(out)@ + Seq::<char>::empty() =~= old(out)@);
            }
        },
        None => {
            assert(old(out)@ + Seq::<char>::empty() =~= old(out)@);
        },
    }
}

impl UserAgent {
    /// Create a new `UserAgent`; both values are sanitized.
    pub fn new(product: &str, product_version: &str) -> (r: Self)
        ensures
            r@.product == sanitized(product@),
            r@.product_version == sanitized(product_version@),
            r@.auth_type.is_none(),
            r@.extras.len() == 0,
    {
        let r = UserAgent {
            product: sanitize(product),
            product_version: sanitize(product_version),
            auth_type: None,
            extras: Vec::new(),
        };
        assert(r@.extras =~= Seq::<(Seq<char>, Seq<char>)>::empty());
        r
    }

    /// Set the authentication type (sanitized).
    pub fn with_auth(self, auth_type: &str) -> (r: Self)
        ensures
            r@.auth_type == Some(sanitized(auth_type@)),
            r@.product == self@.product,
            r@.product_version == self@.product_version,
            r@.extras == self@.extras,
    {
        let mut s = self;
        s.auth_type = Some(sanitize(auth_type));
        s
    }

    /// Add an extra key/value pair (both sanitized).
    pub fn with_extra(self, key: &str, value: &str) -> (r: Self)
        ensures
            r@.extras == self@.extras.push((sanitized(key@), sanitized(value@))),
            r@.product == self@.product,
            r@.product_version == self@.product_version,
            r@.auth_type == self@.auth_type,
    {
        let mut s = self;
        let ghost before = s.extras@;
        s.extras.push((sanitize(key), sanitize(value)));
        assert(s.extras@.map_values(|e: (String, String)| (e.0@, e.1@)) =~= before.map_values(
            |e: (String, String)| (e.0@, e.1@),
        ).push((sanitized(key@), sanitized(value@))));
        s
    }

    /// The header value for this agent in the given environment.
    pub fn header_value(&self, env: &UserAgentEnvironment) -> (r: String)
        ensures
            r@ == header_text(self@, *env),
    {
        let mut out = String::from_str(self.product.as_str());
        out.append("/");
        out.append(self.product_version.as_str());
        out.append(" apx-databricks-sdk-rust/");
        out.append(env.sdk_version.as_str());
        out.append(" rust/");
        out.append(env.rust_version.as_str());
        out.append(" os/");
        out.append(env.os.as_str());
        let ghost base = out@;
        match &self.auth_type {
            Some(a) => {
                out.append(" auth/");
                out.append(a.as_str());
            },
            None => {
                assert(base + Seq::<char>::empty() =~= base);
            },
        }
        let ghost with_auth = out@;
        let ghost extras = self@.extras;
        let mut i: usize = 0;
        while i < self.extras.len()
            invariant
                i <= self.extras.len(),
                extras == self.extras@.map_values(|e: (String, String)| (e.0@, e.1@)),
                out@ == with_auth + extras_text(extras.take(i as int)),
            decreases self.extras.len() - i,
        {
            out.append(" ");
            out.append(self.extras[i].0.as_str());
            out.append("/");
            out.append(self.extras[i].1.as_str());
            proof {
                let t = extras.take(i + 1);
                assert(t.drop_last() =~= extras.take(i as int));
                assert(t.last() == extras[i as int]);
            }
            i = i + 1;
        }
        assert(extras.take(self.extras.len() as int) =~= extras);
        append_env_segment(&mut out, " upstream/", &env.upstream);
        append_env_segment(&mut out, " upstream-version/", &env.upstream_version);
        append_env_segment(&mut out, " runtime/", &env.runtime_version);
        let ghost before_cicd = out@;
        match &env.cicd {
            Some(p) => {
                out.append(" cicd/");
                out.append(p.as_str());
            },
            None => {
                assert(before_cicd + Seq::<char>::empty() =~= before_cicd);
            },
        }
        out
    }
}

/// The CI/CD environment variables that identify a provider.
#[derive(Debug, Clone, Default)]
pub struct CiEnvironment {
    pub github_actions: Option<String>,
    pub gitlab_ci: Option<String>,
    pub jenkins_url: Option<String>,
    pub tf_build: Option<String>,
    pub circleci: Option<String>,
    pub travis: Option<String>,
    pub bitbucket_build_number: Option<String>,
    pub buildkite: Option<String>,
    pub codebuild_build_id: Option<String>,
    pub teamcity_version: Option<String>,
}

/// A variable that holds exactly `val`.
pub open spec fn env_is(v: Option<String>, val: Seq<char>) -> bool {
    match v {
        Some(s) => s@ == val,
        None => false,
    }
}

/// A variable that is set to a non-empty value.
pub open spec fn env_set(v: Option<String>) -> bool {
    match v {
        Some(s) => s@.len() > 0,
        None => false,
    }
}

/// The provider that the environment identifies, checked in a fixed order.
pub open spec fn cicd_provider(e: CiEnvironment) -> Option<Seq<char>> {
    if env_is(e.github_actions, "true"@) {
        Some("github"@)
    } else if env_is(e.gitlab_ci, "true"@) {
        Some("gitlab"@)
    } else if env_set(e.jenkins_url) {
        Some("jenkins"@)
    } else if env_is(e.tf_build, "True"@) {
        Some("azure-devops"@)
    } else if env_is(e.circleci, "true"@) {
        Some("circle"@)
    } else if env_is(e.travis, "true"@) {
        Some("travis"@)
    } else if env_set(e.bitbucket_build_number) {
        Some("bitbucket"@)
    } else if env_set(e.buildkite) {
        Some("buildkite"@)
    } else if env_set(e.codebuild_build_id) {
        Some("aws-codebuild"@)
    } else if env_set(e.teamcity_version) {
        Some("teamcity"@)
    } else {
        None
    }
}

fn var_is(v: &Option<String>, val: &str) -> (r: bool)
    ensures
        r == env_is(*v, val@),
{
    match v {
        Some(s) => str_eq(s.as_str(), val),
        None => false,
    }
}

fn var_set(v: &Option<String>) -> (r: bool)
    ensures
        r == env_set(*v),
{
    match v {
        Some(s) => !s.as_str().is_empty(),
        None => false,
    }
}

/// Detect the CI/CD provider from its environment variables.
pub fn detect_cicd(e: &CiEnvironment) -> (r: Option<&'static str>)
    ensures
        match (r, cicd_provider(*e)) {
            (Some(p), Some(q)) => p@ == q,
            (None, None) => true,
            _ => false,
        },
{
    if var_is(&e.github_actions, "true") {
        return Some("github");
    }
    if var_is(&e.gitlab_ci, "true") {
        return Some("gitlab");
    }
    if var_set(&e.jenkins_url) {
        return Some("jenkins");
    }
    if var_is(&e.tf_build, "True") {
        return Some("azure-devops");
    }
    if var_is(&e.circleci, "true") {
        return Some("circle");
    }
    if var_is(&e.travis, "true") {
        return Some("travis");
    }
    if var_set(&e.bitbucket_build_number) {
        return Some("bitbucket");
    }
    if var_set(&e.buildkite) {
        return Some("buildkite");
    }
    if var_set(&e.codebuild_build_id) {
        return Some("aws-codebuild");
    }
    if var_set(&e.teamcity_version) {
        return Some("teamcity");
    }
    None
}

} // verus!
