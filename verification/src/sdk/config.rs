//! Configuration resolution for a Databricks profile.
//!
//! The file system and the environment are read by the caller; the functions
//! here decide what the contents mean.
use vstd::prelude::*;
use crate::sdk::config_parser::{
    ConfigParser, ProfileView, first_named, listed_names, parse_profiles,
};
use crate::sdk::error::{DatabricksError, DatabricksErrorView};
use crate::text::{
    chars_of, concat3, has_prefix, lemma_trim_end_char_at, range_has_prefix, string_of_range,
    trim_end_char, views,
};

verus! {

/// Resolved Databricks workspace configuration for a single profile.
#[derive(Debug, Clone)]
pub struct DatabricksConfig {
    /// Profile name (e.g. `"DEFAULT"`, `"staging"`).
    pub profile: String,
    /// Normalized workspace host URL (e.g. `"https://adb-123.4.azuredatabricks.net"`).
    pub host: String,
    /// Optional product name for the User-Agent header.
    pub product: Option<String>,
    /// Optional product version for the User-Agent header.
    pub product_version: Option<String>,
}

/// What reading the configuration file produced.
#[derive(Debug, Clone)]
pub enum ConfigFileRead {
    /// The file does not exist.
    Missing,
    /// The file's text.
    Contents(String),
    /// The file exists but could not be read; the rendered I/O error.
    Unreadable(String),
}

pub open spec fn https_prefix() -> Seq<char> {
    seq!['h', 't', 't', 'p', 's', ':', '/', '/']
}

pub open spec fn http_prefix() -> Seq<char> {
    seq!['h', 't', 't', 'p', ':', '/', '/']
}

/// A host with an `https://` scheme added when it has no `http(s)://`
/// scheme, and with every trailing `/` removed.
pub open spec fn normalized_host(h: Seq<char>) -> Seq<char> {
    let with_scheme = if !has_prefix(h, https_prefix()) && !has_prefix(h, http_prefix()) {
        https_prefix() + h
    } else {
        h
    };
    trim_end_char(with_scheme, '/')
}

/// Normalize a Databricks host URL: ensure an `https://` prefix and no trailing slash.
pub fn normalize_host(host: &str) -> (r: String)
    ensures
        r@ == normalized_host(host@),
{
    let h = chars_of(host);
    let https: [char; 8] = ['h', 't', 't', 'p', 's', ':', '/', '/'];
    let http: [char; 7] = ['h', 't', 't', 'p', ':', '/', '/'];
    assert(https@ =~= https_prefix());
    assert(http@ =~= http_prefix());
    assert(h@.subrange(0, h@.len() as int) =~= h@);
    let mut v: Vec<char> = Vec::new();
    let add = !range_has_prefix(&h, 0, h.len(), &https) && !range_has_prefix(&h, 0, h.len(), &http);
    if add {
        v.extend_from_slice(&https);
    }
    let ghost prefix = v@;
    assert(add ==> prefix =~= https_prefix());
    assert(!add ==> prefix =~= Seq::<char>::empty());
    let mut k: usize = 0;
    while k < h.len()
        invariant
            k <= h.len(),
            v@ == prefix + h@.take(k as int),
        decreases h.len() - k,
    {
        v.push(h[k]);
        assert(prefix + h@.take(k + 1) =~= (prefix + h@.take(k as int)).push(h@[k as int]));
        k = k + 1;
    }
    assert(h@.take(h.len() as int) =~= h@);
    assert(v@ =~= if !has_prefix(host@, https_prefix()) && !has_prefix(host@, http_prefix()) {
        https_prefix() + host@
    } else {
        host@
    });
    let mut j = v.len();
    while j > 0 && v[j - 1] == '/'
        invariant
            j <= v.len(),
            forall|i: int| j <= i < v.len() ==> #[trigger] v@[i] == '/',
        decreases j,
    {
        j = j - 1;
    }
    proof {
        lemma_trim_end_char_at(v@, '/', j as int);
    }
    string_of_range(&v, 0, j)
}

/// The profiles a file read yields, or the configuration error it raises.
pub open spec fn parsed_read(path: Seq<char>, read: ConfigFileRead) -> Result<
    Seq<ProfileView>,
    DatabricksErrorView,
> {
    match read {
        ConfigFileRead::Missing => Ok(Seq::empty()),
        ConfigFileRead::Contents(c) => Ok(parse_profiles(c@)),
        ConfigFileRead::Unreadable(e) => Err(
            DatabricksErrorView::Config("failed to read "@ + path + ": "@ + e@),
        ),
    }
}

impl ConfigParser {
    /// Parse a `.databrickscfg` file given what reading `path` produced.
    /// A missing file yields an empty configuration.
    pub fn parse(path: &str, read: ConfigFileRead) -> (r: Result<ConfigParser, DatabricksError>)
        ensures
            match (r, parsed_read(path@, read)) {
                (Ok(p), Ok(ps)) => p@ == ps,
                (Err(e), Err(ev)) => e@ == ev,
                _ => false,
            },
    {
        match read {
            ConfigFileRead::Missing => Ok(ConfigParser::empty()),
            ConfigFileRead::Contents(c) => Ok(ConfigParser::parse_str(c.as_str())),
            ConfigFileRead::Unreadable(e) => {
                let mut m = concat3("failed to read ", path, ": ");
                m.append(e.as_str());
                Err(DatabricksError::Config(m))
            },
        }
    }
}

/// List the profile names of a configuration file, plus `DEFAULT`.
pub fn list_profile_names(path: &str, read: ConfigFileRead) -> (r: Result<
    Vec<String>,
    DatabricksError,
>)
    ensures
        match (r, parsed_read(path@, read)) {
            (Ok(names), Ok(ps)) => views(names@) == listed_names(ps),
            (Err(e), Err(ev)) => e@ == ev,
            _ => false,
        },
{
    let config = ConfigParser::parse(path, read)?;
    Ok(config.list_profiles())
}

/// The profile to use: the explicit name if non-empty, else the
/// environment's choice, else `DEFAULT`.
pub open spec fn chosen_profile(name: Seq<char>, env: Option<Seq<char>>) -> Seq<char> {
    if name.len() > 0 {
        name
    } else {
        match env {
            Some(e) => e,
            None => crate::sdk::config_parser::default_profile_name(),
        }
    }
}

/// What `resolve_config` returns.
pub open spec fn resolved(
    name: Seq<char>,
    env: Option<Seq<char>>,
    path: Seq<char>,
    read: ConfigFileRead,
) -> Result<(Seq<char>, Seq<char>), DatabricksErrorView> {
    let profile = chosen_profile(name, env);
    match parsed_read(path, read) {
        Err(e) => Err(e),
        Ok(ps) => match first_named(ps, profile) {
            None => Err(
                DatabricksErrorView::Config(
                    "profile '"@ + profile + "' not found in "@ + path,
                ),
            ),
            Some(i) => if ps[i].host.len() == 0 {
                Err(DatabricksErrorView::Config("profile '"@ + profile + "' has no host configured"@))
            } else {
                Ok((profile, normalized_host(ps[i].host)))
            },
        },
    }
}

/// The configuration of a found profile: the error for an empty host,
/// else the profile with its normalized host.
fn config_for_host(profile: String, host: &str) -> (r: Result<DatabricksConfig, DatabricksError>)
    ensures
        host@.len() == 0 ==> (r matches Err(e) && e@ == DatabricksErrorView::Config(
            "profile '"@ + profile@ + "' has no host configured"@,
        )),
        host@.len() > 0 ==> (r matches Ok(c) && c.profile@ == profile@ && c.host@ == normalized_host(
            host@,
        ) && c.product.is_none() && c.product_version.is_none()),
{
    if host.is_empty() {
        let m = concat3("profile '", profile.as_str(), "' has no host configured");
        return Err(DatabricksError::Config(m));
    }
    let normalized = normalize_host(host);
    Ok(DatabricksConfig { profile, host: normalized, product: None, product_version: None })
}

/// Resolve a full `DatabricksConfig` for the given profile name.
///
/// The profile is `profile_name` if non-empty, else `env_profile` (the
/// `DATABRICKS_CONFIG_PROFILE` variable), else `"DEFAULT"`; `read` is what
/// reading the configuration file at `config_path` produced.
pub fn resolve_config(
    profile_name: &str,
    env_profile: Option<String>,
    config_path: &str,
    read: ConfigFileRead,
) -> (r: Result<DatabricksConfig, DatabricksError>)
    ensures
        match (r, resolved(profile_name@, crate::sdk::config_parser::opt_view(env_profile), config_path@, read)) {
            (Ok(c), Ok(pair)) => c.profile@ == pair.0 && c.host@ == pair.1 && c.product.is_none()
                && c.product_version.is_none(),
            (Err(e), Err(ev)) => e@ == ev,
            _ => false,
        },
{
    let profile = if !profile_name.is_empty() {
        String::from_str(profile_name)
    } else {
        match env_profile {
            Some(e) => e,
            None => {
                let d = String::from_str("DEFAULT");
                proof {
                    reveal_strlit("DEFAULT");
                    assert(d@ =~= crate::sdk::config_parser::default_profile_name());
                }
                d
            },
        }
    };
    let config = ConfigParser::parse(config_path, read)?;
    match config.get_profile(profile.as_str()) {
        None => {
            let mut m = concat3("profile '", profile.as_str(), "' not found in ");
            m.append(config_path);
            Err(DatabricksError::Config(m))
        },
        Some(found) => config_for_host(profile, found.host.as_str()),
    }
}

} // verus!
