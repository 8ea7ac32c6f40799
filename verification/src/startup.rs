//! Start-up decisions: which credentials to use, whether the configuration can
//! be served, and how.

use vstd::prelude::*;
use crate::cli_credentials::DetectedCredentials;
use crate::credentials;
use crate::credentials::{CredentialsConfig, CredentialsView, KiroCredentials};
use crate::detect_error::DetectFailure;
use crate::strings;

verus! {

/// The part of the configuration file that start-up decides on.
#[derive(Clone, Debug)]
pub struct Config {
    pub host: String,
    pub port: u16,
    /// Key that clients present.
    pub api_key: Option<String>,
    /// Key for the administration API.
    pub admin_api_key: Option<String>,
    /// Endpoint of credentials that name none.
    pub default_endpoint: String,
    pub proxy_url: Option<String>,
    pub proxy_username: Option<String>,
    pub proxy_password: Option<String>,
}

/// `r` is the content to use for a credentials file: what was read, unless it is
/// empty and the lookup found credentials.
pub open spec fn is_adopted(
    loaded: CredentialsConfig,
    detected: Result<Option<DetectedCredentials>, DetectFailure>,
    r: CredentialsConfig,
) -> bool {
    match detected {
        Ok(Some(found)) => if loaded.list().len() == 0 {
            r is Multiple && r.list() == seq![found.credentials]
        } else {
            r == loaded
        },
        _ => r == loaded,
    }
}

/// Uses detected credentials where the credentials file holds none.
pub fn adopt_detected(
    loaded: CredentialsConfig,
    detected: Result<Option<DetectedCredentials>, DetectFailure>,
) -> (r: CredentialsConfig)
    ensures
        is_adopted(loaded, detected, r),
{
    if !loaded.is_empty() {
        return loaded;
    }
    match detected {
        Ok(Some(found)) => {
            let r = CredentialsConfig::Multiple(vec![found.credentials]);
            proof {
                assert(r.list() =~= seq![found.credentials]);
            }
            r
        },
        _ => loaded,
    }
}

/// The credentials that an API key alone makes.
pub open spec fn api_key_login(key: Seq<char>) -> CredentialsView {
    CredentialsView {
        kiro_api_key: Some(key),
        auth_method: Some("api_key"@),
        ..credentials::no_credentials()
    }
}

/// `r` is the list with an API key put before it; an empty key counts as none.
pub open spec fn is_with_api_key(
    list: Seq<KiroCredentials>,
    key: Option<Seq<char>>,
    r: Seq<KiroCredentials>,
) -> bool {
    match key {
        Some(key) => if key.len() > 0 {
            r.len() > 0 && r.first()@ == api_key_login(key) && r.drop_first() == list
        } else {
            r == list
        },
        None => r == list,
    }
}

/// Puts an API key before the other credentials; an empty key counts as none.
pub fn add_api_key(list: Vec<KiroCredentials>, key: Option<String>) -> (r: Vec<KiroCredentials>)
    ensures
        is_with_api_key(list@, strings::text_of(key), r@),
{
    let mut r = list;
    if let Some(key) = key {
        if !key.as_str().is_empty() {
            r.insert(
                0,
                KiroCredentials {
                    kiro_api_key: Some(key),
                    auth_method: Some("api_key".to_owned()),
                    priority: 0,
                    ..KiroCredentials::default()
                },
            );
            proof {
                assert(r@.drop_first() =~= list@);
            }
        }
    }
    r
}

/// The credentials to serve with, in the order in which they are tried, and
/// whether the file they go back to is an array.
#[derive(Debug)]
pub struct StartupCredentials {
    pub list: Vec<KiroCredentials>,
    pub is_multiple: bool,
}

/// Orders the credentials of a file by priority and puts an API key before them.
pub fn startup_credentials(file: CredentialsConfig, key: Option<String>) -> (r: StartupCredentials)
    ensures
        r.is_multiple == (file is Multiple),
        exists|sorted: Seq<KiroCredentials>|
            credentials::is_stable_sort(file.list(), sorted) && #[trigger] is_with_api_key(
                sorted,
                strings::text_of(key),
                r.list@,
            ),
{
    let is_multiple = file.is_multiple();
    let sorted = file.into_sorted_credentials();
    let ghost before = sorted@;
    let list = add_api_key(sorted, key);
    let r = StartupCredentials { list, is_multiple };
    proof {
        assert(credentials::is_stable_sort(file.list(), before));
        assert(is_with_api_key(before, strings::text_of(key), r.list@));
    }
    r
}

/// An HTTP proxy to go through.
#[derive(Clone, Debug)]
pub struct ProxyConfig {
    pub url: String,
    /// User name and password.
    pub auth: Option<(String, String)>,
}

/// A proxy over texts.
pub struct ProxyView {
    pub url: Seq<char>,
    pub auth: Option<(Seq<char>, Seq<char>)>,
}

/// The proxy that a configuration names: one with a URL, with authentication
/// where both user name and password are there.
pub open spec fn configured_proxy(config: Config) -> Option<ProxyView> {
    match config.proxy_url {
        Some(url) => Some(
            ProxyView {
                url: url@,
                auth: match (config.proxy_username, config.proxy_password) {
                    (Some(username), Some(password)) => Some((username@, password@)),
                    _ => None,
                },
            },
        ),
        None => None,
    }
}

/// A proxy over texts.
pub open spec fn proxy_view(proxy: Option<ProxyConfig>) -> Option<ProxyView> {
    match proxy {
        Some(proxy) => Some(
            ProxyView {
                url: proxy.url@,
                auth: match proxy.auth {
                    Some((username, password)) => Some((username@, password@)),
                    None => None,
                },
            },
        ),
        None => None,
    }
}

/// The proxy that a configuration names.
pub fn proxy_config(config: &Config) -> (r: Option<ProxyConfig>)
    ensures
        proxy_view(r) == configured_proxy(*config),
{
    match &config.proxy_url {
        Some(url) => {
            let auth = match (&config.proxy_username, &config.proxy_password) {
                (Some(username), Some(password)) => Some((username.clone(), password.clone())),
                _ => None,
            };
            Some(ProxyConfig { url: url.clone(), auth })
        },
        None => None,
    }
}

/// Whether the administration API is served.
#[derive(Clone, Debug)]
pub enum AdminAccess {
    /// No key is set.
    Off,
    /// The key is blank, which would let anyone in.
    BlankKey,
    /// Served to those who present this key.
    On(String),
}

/// `r` is the access that a key gives: none without a key or with a blank one.
pub open spec fn is_admin_access(key: Option<Seq<char>>, r: AdminAccess) -> bool {
    match key {
        None => r is Off,
        Some(key) => if strings::is_blank(key) {
            r is BlankKey
        } else {
            r matches AdminAccess::On(given) && given@ == key
        },
    }
}

/// Decides whether the administration API is served.
pub fn admin_access(config: &Config) -> (r: AdminAccess)
    ensures
        is_admin_access(strings::text_of(config.admin_api_key), r),
{
    match &config.admin_api_key {
        Some(key) => if key.as_str().trim().is_empty() {
            AdminAccess::BlankKey
        } else {
            AdminAccess::On(key.clone())
        },
        None => AdminAccess::Off,
    }
}

/// The address to listen on.
pub open spec fn address(config: Config) -> Seq<char> {
    config.host@ + ":"@ + strings::decimal_digits(config.port as nat)
}

/// The address to listen on: host, colon, port.
pub fn listen_address(config: &Config) -> (r: String)
    ensures
        r@ == address(*config),
{
    let port = strings::decimal_text(config.port);
    config.host.clone().concat(":").concat(port.as_str())
}

/// The first half of a key, by bytes, with the rest blanked out.
pub fn masked_api_key(api_key: &str) -> (r: String)
    requires
        vstd::utf8::is_char_boundary(vstd::utf8::encode_utf8(api_key@), (api_key.len() / 2) as int),
    ensures
        r@ == vstd::utf8::decode_utf8(
            vstd::utf8::encode_utf8(api_key@).subrange(0, (api_key.len() / 2) as int),
        ) + "***"@,
{
    let (shown, hidden) = api_key.split_at(api_key.len() / 2);
    proof {
        vstd::utf8::encode_utf8_decode_utf8(shown@);
    }
    shown.to_owned().concat("***")
}

/// The first half of a key, by bytes, with the rest blanked out; `None` where
/// that would cut a character.
pub fn checked_masked_api_key(api_key: &str) -> (r: Option<String>)
    ensures
        r is Some <==> vstd::utf8::is_char_boundary(
            vstd::utf8::encode_utf8(api_key@),
            (api_key.len() / 2) as int,
        ),
        r matches Some(masked) ==> masked@ == vstd::utf8::decode_utf8(
            vstd::utf8::encode_utf8(api_key@).subrange(0, (api_key.len() / 2) as int),
        ) + "***"@,
{
    if api_key.is_char_boundary(api_key.len() / 2) {
        Some(masked_api_key(api_key))
    } else {
        None
    }
}

/// The name is among the registered ones.
pub open spec fn is_registered(names: Seq<String>, name: Seq<char>) -> bool {
    exists|i: int| 0 <= i < names.len() && (#[trigger] names[i])@ == name
}

fn has_name(names: &Vec<String>, name: &String) -> (r: bool)
    ensures
        r == is_registered(names@, name@),
{
    for i in 0..names.len()
        invariant
            forall|j: int| 0 <= j < i ==> (#[trigger] names@[j])@ != name@,
    {
        if names[i] == *name {
            return true;
        }
    }
    false
}

/// The endpoint that credentials use.
pub open spec fn endpoint_name(login: CredentialsView, default_endpoint: Seq<char>) -> Seq<char> {
    match login.endpoint {
        Some(name) => name,
        None => default_endpoint,
    }
}

/// The first `count` credentials use registered endpoints.
pub open spec fn are_endpoints_registered(
    list: Seq<KiroCredentials>,
    default_endpoint: Seq<char>,
    names: Seq<String>,
    count: int,
) -> bool {
    forall|i: int|
        0 <= i < count ==> is_registered(
            names,
            endpoint_name((#[trigger] list[i])@, default_endpoint),
        )
}

/// Why a configuration cannot be served.
#[derive(Debug)]
pub enum StartupError {
    /// There is no key for clients to present.
    MissingApiKey,
    /// The default endpoint is unknown.
    UnknownDefaultEndpoint { name: String },
    /// The endpoint of the credentials at this position is unknown.
    UnknownEndpoint { position: usize, id: Option<u64>, name: String },
}

/// How a configuration is served.
#[derive(Debug)]
pub struct StartupPlan {
    pub address: String,
    pub api_key: String,
    pub proxy: Option<ProxyConfig>,
    pub admin: AdminAccess,
}

/// `r` is the decision on a configuration. Of several errors the first counts:
/// no API key, an unknown default endpoint, then the first credentials with an
/// unknown endpoint.
pub open spec fn is_startup_decision(
    config: Config,
    list: Seq<KiroCredentials>,
    names: Seq<String>,
    r: Result<StartupPlan, StartupError>,
) -> bool {
    let default_endpoint = config.default_endpoint@;
    match r {
        Err(StartupError::MissingApiKey) => config.api_key is None,
        Err(StartupError::UnknownDefaultEndpoint { name }) => {
            &&& config.api_key is Some
            &&& !is_registered(names, default_endpoint)
            &&& name@ == default_endpoint
        },
        Err(StartupError::UnknownEndpoint { position, id, name }) => {
            &&& config.api_key is Some
            &&& is_registered(names, default_endpoint)
            &&& position < list.len()
            &&& are_endpoints_registered(list, default_endpoint, names, position as int)
            &&& !is_registered(names, name@)
            &&& name@ == endpoint_name(list[position as int]@, default_endpoint)
            &&& id == list[position as int].id
        },
        Ok(plan) => {
            &&& config.api_key matches Some(key) && plan.api_key@ == key@
            &&& is_registered(names, default_endpoint)
            &&& are_endpoints_registered(list, default_endpoint, names, list.len() as int)
            &&& plan.address@ == address(config)
            &&& proxy_view(plan.proxy) == configured_proxy(config)
            &&& is_admin_access(strings::text_of(config.admin_api_key), plan.admin)
        },
    }
}

/// Decides whether and how a configuration is served with these credentials and
/// these registered endpoints.
pub fn plan_startup(
    config: &Config,
    list: &Vec<KiroCredentials>,
    endpoints: &Vec<String>,
) -> (r: Result<StartupPlan, StartupError>)
    ensures
        is_startup_decision(*config, list@, endpoints@, r),
{
    let api_key = match &config.api_key {
        Some(key) => key.clone(),
        None => return Err(StartupError::MissingApiKey),
    };
    let proxy = proxy_config(config);
    if !has_name(endpoints, &config.default_endpoint) {
        return Err(
            StartupError::UnknownDefaultEndpoint { name: config.default_endpoint.clone() },
        );
    }
    for i in 0..list.len()
        invariant
            config.api_key is Some,
            is_registered(endpoints@, config.default_endpoint@),
            are_endpoints_registered(
                list@,
                config.default_endpoint@,
                endpoints@,
                i as int,
            ),
    {
        let name = match &list[i].endpoint {
            Some(name) => name,
            None => &config.default_endpoint,
        };
        if !has_name(endpoints, name) {
            return Err(
                StartupError::UnknownEndpoint { position: i, id: list[i].id, name: name.clone() },
            );
        }
    }
    Ok(
        StartupPlan {
            address: listen_address(config),
            api_key,
            proxy,
            admin: admin_access(config),
        },
    )
}

/// The decision on a configuration is unique: two of them agree on whether it
/// is served, and on the error with its position where it is not.
pub proof fn law_startup_decision_is_unique(
    config: Config,
    list: Seq<KiroCredentials>,
    names: Seq<String>,
    a: Result<StartupPlan, StartupError>,
    b: Result<StartupPlan, StartupError>,
)
    requires
        is_startup_decision(config, list, names, a),
        is_startup_decision(config, list, names, b),
    ensures
        a is Ok == b is Ok,
        a matches Err(StartupError::MissingApiKey) ==> b matches Err(StartupError::MissingApiKey),
        a matches Err(StartupError::UnknownDefaultEndpoint { .. }) ==> b matches Err(
            StartupError::UnknownDefaultEndpoint { .. },
        ),
        a matches Err(StartupError::UnknownEndpoint { position, .. }) ==> b matches Err(
            StartupError::UnknownEndpoint { position: other, .. },
        ) && other == position,
{
}

/// An API key put before credentials in the order of their priorities keeps
/// that order.
pub proof fn law_api_key_goes_first(
    list: Seq<KiroCredentials>,
    key: Option<Seq<char>>,
    r: Seq<KiroCredentials>,
)
    requires
        credentials::is_sorted_by_priority(list),
        is_with_api_key(list, key, r),
    ensures
        credentials::is_sorted_by_priority(r),
{
    if r.len() == list.len() + 1 {
        assert forall|i: int, j: int| 0 <= i <= j < r.len() implies (#[trigger] r[i]).priority <= (
        #[trigger] r[j]).priority by {
            if i > 0 {
                assert(r[i] == list[i - 1] && r[j] == list[j - 1]);
            } else {
                assert(r[0]@.priority == 0);
            }
        }
    }
}

} // verus!
