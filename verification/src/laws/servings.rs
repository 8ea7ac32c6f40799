//! Laws on the order of credentials and on how a configuration is served.

use vstd::prelude::*;
use crate::arg::Args;
use crate::cli_credentials::DetectedCredentials;
use crate::credentials;
use crate::credentials::{CredentialsConfig, KiroCredentials};
use crate::detect_error::DetectFailure;
use crate::laws::imports;
use crate::laws::text;
use crate::startup;
use crate::startup::{
    AdminAccess, Config, ProxyConfig, StartupCredentials, StartupError, StartupPlan,
};
use crate::strings;

verus! {

/// The address begins with the host, a colon follows, and the digits behind it
/// write the port.
pub open spec fn is_address(host: Seq<char>, port: u16, address: Seq<char>) -> bool {
    &&& address.len() > host.len()
    &&& address.take(host.len() as int) == host
    &&& address[host.len() as int] == ':'
    &&& text::is_decimal_notation(address.skip(host.len() as int + 1), port as nat)
}

/// The address to listen on is the configured host, a colon, and digits that
/// read back as the configured port.
pub proof fn law_address_is_host_and_port(config: Config, r: String)
    requires
        call_ensures(startup::listen_address, (&config,), r),
    ensures
        is_address(config.host@, config.port, r@),
{
    lemma_address(config);
}

proof fn lemma_address(config: Config)
    ensures
        is_address(config.host@, config.port, startup::address(config)),
{
    let host = config.host@;
    let digits = strings::decimal_digits(config.port as nat);
    let address = startup::address(config);
    reveal_strlit(":");
    strings::law_decimal_digits_read_back(config.port as nat);
    assert(address.take(host.len() as int) =~= host);
    assert(address.skip(host.len() as int + 1) =~= digits);
}

/// Configurations with the same port and different hosts have different
/// addresses, and so have those with the same host and different ports.
pub proof fn law_different_places_have_different_addresses(
    config: Config,
    other: Config,
    r: String,
    r_other: String,
)
    requires
        call_ensures(startup::listen_address, (&config,), r),
        call_ensures(startup::listen_address, (&other,), r_other),
    ensures
        config.port == other.port && config.host@ != other.host@ ==> r@ != r_other@,
        config.host@ == other.host@ && config.port != other.port ==> r@ != r_other@,
{
    law_address_is_host_and_port(config, r);
    law_address_is_host_and_port(other, r_other);
    if r@ == r_other@ && config.port == other.port {
        let longer = if config.host@.len() >= other.host@.len() {
            config.host@.len() as int
        } else {
            other.host@.len() as int
        };
        let shorter = if config.host@.len() >= other.host@.len() {
            other.host@.len() as int
        } else {
            config.host@.len() as int
        };
        if shorter < longer {
            let behind = r@.skip(shorter + 1);
            assert(behind[longer - shorter - 1] == r@[longer]);
        }
    }
}

/// The content of a file is what its credentials are taken from, in the order of
/// the file.
pub proof fn law_file_content_is_taken(file: CredentialsConfig, r: Vec<KiroCredentials>)
    requires
        call_ensures(CredentialsConfig::into_credentials, (file,), r),
    ensures
        r@ == imports::content(file),
{
}

/// A file is empty exactly when it is an array without elements.
pub proof fn law_only_an_array_is_empty(file: CredentialsConfig, empty: bool, multiple: bool)
    requires
        call_ensures(CredentialsConfig::is_empty, (&file,), empty),
        call_ensures(CredentialsConfig::is_multiple, (&file,), multiple),
    ensures
        multiple == (file is Multiple),
        empty == (imports::content(file).len() == 0),
        empty ==> multiple,
{
}

/// Credentials begin without any value and with the priority that is tried first.
pub proof fn law_credentials_begin_empty(r: KiroCredentials)
    requires
        call_ensures(KiroCredentials::default, (), r),
    ensures
        r.id is None,
        r.access_token is None && r.refresh_token is None && r.expires_at is None,
        r.auth_method is None && r.client_id is None && r.client_secret is None,
        r.region is None && r.auth_region is None && r.api_region is None,
        r.endpoint is None && r.kiro_api_key is None && r.extra is None,
        r.priority == 0,
{
}

/// The credentials of one priority, in their order.
pub open spec fn of_priority(list: Seq<KiroCredentials>, priority: u32) -> Seq<KiroCredentials> {
    list.filter(|credential: KiroCredentials| credential.priority == priority)
}

/// Ordering neither loses nor adds nor changes credentials, puts a smaller
/// priority number before a larger one, and leaves those of one priority in the
/// order of the file.
pub proof fn law_order_of_credentials(file: CredentialsConfig, r: Vec<KiroCredentials>)
    requires
        call_ensures(CredentialsConfig::into_sorted_credentials, (file,), r),
    ensures
        r@.to_multiset() == imports::content(file).to_multiset(),
        forall|i: int, j: int|
            0 <= i < j < r@.len() ==> (#[trigger] r@[i]).priority <= (#[trigger] r@[j]).priority,
        forall|priority: u32| #[trigger]
            of_priority(r@, priority) == of_priority(imports::content(file), priority),
{
    let list = file.list();
    assert(list =~= imports::content(file));
    assert forall|priority: u32| #[trigger]
        of_priority(r@, priority) == of_priority(list, priority) by {
        lemma_of_priority(r@, priority);
        lemma_of_priority(list, priority);
        assert(credentials::with_priority(r@, priority) == credentials::with_priority(
            list,
            priority,
        ));
    }
    assert forall|c: KiroCredentials| #[trigger] r@.to_multiset().count(c)
        == list.to_multiset().count(c) by {
        lemma_counted_among_equals(r@, c);
        lemma_counted_among_equals(list, c);
        assert(of_priority(r@, c.priority) == of_priority(list, c.priority));
    }
    assert(r@.to_multiset() =~= list.to_multiset());
}

proof fn lemma_of_priority(list: Seq<KiroCredentials>, priority: u32)
    ensures
        of_priority(list, priority) == credentials::with_priority(list, priority),
    decreases list.len(),
{
    reveal(Seq::filter);
    if list.len() > 0 {
        lemma_of_priority(list.drop_last(), priority);
    }
}

proof fn lemma_counted_among_equals(list: Seq<KiroCredentials>, c: KiroCredentials)
    ensures
        list.to_multiset().count(c) == of_priority(list, c.priority).to_multiset().count(c),
    decreases list.len(),
{
    reveal(Seq::filter);
    broadcast use vstd::seq_lib::group_to_multiset_ensures;
    if list.len() > 0 {
        let rest = list.drop_last();
        lemma_counted_among_equals(rest, c);
        assert(list =~= rest.push(list.last()));
    } else {
        assert(of_priority(list, c.priority) =~= list);
    }
}

/// The credentials are those that an API key alone makes.
pub open spec fn is_key_login(login: KiroCredentials, key: Seq<char>) -> bool {
    &&& login.kiro_api_key matches Some(given) && given@ == key
    &&& login.auth_method matches Some(method) && method@ == "api_key"@
    &&& login.priority == 0
    &&& login.id is None
    &&& login.access_token is None
    &&& login.refresh_token is None
    &&& login.expires_at is None
    &&& login.client_id is None
    &&& login.client_secret is None
    &&& login.region is None
    &&& login.auth_region is None
    &&& login.api_region is None
    &&& login.endpoint is None
    &&& login.extra is None
}

/// The key is put before the list, where there is one and it is not empty.
pub open spec fn goes_before(
    key: Option<String>,
    list: Seq<KiroCredentials>,
    r: Seq<KiroCredentials>,
) -> bool {
    if key is Some && key->0@.len() > 0 {
        r.len() == list.len() + 1 && is_key_login(r[0], key->0@) && r.skip(1) == list
    } else {
        r == list
    }
}

/// An API key goes before all other credentials and leaves them alone; without
/// one, and with an empty one, nothing is added.
pub proof fn law_key_goes_before_the_list(
    list: Vec<KiroCredentials>,
    key: Option<String>,
    r: Vec<KiroCredentials>,
)
    requires
        call_ensures(startup::add_api_key, (list, key), r),
    ensures
        goes_before(key, list@, r@),
{
    lemma_key_goes_before(list@, key, r@);
}

proof fn lemma_key_goes_before(
    list: Seq<KiroCredentials>,
    key: Option<String>,
    r: Seq<KiroCredentials>,
)
    requires
        startup::is_with_api_key(list, strings::text_of(key), r),
    ensures
        goes_before(key, list, r),
{
    if key is Some && key->0@.len() > 0 {
        assert(r.skip(1) =~= r.drop_first());
        assert(r.first() == r[0]);
    }
}

/// Start-up tries the API key first, then the credentials of the file in the
/// order of their priorities, and remembers whether the file is an array.
pub proof fn law_startup_orders_the_file(
    file: CredentialsConfig,
    key: Option<String>,
    r: StartupCredentials,
    sorted: Vec<KiroCredentials>,
)
    requires
        call_ensures(startup::startup_credentials, (file, key), r),
        call_ensures(CredentialsConfig::into_sorted_credentials, (file,), sorted),
    ensures
        goes_before(key, sorted@, r.list@),
        r.is_multiple == (file is Multiple),
{
    let before = choose|before: Seq<KiroCredentials>|
        credentials::is_stable_sort(file.list(), before) && #[trigger] startup::is_with_api_key(
            before,
            strings::text_of(key),
            r.list@,
        );
    credentials::law_stable_sort_is_unique(file.list(), before, sorted@);
    lemma_key_goes_before(before, key, r.list@);
}

/// What was detected is used exactly when the file holds no credentials: then
/// alone, as an array of one. A file with credentials stays as it is, and so
/// does any where nothing was detected.
pub proof fn law_detected_login_fills_an_empty_file(
    file: CredentialsConfig,
    detected: Result<Option<DetectedCredentials>, DetectFailure>,
    r: CredentialsConfig,
)
    requires
        call_ensures(startup::adopt_detected, (file, detected), r),
    ensures
        imports::content(file).len() > 0 ==> r == file,
        !(detected matches Ok(Some(_))) ==> r == file,
        imports::content(file).len() == 0 ==> (detected matches Ok(Some(found)) ==> r is Multiple
            && r->Multiple_0@ == seq![found.credentials]),
{
}

/// The proxy is the configured one: there is one exactly with a URL, and it has
/// authentication exactly with both a user name and a password.
pub open spec fn is_proxy_of(config: Config, proxy: Option<ProxyConfig>) -> bool {
    &&& proxy is Some <==> config.proxy_url is Some
    &&& proxy is Some ==> {
        &&& proxy->0.url@ == config.proxy_url->0@
        &&& proxy->0.auth is Some <==> config.proxy_username is Some
            && config.proxy_password is Some
        &&& proxy->0.auth is Some ==> {
            &&& (proxy->0.auth->0).0@ == config.proxy_username->0@
            &&& (proxy->0.auth->0).1@ == config.proxy_password->0@
        }
    }
}

/// The proxy that is gone through is the configured one.
pub proof fn law_proxy_is_the_configured_one(config: Config, r: Option<ProxyConfig>)
    requires
        call_ensures(startup::proxy_config, (&config,), r),
    ensures
        is_proxy_of(config, r),
{
    lemma_proxy(config, r);
}

proof fn lemma_proxy(config: Config, proxy: Option<ProxyConfig>)
    requires
        startup::proxy_view(proxy) == startup::configured_proxy(config),
    ensures
        is_proxy_of(config, proxy),
{
    if config.proxy_url is Some && proxy is Some {
        let told = startup::proxy_view(proxy)->0;
        let configured = startup::configured_proxy(config)->0;
        assert(told.url == configured.url);
        assert(told.auth == configured.auth);
        if told.auth is Some {
            assert((told.auth->0).0 == (configured.auth->0).0);
            assert((told.auth->0).1 == (configured.auth->0).1);
        }
    }
}

/// Who may administer: no one without a key or with one of nothing but
/// whitespace, else whoever presents the key as it is configured.
pub open spec fn is_admin_of(config: Config, admin: AdminAccess) -> bool {
    &&& admin is Off <==> config.admin_api_key is None
    &&& admin is BlankKey <==> config.admin_api_key is Some && strings::is_all_whitespace(
        config.admin_api_key->0@,
    )
    &&& admin matches AdminAccess::On(key) ==> config.admin_api_key is Some && key@
        == config.admin_api_key->0@
}

/// The administration API is served to the configured key alone.
pub proof fn law_administration_needs_its_key(config: Config, r: AdminAccess)
    requires
        call_ensures(startup::admin_access, (&config,), r),
    ensures
        is_admin_of(config, r),
{
    if config.admin_api_key is Some {
        strings::law_blank_means_only_whitespace(config.admin_api_key->0@);
    }
}

/// The endpoint of credentials: their own, or else the default one.
pub open spec fn endpoint_of(login: KiroCredentials, config: Config) -> Seq<char> {
    if login.endpoint is Some {
        login.endpoint->0@
    } else {
        config.default_endpoint@
    }
}

/// One of the names reads like this.
pub open spec fn is_among(names: Seq<String>, name: Seq<char>) -> bool {
    exists|i: int| 0 <= i < names.len() && (#[trigger] names[i])@ == name
}

/// A configuration is served exactly when it has an API key and every endpoint,
/// the default one and those of the credentials, is registered.
pub proof fn law_what_is_served(
    config: Config,
    list: Vec<KiroCredentials>,
    names: Vec<String>,
    r: Result<StartupPlan, StartupError>,
)
    requires
        call_ensures(startup::plan_startup, (&config, &list, &names), r),
    ensures
        r is Ok <==> config.api_key is Some && is_among(names@, config.default_endpoint@) && (
        forall|i: int|
            0 <= i < list@.len() ==> is_among(
                names@,
                endpoint_of(#[trigger] list@[i], config),
            )),
{
    lemma_registered(config, list@, names@);
    if let Err(StartupError::UnknownEndpoint { position, .. }) = r {
        assert(!is_among(names@, endpoint_of(list@[position as int], config)));
    }
    if r is Ok {
        assert forall|i: int| 0 <= i < list@.len() implies is_among(
            names@,
            endpoint_of(#[trigger] list@[i], config),
        ) by {
            assert(startup::is_registered(
                names@,
                startup::endpoint_name(list@[i]@, config.default_endpoint@),
            ));
        }
    }
}

proof fn lemma_registered(config: Config, list: Seq<KiroCredentials>, names: Seq<String>)
    ensures
        forall|name: Seq<char>| #[trigger]
            startup::is_registered(names, name) == is_among(names, name),
        forall|i: int|
            0 <= i < list.len() ==> endpoint_of(#[trigger] list[i], config)
                == startup::endpoint_name(list[i]@, config.default_endpoint@),
{
    assert forall|name: Seq<char>| #[trigger]
        startup::is_registered(names, name) == is_among(names, name) by {
        if startup::is_registered(names, name) {
            let i = choose|i: int| 0 <= i < names.len() && (#[trigger] names[i])@ == name;
            assert(names[i]@ == name);
        }
    }
}

/// A configuration is served at its address, with its API key, through its proxy
/// and with its administration key.
pub proof fn law_how_it_is_served(
    config: Config,
    list: Vec<KiroCredentials>,
    names: Vec<String>,
    r: Result<StartupPlan, StartupError>,
)
    requires
        call_ensures(startup::plan_startup, (&config, &list, &names), r),
    ensures
        r matches Ok(plan) ==> {
            &&& is_address(config.host@, config.port, plan.address@)
            &&& config.api_key matches Some(key) && plan.api_key@ == key@
            &&& is_proxy_of(config, plan.proxy)
            &&& is_admin_of(config, plan.admin)
        },
{
    if let Ok(plan) = r {
        lemma_address(config);
        lemma_proxy(config, plan.proxy);
        if config.admin_api_key is Some {
            strings::law_blank_means_only_whitespace(config.admin_api_key->0@);
        }
    }
}

/// A configuration that is not served is told its first fault: that there is no
/// API key; the name of the default endpoint that is unknown; the position, id
/// and endpoint of the first credentials with an unknown one.
pub proof fn law_why_it_is_not_served(
    config: Config,
    list: Vec<KiroCredentials>,
    names: Vec<String>,
    r: Result<StartupPlan, StartupError>,
)
    requires
        call_ensures(startup::plan_startup, (&config, &list, &names), r),
    ensures
        config.api_key is None <==> r matches Err(StartupError::MissingApiKey),
        config.api_key is Some && !is_among(names@, config.default_endpoint@) <==> r matches Err(
            StartupError::UnknownDefaultEndpoint { .. },
        ),
        r matches Err(StartupError::UnknownDefaultEndpoint { name }) ==> name@
            == config.default_endpoint@,
        r matches Err(StartupError::UnknownEndpoint { position, id, name }) ==> {
            &&& position < list@.len()
            &&& id == list@[position as int].id
            &&& name@ == endpoint_of(list@[position as int], config)
            &&& !is_among(names@, name@)
            &&& forall|i: int|
                0 <= i < position ==> is_among(names@, endpoint_of(#[trigger] list@[i], config))
        },
{
    lemma_registered(config, list@, names@);
    if let Err(StartupError::UnknownEndpoint { position, .. }) = r {
        assert forall|i: int| 0 <= i < position implies is_among(
            names@,
            endpoint_of(#[trigger] list@[i], config),
        ) by {
            assert(startup::is_registered(
                names@,
                startup::endpoint_name(list@[i]@, config.default_endpoint@),
            ));
        }
    }
}

/// The masked key shows the beginning of the key, half of it by bytes, and three
/// asterisks in place of the rest.
pub open spec fn is_masked(key: Seq<char>, masked: Seq<char>) -> bool {
    let shown = masked.take(masked.len() - 3);
    &&& masked.len() >= 3
    &&& masked.skip(masked.len() - 3) == seq!['*', '*', '*']
    &&& shown.len() <= key.len()
    &&& shown == key.take(shown.len() as int)
    &&& vstd::utf8::encode_utf8(shown).len() == vstd::utf8::encode_utf8(key).len() / 2
}

/// A key is masked behind its first half, wherever that cuts no character.
pub proof fn law_key_is_masked(key: &str, r: String, checked: Option<String>)
    requires
        vstd::utf8::encode_utf8(key@).len() <= usize::MAX,
        vstd::utf8::is_char_boundary(
            vstd::utf8::encode_utf8(key@),
            (vstd::utf8::encode_utf8(key@).len() / 2) as int,
        ),
        call_ensures(startup::masked_api_key, (key,), r),
        call_ensures(startup::checked_masked_api_key, (key,), checked),
    ensures
        is_masked(key@, r@),
        checked is Some,
        checked->0@ == r@,
{
    let bytes = vstd::utf8::encode_utf8(key@);
    let half = (bytes.len() / 2) as int;
    reveal_strlit("***");
    vstd::utf8::encode_utf8_valid_utf8(key@);
    vstd::utf8::encode_utf8_decode_utf8(key@);
    vstd::utf8::valid_utf8_split(bytes, half);
    vstd::utf8::decode_utf8_split(bytes, half);
    let shown = vstd::utf8::decode_utf8(bytes.subrange(0, half));
    vstd::utf8::decode_utf8_encode_utf8(bytes.subrange(0, half));
    assert(r@ == shown + "***"@);
    assert(r@.take(r@.len() - 3) =~= shown);
    assert(r@.skip(r@.len() - 3) =~= seq!['*', '*', '*']);
    assert(key@.take(shown.len() as int) =~= shown);
}

/// Where half of the key would cut a character there is no masked key.
pub proof fn law_no_character_is_cut(key: &str, r: Option<String>)
    requires
        vstd::utf8::encode_utf8(key@).len() <= usize::MAX,
        call_ensures(startup::checked_masked_api_key, (key,), r),
    ensures
        r is Some <==> vstd::utf8::is_char_boundary(
            vstd::utf8::encode_utf8(key@),
            (vstd::utf8::encode_utf8(key@).len() / 2) as int,
        ),
{
}

/// The paths of the two files are those of the command line, each its own, or
/// else the usual ones.
pub proof fn law_paths_of_the_files(args: Args, default: &str, config: String, file: String)
    requires
        call_ensures(Args::config_path, (&args, default), config),
        call_ensures(Args::credentials_path, (&args, default), file),
    ensures
        args.config matches Some(path) ==> config@ == path@,
        args.config is None ==> config@ == default@,
        args.credentials matches Some(path) ==> file@ == path@,
        args.credentials is None ==> file@ == default@,
{
}

} // verus!
