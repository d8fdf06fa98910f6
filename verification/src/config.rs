use vstd::prelude::*;

use crate::ids::uuid_parse;
use crate::text::{decimal_digits, is_ascii_alphanumeric, text_equals};
use vstd::string::StringSliceAdditionalSpecFns;
use vstd::utf8::encode_utf8;

verus! {

pub const FORMULA_VERSION: &'static str = "1.3.0";

pub const SCHEMA_VERSION: &'static str = "1.0.0";

pub const FOUNDRY_API_VERSION: &'static str = "2024-10-21";

pub const MAX_PROVIDER_REFRESHES_PER_HOUR: u32 = 10_000;

pub const MIB: usize = 1_048_576;

#[derive(Clone, Copy, Debug, PartialEq, Eq, Structural)]
pub enum AppEnvironment {
    Local,
    Development,
    Production,
}

/// Mock identity for local development.
#[derive(Clone, Debug, PartialEq, Eq)]
pub struct LocalAuthSettings {
    pub tenant_id: u128,
    pub object_id: u128,
    pub display_name: String,
}

#[derive(Clone, Debug, PartialEq, Eq)]
pub struct CosmosSettings {
    pub endpoint: String,
    pub application_region: String,
}

/// The assistant's endpoint (as the URL parser writes it back), deployment,
/// API version, and concurrency.
#[derive(Clone, Debug, PartialEq, Eq)]
pub struct AssistantSettings {
    pub endpoint: String,
    pub deployment: String,
    pub api_version: String,
    pub concurrency: usize,
}

#[derive(Clone, Copy, Debug, PartialEq, Eq, Structural)]
pub enum ConfigError {
    InvalidEnvironment,
    InvalidBindAddress,
    LocalAuthOutsideLocalEnvironment,
    IncompleteLocalAuth,
    InvalidLocalAuthId,
    InvalidLocalAuthDisplayName,
    MissingCosmosSettings,
    CosmosSettingsInLocalEnvironment,
    InvalidCosmosEndpoint,
    InvalidAzureRegion,
    InvalidAssistantEnabled,
    AssistantSettingsWhileDisabled,
    AssistantInLocalEnvironment,
    IncompleteAssistantSettings,
    InvalidFoundryEndpoint,
    InvalidFoundryDeployment,
    InvalidFoundryApiVersion,
    InvalidAssistantConcurrency,
    InvalidAssistantRequestQuota,
    InvalidQuota,
    InvalidProviderResponseLimit,
}

impl ConfigError {
    /// The error's message as text.
    pub open spec fn spec_message(&self) -> Seq<char> {
        match self {
            ConfigError::InvalidEnvironment => "APP_ENV must be local, development, or production"@,
            ConfigError::InvalidBindAddress => "HTTP_BIND must be a valid socket address"@,
            ConfigError::LocalAuthOutsideLocalEnvironment => "local authentication settings are allowed only when APP_ENV=local"@,
            ConfigError::IncompleteLocalAuth => "local authentication requires tenant ID, owner ID, and display name together"@,
            ConfigError::InvalidLocalAuthId => "local authentication tenant and owner IDs must be UUIDs"@,
            ConfigError::InvalidLocalAuthDisplayName => "local authentication display name must contain 1 to 200 characters"@,
            ConfigError::MissingCosmosSettings => "Cosmos settings are required outside APP_ENV=local"@,
            ConfigError::CosmosSettingsInLocalEnvironment => "Cosmos settings are not supported with APP_ENV=local"@,
            ConfigError::InvalidCosmosEndpoint => "COSMOSDB_ENDPOINT must be an HTTPS Azure Cosmos DB account endpoint"@,
            ConfigError::InvalidAzureRegion => "AZURE_REGION must be a valid Azure region name"@,
            ConfigError::InvalidAssistantEnabled => "ASSISTANT_ENABLED must be true or false"@,
            ConfigError::AssistantSettingsWhileDisabled => "Foundry assistant settings require ASSISTANT_ENABLED=true"@,
            ConfigError::AssistantInLocalEnvironment => "live assistant inference is not supported with APP_ENV=local"@,
            ConfigError::IncompleteAssistantSettings => "enabled assistant requires endpoint, deployment, and API version together"@,
            ConfigError::InvalidFoundryEndpoint => "FOUNDRY_ENDPOINT must be an HTTPS Azure Foundry endpoint"@,
            ConfigError::InvalidFoundryDeployment => "FOUNDRY_MODEL_DEPLOYMENT must be a valid deployment name"@,
            ConfigError::InvalidFoundryApiVersion => "FOUNDRY_API_VERSION must match the approved stable API version"@,
            ConfigError::InvalidAssistantConcurrency => "ASSISTANT_CONCURRENCY must be between 1 and 8"@,
            ConfigError::InvalidAssistantRequestQuota => "ASSISTANT_REQUESTS_PER_MINUTE must be between 1 and 60"@,
            ConfigError::InvalidQuota => "request quota settings must be within supported positive ranges"@,
            ConfigError::InvalidProviderResponseLimit => "PROVIDER_MAX_RESPONSE_BYTES must be between 1 MiB and 256 MiB"@,
        }
    }

    /// The error's message.
    pub fn message(&self) -> (r: &'static str)
        ensures
            r@ == self.spec_message(),
    {
        match self {
            ConfigError::InvalidEnvironment => "APP_ENV must be local, development, or production",
            ConfigError::InvalidBindAddress => "HTTP_BIND must be a valid socket address",
            ConfigError::LocalAuthOutsideLocalEnvironment => "local authentication settings are allowed only when APP_ENV=local",
            ConfigError::IncompleteLocalAuth => "local authentication requires tenant ID, owner ID, and display name together",
            ConfigError::InvalidLocalAuthId => "local authentication tenant and owner IDs must be UUIDs",
            ConfigError::InvalidLocalAuthDisplayName => "local authentication display name must contain 1 to 200 characters",
            ConfigError::MissingCosmosSettings => "Cosmos settings are required outside APP_ENV=local",
            ConfigError::CosmosSettingsInLocalEnvironment => "Cosmos settings are not supported with APP_ENV=local",
            ConfigError::InvalidCosmosEndpoint => "COSMOSDB_ENDPOINT must be an HTTPS Azure Cosmos DB account endpoint",
            ConfigError::InvalidAzureRegion => "AZURE_REGION must be a valid Azure region name",
            ConfigError::InvalidAssistantEnabled => "ASSISTANT_ENABLED must be true or false",
            ConfigError::AssistantSettingsWhileDisabled => "Foundry assistant settings require ASSISTANT_ENABLED=true",
            ConfigError::AssistantInLocalEnvironment => "live assistant inference is not supported with APP_ENV=local",
            ConfigError::IncompleteAssistantSettings => "enabled assistant requires endpoint, deployment, and API version together",
            ConfigError::InvalidFoundryEndpoint => "FOUNDRY_ENDPOINT must be an HTTPS Azure Foundry endpoint",
            ConfigError::InvalidFoundryDeployment => "FOUNDRY_MODEL_DEPLOYMENT must be a valid deployment name",
            ConfigError::InvalidFoundryApiVersion => "FOUNDRY_API_VERSION must match the approved stable API version",
            ConfigError::InvalidAssistantConcurrency => "ASSISTANT_CONCURRENCY must be between 1 and 8",
            ConfigError::InvalidAssistantRequestQuota => "ASSISTANT_REQUESTS_PER_MINUTE must be between 1 and 60",
            ConfigError::InvalidQuota => "request quota settings must be within supported positive ranges",
            ConfigError::InvalidProviderResponseLimit => "PROVIDER_MAX_RESPONSE_BYTES must be between 1 MiB and 256 MiB",
        }
    }
}

// ---------------------------------------------------------------------------
// What outside parsers read.
// ---------------------------------------------------------------------------

/// The parts of a parsed URL that the settings check.
#[derive(Clone, Debug)]
pub struct UrlParts {
    pub serialized: String,
    pub scheme: String,
    pub username: String,
    pub password: Option<String>,
    pub host: Option<String>,
    pub port: Option<u16>,
    pub path: String,
    pub query: Option<String>,
    pub fragment: Option<String>,
}

/// (serialized, scheme, username, password, host, port, path, query, fragment).
pub type UrlView = (
    Seq<char>,
    Seq<char>,
    Seq<char>,
    Option<Seq<char>>,
    Option<Seq<char>>,
    Option<u16>,
    Seq<char>,
    Option<Seq<char>>,
    Option<Seq<char>>,
);

pub open spec fn opt_view(value: Option<String>) -> Option<Seq<char>> {
    match value {
        Some(s) => Some(s@),
        None => None,
    }
}

impl View for UrlParts {
    type V = UrlView;

    open spec fn view(&self) -> UrlView {
        (
            self.serialized@,
            self.scheme@,
            self.username@,
            opt_view(self.password),
            opt_view(self.host),
            self.port,
            self.path@,
            opt_view(self.query),
            opt_view(self.fragment),
        )
    }
}

/// What `Url::parse` reads from a text, as its parts.
pub uninterp spec fn url_parse(text: Seq<char>) -> Option<UrlView>;

/// A decimal digit.
pub open spec fn is_digit_char(c: char) -> bool {
    0x30 <= (c as u32) <= 0x39
}

/// The value of a text of decimal digits, most significant first.
pub open spec fn digits_value(s: Seq<char>) -> int
    decreases s.len(),
{
    if s.len() == 0 {
        0
    } else {
        digits_value(s.drop_last()) * 10 + ((s.last() as u32) - 0x30)
    }
}

/// Where the digits of an unsigned integer's text start: after a leading '+'.
pub open spec fn digits_start(text: Seq<char>) -> int {
    if text.len() > 0 && text[0] == '+' {
        1
    } else {
        0
    }
}

/// The value an unsigned integer's text holds, when it is at most `max`: an
/// optional '+' and then one or more decimal digits, as `from_str` reads them.
pub open spec fn unsigned_parse(text: Seq<char>, max: int) -> Option<int> {
    let body = text.subrange(digits_start(text), text.len() as int);
    if body.len() > 0 && (forall|i: int| 0 <= i < body.len() ==> is_digit_char(#[trigger] body[i])) && digits_value(
        body,
    ) <= max {
        Some(digits_value(body))
    } else {
        None
    }
}

/// What `usize`'s `from_str` reads from a text.
pub open spec fn usize_parse(text: Seq<char>) -> Option<usize> {
    match unsigned_parse(text, usize::MAX as int) {
        Some(v) => Some(v as usize),
        None => None,
    }
}

/// What `u32`'s `from_str` reads from a text.
pub open spec fn u32_parse(text: Seq<char>) -> Option<u32> {
    match unsigned_parse(text, u32::MAX as int) {
        Some(v) => Some(v as u32),
        None => None,
    }
}

/// Reads an unsigned integer of at most `max` from its text.
fn parse_unsigned(text: &str, max: u64) -> (r: Option<u64>)
    requires
        max >= 9,
    ensures
        match unsigned_parse(text@, max as int) {
            Some(v) => r matches Some(x) && x == v,
            None => r is None,
        },
        r matches Some(x) ==> x <= max,
{
    let n = text.unicode_len();
    let start: usize = if n > 0 && text.get_char(0) == '+' {
        1
    } else {
        0
    };
    if start == n {
        return None;
    }
    let ghost body = text@.subrange(start as int, n as int);
    assert(start == digits_start(text@));
    let mut i: usize = start;
    let mut acc: u64 = 0;
    let mut over = false;
    while i < n
        invariant
            n == text@.len(),
            start <= i <= n,
            start < n,
            start == digits_start(text@),
            max >= 9,
            body == text@.subrange(start as int, n as int),
            forall|k: int| start <= k < i ==> is_digit_char(#[trigger] text@[k]),
            !over ==> acc == digits_value(text@.subrange(start as int, i as int)) && acc <= max,
            over ==> digits_value(text@.subrange(start as int, i as int)) > max,
        decreases n - i,
    {
        let c = text.get_char(i);
        let v = c as u32;
        if v < 0x30 || v > 0x39 {
            assert(body[i - start] == text@[i as int]);
            assert(!is_digit_char(body[i - start]));
            return None;
        }
        let d = (v - 0x30) as u64;
        let ghost prev = text@.subrange(start as int, i as int);
        let ghost next = text@.subrange(start as int, i + 1);
        assert(next.drop_last() =~= prev);
        assert(next.last() == c);
        assert(digits_value(next) == digits_value(prev) * 10 + d);
        if !over {
            if acc > (max - d) / 10 {
                over = true;
            } else {
                acc = acc * 10 + d;
            }
        }
        i = i + 1;
    }
    assert(text@.subrange(start as int, i as int) =~= body);
    if over {
        None
    } else {
        Some(acc)
    }
}

/// Whether a character is a control character (general category Cc), as
/// `char::is_control` reports: U+0000 to U+001F and U+007F to U+009F.
pub open spec fn unicode_control(c: char) -> bool {
    let v = c as u32;
    v <= 0x1F || (0x7F <= v && v <= 0x9F)
}

/// Calls `Url::parse` and reads the parts of the URL; they are named `url_parse`.
#[verifier::external_body]
fn parse_url(text: &str) -> (r: Option<UrlParts>)
    ensures
        match r {
            Some(parts) => url_parse(text@) == Some(parts@),
            None => url_parse(text@) is None,
        },
{
    reqwest::Url::parse(text).ok().map(
        |url| UrlParts {
            serialized: url.as_str().to_owned(),
            scheme: url.scheme().to_owned(),
            username: url.username().to_owned(),
            password: url.password().map(|value| value.to_owned()),
            host: url.host_str().map(|value| value.to_owned()),
            port: url.port(),
            path: url.path().to_owned(),
            query: url.query().map(|value| value.to_owned()),
            fragment: url.fragment().map(|value| value.to_owned()),
        },
    )
}

/// Reads a `usize` from its text.
fn parse_usize(text: &str) -> (r: Option<usize>)
    ensures
        r == usize_parse(text@),
{
    match parse_unsigned(text, usize::MAX as u64) {
        Some(v) => Some(v as usize),
        None => None,
    }
}

/// Reads a `u32` from its text.
fn parse_u32(text: &str) -> (r: Option<u32>)
    ensures
        r == u32_parse(text@),
{
    match parse_unsigned(text, u32::MAX as u64) {
        Some(v) => Some(v as u32),
        None => None,
    }
}

/// Whether `c` is a control character.
fn char_is_control(c: char) -> (r: bool)
    ensures
        r == unicode_control(c),
{
    let v = c as u32;
    v <= 0x1F || (0x7F <= v && v <= 0x9F)
}

// ---------------------------------------------------------------------------
// The settings.
// ---------------------------------------------------------------------------

pub open spec fn ends_with(s: Seq<char>, suffix: Seq<char>) -> bool {
    suffix.len() <= s.len() && s.subrange(s.len() - suffix.len(), s.len() as int) == suffix
}

fn text_ends_with(s: &str, suffix: &str) -> (r: bool)
    ensures
        r == ends_with(s@, suffix@),
{
    let n = s.unicode_len();
    let m = suffix.unicode_len();
    if m > n {
        return false;
    }
    let mut i: usize = 0;
    while i < m
        invariant
            n == s@.len(),
            m == suffix@.len(),
            m <= n,
            i <= m,
            forall|k: int| 0 <= k < i ==> s@[n - m + k] == suffix@[k],
        decreases m - i,
    {
        if s.get_char(n - m + i) != suffix.get_char(i) {
            assert(s@.subrange(n - m, n as int)[i as int] != suffix@[i as int]);
            return false;
        }
        i = i + 1;
    }
    assert(s@.subrange(n - m, n as int) =~= suffix@);
    true
}

/// An HTTPS URL with no credentials, port, query or fragment, and the root path.
pub open spec fn plain_https_root(u: UrlView) -> bool {
    &&& u.1 == "https"@
    &&& u.2.len() == 0
    &&& u.3 is None
    &&& u.5 is None
    &&& u.6 == "/"@
    &&& u.7 is None
    &&& u.8 is None
}

pub open spec fn host_ends_with(u: UrlView, suffix: Seq<char>) -> bool {
    u.4 matches Some(h) && ends_with(h, suffix)
}

/// An Azure Foundry or Azure OpenAI endpoint.
pub open spec fn spec_valid_foundry_endpoint(u: UrlView) -> bool {
    plain_https_root(u) && (host_ends_with(u, ".openai.azure.com"@) || host_ends_with(u, ".services.ai.azure.com"@))
}

/// An Azure Cosmos DB account endpoint.
pub open spec fn spec_valid_cosmos_endpoint(u: UrlView) -> bool {
    plain_https_root(u) && host_ends_with(u, ".documents.azure.com"@)
}

fn plain_https_root_exec(u: &UrlParts) -> (r: bool)
    ensures
        r == plain_https_root(u@),
{
    text_equals(u.scheme.as_str(), "https") && u.username.as_str().is_empty() && u.password.is_none()
        && u.port.is_none() && text_equals(u.path.as_str(), "/") && u.query.is_none() && u.fragment.is_none()
}

fn host_ends_with_exec(u: &UrlParts, suffix: &str) -> (r: bool)
    ensures
        r == host_ends_with(u@, suffix@),
{
    match &u.host {
        Some(h) => text_ends_with(h.as_str(), suffix),
        None => false,
    }
}

fn valid_foundry_endpoint(u: &UrlParts) -> (r: bool)
    ensures
        r == spec_valid_foundry_endpoint(u@),
{
    plain_https_root_exec(u) && (host_ends_with_exec(u, ".openai.azure.com") || host_ends_with_exec(
        u,
        ".services.ai.azure.com",
    ))
}

/// 1 to 64 letters, digits, `-` or `_`.
pub open spec fn valid_deployment(bytes: Seq<u8>) -> bool {
    1 <= bytes.len() <= 64 && forall|i: int|
        0 <= i < bytes.len() ==> is_ascii_alphanumeric(#[trigger] bytes[i]) || bytes[i] == 0x2d || bytes[i] == 0x5f
}

fn valid_deployment_exec(s: &str) -> (r: bool)
    ensures
        r == valid_deployment(s.spec_bytes()),
{
    let bytes = s.as_bytes();
    if bytes.len() < 1 || bytes.len() > 64 {
        return false;
    }
    let mut i: usize = 0;
    while i < bytes.len()
        invariant
            i <= bytes@.len(),
            bytes@ == s.spec_bytes(),
            forall|k: int|
                0 <= k < i ==> is_ascii_alphanumeric(#[trigger] bytes@[k]) || bytes@[k] == 0x2d || bytes@[k] == 0x5f,
        decreases bytes@.len() - i,
    {
        let b = bytes[i];
        let ok = (b >= 0x30 && b <= 0x39) || (b >= 0x41 && b <= 0x5a) || (b >= 0x61 && b <= 0x7a) || b == 0x2d
            || b == 0x5f;
        if !ok {
            assert(!is_ascii_alphanumeric(bytes@[i as int]));
            return false;
        }
        i = i + 1;
    }
    true
}

/// 1 to 64 bytes of letters, digits and spaces.
pub open spec fn valid_region(s: Seq<char>, bytes: Seq<u8>) -> bool {
    &&& 1 <= bytes.len() <= 64
    &&& forall|i: int|
        0 <= i < s.len() ==> is_ascii_alphanumeric((#[trigger] s[i]) as u8) && (s[i] as int) < 128 || s[i] == ' '
}

fn valid_region_exec(s: &str) -> (r: bool)
    ensures
        r == valid_region(s@, s.spec_bytes()),
{
    let len = s.as_bytes().len();
    if len == 0 || len > 64 {
        return false;
    }
    let n = s.unicode_len();
    let mut i: usize = 0;
    while i < n
        invariant
            n == s@.len(),
            i <= n,
            forall|k: int|
                0 <= k < i ==> is_ascii_alphanumeric((#[trigger] s@[k]) as u8) && (s@[k] as int) < 128 || s@[k] == ' ',
        decreases n - i,
    {
        let c = s.get_char(i);
        let ok = ('0' <= c && c <= '9') || ('A' <= c && c <= 'Z') || ('a' <= c && c <= 'z') || c == ' ';
        if !ok {
            return false;
        }
        i = i + 1;
    }
    true
}

/// Which Cosmos settings apply: none locally (where giving any is an error);
/// elsewhere an allow-listed endpoint and a valid region, both required.
pub open spec fn spec_cosmos_settings(
    environment: AppEnvironment,
    endpoint: Option<Seq<char>>,
    region: Option<(Seq<char>, Seq<u8>)>,
) -> Result<Option<(Seq<char>, Seq<char>)>, ConfigError> {
    if environment == AppEnvironment::Local {
        if endpoint is None && region is None {
            Ok(None)
        } else {
            Err(ConfigError::CosmosSettingsInLocalEnvironment)
        }
    } else {
        match (endpoint, region) {
            (Some(e), Some((r, r_bytes))) => match url_parse(e) {
                None => Err(ConfigError::InvalidCosmosEndpoint),
                Some(u) => if !spec_valid_cosmos_endpoint(u) {
                    Err(ConfigError::InvalidCosmosEndpoint)
                } else if !valid_region(r, r_bytes) {
                    Err(ConfigError::InvalidAzureRegion)
                } else {
                    Ok(Some((e, r)))
                },
            },
            _ => Err(ConfigError::MissingCosmosSettings),
        }
    }
}

pub open spec fn text_and_bytes(value: Option<String>) -> Option<(Seq<char>, Seq<u8>)> {
    match value {
        Some(s) => Some((s@, encode_utf8(s@))),
        None => None,
    }
}

/// The Cosmos settings for the environment.
pub fn cosmos_settings(
    environment: AppEnvironment,
    endpoint: Option<String>,
    application_region: Option<String>,
) -> (r: Result<Option<CosmosSettings>, ConfigError>)
    ensures
        match spec_cosmos_settings(environment, opt_view(endpoint), text_and_bytes(application_region)) {
            Ok(Some((e, region))) => r matches Ok(Some(s)) && s.endpoint@ == e && s.application_region@ == region,
            Ok(None) => r matches Ok(None),
            Err(e) => r == Err::<Option<CosmosSettings>, ConfigError>(e),
        },
{
    if environment == AppEnvironment::Local {
        return if endpoint.is_none() && application_region.is_none() {
            Ok(None)
        } else {
            Err(ConfigError::CosmosSettingsInLocalEnvironment)
        };
    }
    let (endpoint, application_region) = match (endpoint, application_region) {
        (Some(endpoint), Some(application_region)) => (endpoint, application_region),
        _ => {
            return Err(ConfigError::MissingCosmosSettings);
        },
    };
    let parsed = match parse_url(endpoint.as_str()) {
        Some(p) => p,
        None => {
            return Err(ConfigError::InvalidCosmosEndpoint);
        },
    };
    if !(plain_https_root_exec(&parsed) && host_ends_with_exec(&parsed, ".documents.azure.com")) {
        return Err(ConfigError::InvalidCosmosEndpoint);
    }
    if !valid_region_exec(application_region.as_str()) {
        return Err(ConfigError::InvalidAzureRegion);
    }
    Ok(Some(CosmosSettings { endpoint, application_region }))
}

pub open spec fn spec_assistant_enabled(enabled: Option<Seq<char>>) -> Option<bool> {
    match enabled {
        None => Some(false),
        Some(t) => if t == "true"@ {
            Some(true)
        } else if t == "false"@ {
            Some(false)
        } else {
            None
        },
    }
}

/// Which assistant settings apply: none unless enabled (and then giving any is
/// an error); never locally; otherwise an allow-listed endpoint, a valid
/// deployment name, the pinned API version, and a concurrency of 1 to 8
/// (2 by default), all required but the concurrency.
pub open spec fn spec_assistant_settings(
    environment: AppEnvironment,
    enabled: Option<Seq<char>>,
    endpoint: Option<Seq<char>>,
    deployment: Option<(Seq<char>, Seq<u8>)>,
    api_version: Option<Seq<char>>,
    concurrency: Option<Seq<char>>,
) -> Result<Option<(Seq<char>, Seq<char>, Seq<char>, usize)>, ConfigError> {
    match spec_assistant_enabled(enabled) {
        None => Err(ConfigError::InvalidAssistantEnabled),
        Some(false) => if endpoint is Some || deployment is Some || api_version is Some || concurrency is Some {
            Err(ConfigError::AssistantSettingsWhileDisabled)
        } else {
            Ok(None)
        },
        Some(true) => if environment == AppEnvironment::Local {
            Err(ConfigError::AssistantInLocalEnvironment)
        } else {
            match (endpoint, deployment, api_version) {
                (Some(e), Some((d, d_bytes)), Some(v)) => match url_parse(e) {
                    None => Err(ConfigError::InvalidFoundryEndpoint),
                    Some(u) => if !spec_valid_foundry_endpoint(u) {
                        Err(ConfigError::InvalidFoundryEndpoint)
                    } else if !valid_deployment(d_bytes) {
                        Err(ConfigError::InvalidFoundryDeployment)
                    } else if v != FOUNDRY_API_VERSION@ {
                        Err(ConfigError::InvalidFoundryApiVersion)
                    } else {
                        let text = match concurrency {
                            Some(c) => c,
                            None => "2"@,
                        };
                        match usize_parse(text) {
                            Some(n) => if 1 <= n <= 8 {
                                Ok(Some((u.0, d, v, n)))
                            } else {
                                Err(ConfigError::InvalidAssistantConcurrency)
                            },
                            None => Err(ConfigError::InvalidAssistantConcurrency),
                        }
                    },
                },
                _ => Err(ConfigError::IncompleteAssistantSettings),
            }
        },
    }
}

pub open spec fn opt_str(value: Option<&str>) -> Option<Seq<char>> {
    match value {
        Some(s) => Some(s@),
        None => None,
    }
}

/// The assistant settings for the environment.
pub fn assistant_settings(
    environment: AppEnvironment,
    enabled: Option<&str>,
    endpoint: Option<String>,
    deployment: Option<String>,
    api_version: Option<String>,
    concurrency: Option<&str>,
) -> (r: Result<Option<AssistantSettings>, ConfigError>)
    ensures
        match spec_assistant_settings(
            environment,
            opt_str(enabled),
            opt_view(endpoint),
            text_and_bytes(deployment),
            opt_view(api_version),
            opt_str(concurrency),
        ) {
            Ok(Some((e, d, v, n))) => r matches Ok(Some(s)) && s.endpoint@ == e && s.deployment@ == d
                && s.api_version@ == v && s.concurrency == n,
            Ok(None) => r matches Ok(None),
            Err(e) => r == Err::<Option<AssistantSettings>, ConfigError>(e),
        },
{
    let enabled = match enabled {
        None => false,
        Some(t) => if text_equals(t, "true") {
            true
        } else if text_equals(t, "false") {
            false
        } else {
            return Err(ConfigError::InvalidAssistantEnabled);
        },
    };
    let has_setting = endpoint.is_some() || deployment.is_some() || api_version.is_some() || concurrency.is_some();
    if !enabled {
        return if has_setting {
            Err(ConfigError::AssistantSettingsWhileDisabled)
        } else {
            Ok(None)
        };
    }
    if environment == AppEnvironment::Local {
        return Err(ConfigError::AssistantInLocalEnvironment);
    }
    let (endpoint, deployment, api_version) = match (endpoint, deployment, api_version) {
        (Some(endpoint), Some(deployment), Some(api_version)) => (endpoint, deployment, api_version),
        _ => {
            return Err(ConfigError::IncompleteAssistantSettings);
        },
    };
    let parsed = match parse_url(endpoint.as_str()) {
        Some(p) => p,
        None => {
            return Err(ConfigError::InvalidFoundryEndpoint);
        },
    };
    if !valid_foundry_endpoint(&parsed) {
        return Err(ConfigError::InvalidFoundryEndpoint);
    }
    if !valid_deployment_exec(deployment.as_str()) {
        return Err(ConfigError::InvalidFoundryDeployment);
    }
    if !text_equals(api_version.as_str(), FOUNDRY_API_VERSION) {
        return Err(ConfigError::InvalidFoundryApiVersion);
    }
    let text = match concurrency {
        Some(c) => c,
        None => "2",
    };
    let concurrency = match parse_usize(text) {
        Some(n) => if 1 <= n && n <= 8 {
            n
        } else {
            return Err(ConfigError::InvalidAssistantConcurrency);
        },
        None => {
            return Err(ConfigError::InvalidAssistantConcurrency);
        },
    };
    Ok(Some(AssistantSettings { endpoint: parsed.serialized, deployment, api_version, concurrency }))
}

/// Accepts a provider refresh quota between 1 and the hourly maximum.
pub fn validate_provider_refresh_quota(value: u32) -> (r: Result<u32, ConfigError>)
    ensures
        1 <= value <= MAX_PROVIDER_REFRESHES_PER_HOUR ==> r == Ok::<u32, ConfigError>(value),
        !(1 <= value <= MAX_PROVIDER_REFRESHES_PER_HOUR) ==> r == Err::<u32, ConfigError>(ConfigError::InvalidQuota),
{
    if 1 <= value && value <= MAX_PROVIDER_REFRESHES_PER_HOUR {
        Ok(value)
    } else {
        Err(ConfigError::InvalidQuota)
    }
}

/// The default provider response limit, 64 MiB, as text.
pub const DEFAULT_PROVIDER_RESPONSE_LIMIT: &'static str = "67108864";

/// The provider response limit: the given size (64 MiB by default) when it is
/// between 1 MiB and 256 MiB.
pub fn provider_response_limit(value: Option<&str>) -> (r: Result<usize, ConfigError>)
    ensures
        ({
            let text = match value {
                Some(v) => v@,
                None => DEFAULT_PROVIDER_RESPONSE_LIMIT@,
            };
            match usize_parse(text) {
                Some(n) => if MIB <= n <= 256 * MIB {
                    r == Ok::<usize, ConfigError>(n)
                } else {
                    r == Err::<usize, ConfigError>(ConfigError::InvalidProviderResponseLimit)
                },
                None => r == Err::<usize, ConfigError>(ConfigError::InvalidProviderResponseLimit),
            }
        }),
{
    let text = match value {
        Some(v) => v,
        None => DEFAULT_PROVIDER_RESPONSE_LIMIT,
    };
    match parse_usize(text) {
        Some(n) => if MIB <= n && n <= 256 * MIB {
            Ok(n)
        } else {
            Err(ConfigError::InvalidProviderResponseLimit)
        },
        None => Err(ConfigError::InvalidProviderResponseLimit),
    }
}

/// A positive quota from its setting, or the default when the setting is absent.
pub fn positive_u32(value: Option<&str>, default: u32) -> (r: Result<u32, ConfigError>)
    ensures
        match value {
            None => r == Ok::<u32, ConfigError>(default),
            Some(text) => match u32_parse(text@) {
                Some(n) => if n > 0 {
                    r == Ok::<u32, ConfigError>(n)
                } else {
                    r == Err::<u32, ConfigError>(ConfigError::InvalidQuota)
                },
                None => r == Err::<u32, ConfigError>(ConfigError::InvalidQuota),
            },
        },
{
    match value {
        None => Ok(default),
        Some(text) => match parse_u32(text) {
            Some(n) => if n > 0 {
                Ok(n)
            } else {
                Err(ConfigError::InvalidQuota)
            },
            None => Err(ConfigError::InvalidQuota),
        },
    }
}

/// The assistant request quota: 1 to 60 per minute, 10 by default.
pub fn assistant_request_quota(value: Option<&str>) -> (r: Result<u32, ConfigError>)
    ensures
        ({
            let text = match value {
                Some(v) => v@,
                None => "10"@,
            };
            match u32_parse(text) {
                Some(n) => if 1 <= n <= 60 {
                    r == Ok::<u32, ConfigError>(n)
                } else {
                    r == Err::<u32, ConfigError>(ConfigError::InvalidAssistantRequestQuota)
                },
                None => r == Err::<u32, ConfigError>(ConfigError::InvalidAssistantRequestQuota),
            }
        }),
{
    let text = match value {
        Some(v) => v,
        None => "10",
    };
    match parse_u32(text) {
        Some(n) => if 1 <= n && n <= 60 {
            Ok(n)
        } else {
            Err(ConfigError::InvalidAssistantRequestQuota)
        },
        None => Err(ConfigError::InvalidAssistantRequestQuota),
    }
}

/// The environment named by its setting: local by default.
pub fn app_environment(value: Option<&str>) -> (r: Result<AppEnvironment, ConfigError>)
    ensures
        ({
            let text = match value {
                Some(v) => v@,
                None => "local"@,
            };
            if text == "local"@ {
                r == Ok::<AppEnvironment, ConfigError>(AppEnvironment::Local)
            } else if text == "development"@ {
                r == Ok::<AppEnvironment, ConfigError>(AppEnvironment::Development)
            } else if text == "production"@ {
                r == Ok::<AppEnvironment, ConfigError>(AppEnvironment::Production)
            } else {
                r == Err::<AppEnvironment, ConfigError>(ConfigError::InvalidEnvironment)
            }
        }),
{
    let text = match value {
        Some(v) => v,
        None => "local",
    };
    if text_equals(text, "local") {
        Ok(AppEnvironment::Local)
    } else if text_equals(text, "development") {
        Ok(AppEnvironment::Development)
    } else if text_equals(text, "production") {
        Ok(AppEnvironment::Production)
    } else {
        Err(ConfigError::InvalidEnvironment)
    }
}

/// 1 to 200 characters, none of them a control character.
pub open spec fn valid_display_name(name: Seq<char>) -> bool {
    1 <= name.len() <= 200 && forall|i: int| 0 <= i < name.len() ==> !unicode_control(#[trigger] name[i])
}

fn valid_display_name_exec(name: &str) -> (r: bool)
    ensures
        r == valid_display_name(name@),
{
    let n = name.unicode_len();
    if n < 1 || n > 200 {
        return false;
    }
    let mut i: usize = 0;
    while i < n
        invariant
            n == name@.len(),
            i <= n,
            forall|k: int| 0 <= k < i ==> !unicode_control(#[trigger] name@[k]),
        decreases n - i,
    {
        if char_is_control(name.get_char(i)) {
            return false;
        }
        i = i + 1;
    }
    true
}

/// Local mock identity: only with the local environment, all three settings
/// together, a valid display name, and UUID ids.
pub open spec fn spec_local_auth(
    environment: AppEnvironment,
    tenant_id: Option<Seq<char>>,
    object_id: Option<Seq<char>>,
    display_name: Option<Seq<char>>,
) -> Result<Option<(u128, u128, Seq<char>)>, ConfigError> {
    let any = tenant_id is Some || object_id is Some || display_name is Some;
    if environment != AppEnvironment::Local && any {
        Err(ConfigError::LocalAuthOutsideLocalEnvironment)
    } else {
        match (tenant_id, object_id, display_name) {
            (None, None, None) => Ok(None),
            (Some(t), Some(o), Some(n)) => if !valid_display_name(n) {
                Err(ConfigError::InvalidLocalAuthDisplayName)
            } else {
                match (uuid_parse(t), uuid_parse(o)) {
                    (Some(tv), Some(ov)) => Ok(Some((tv, ov, n))),
                    _ => Err(ConfigError::InvalidLocalAuthId),
                }
            },
            _ => Err(ConfigError::IncompleteLocalAuth),
        }
    }
}

/// The local mock identity settings for the environment.
pub fn local_auth_settings(
    environment: AppEnvironment,
    tenant_id: Option<String>,
    object_id: Option<String>,
    display_name: Option<String>,
) -> (r: Result<Option<LocalAuthSettings>, ConfigError>)
    ensures
        match spec_local_auth(environment, opt_view(tenant_id), opt_view(object_id), opt_view(display_name)) {
            Ok(Some((t, o, n))) => r matches Ok(Some(s)) && s.tenant_id == t && s.object_id == o
                && s.display_name@ == n,
            Ok(None) => r matches Ok(None),
            Err(e) => r == Err::<Option<LocalAuthSettings>, ConfigError>(e),
        },
{
    let any = tenant_id.is_some() || object_id.is_some() || display_name.is_some();
    if environment != AppEnvironment::Local && any {
        return Err(ConfigError::LocalAuthOutsideLocalEnvironment);
    }
    match (tenant_id, object_id, display_name) {
        (None, None, None) => Ok(None),
        (Some(tenant_id), Some(object_id), Some(display_name)) => {
            if !valid_display_name_exec(display_name.as_str()) {
                return Err(ConfigError::InvalidLocalAuthDisplayName);
            }
            let tenant = match crate::ids::parse_uuid(tenant_id.as_str()) {
                Some(v) => v,
                None => {
                    return Err(ConfigError::InvalidLocalAuthId);
                },
            };
            let object = match crate::ids::parse_uuid(object_id.as_str()) {
                Some(v) => v,
                None => {
                    return Err(ConfigError::InvalidLocalAuthId);
                },
            };
            Ok(Some(LocalAuthSettings { tenant_id: tenant, object_id: object, display_name }))
        },
        _ => Err(ConfigError::IncompleteLocalAuth),
    }
}

} // verus!
