//! Client configuration.
//!
//! The configuration is handed to the client at construction time and is
//! validated once; durations are carried in milliseconds.

use vstd::prelude::*;
use vstd::string::StrSliceExecFns;
use vstd::string::StringExecFns;
use crate::error::LLMRouterError;

verus! {

/// Whether the string parses as an absolute URL. The outcome is a function
/// of the string alone; the trusted item below gives it this name.
pub uninterp spec fn sp_url_ok(s: Seq<char>) -> bool;

/// Relies on url::Url::parse: whether the string parses as an absolute URL.
#[verifier::external_body]
fn url_is_valid(s: &str) -> (r: bool)
    ensures
        r == sp_url_ok(s@),
{
    url::Url::parse(s).is_ok()
}

/// Whether `s` begins with `prefix`.
pub open spec fn sp_starts_with(s: Seq<char>, prefix: Seq<char>) -> bool {
    prefix.len() <= s.len() && s.subrange(0, prefix.len() as int) == prefix
}

/// Whether `s` contains the scheme separator `://` anywhere.
pub open spec fn sp_has_scheme(s: Seq<char>) -> bool {
    exists|i: int|
        0 <= i && i + 3 <= s.len() && #[trigger] s[i] == ':' && s[i + 1] == '/' && s[i + 2] == '/'
}

/// Whether `s` begins with `prefix`, by characters.
fn str_starts_with(s: &str, prefix: &str) -> (r: bool)
    ensures
        r == sp_starts_with(s@, prefix@),
{
    let pl = prefix.unicode_len();
    let sl = s.unicode_len();
    if pl > sl {
        return false;
    }
    let mut i: usize = 0;
    while i < pl
        invariant
            i <= pl,
            pl == prefix@.len(),
            pl <= s@.len(),
            forall|j: int| 0 <= j < i ==> s@[j] == prefix@[j],
        decreases pl - i,
    {
        if s.get_char(i) != prefix.get_char(i) {
            proof {
                assert(s@.subrange(0, pl as int)[i as int] == s@[i as int]);
            }
            return false;
        }
        i = i + 1;
    }
    proof {
        assert(s@.subrange(0, pl as int) =~= prefix@);
    }
    true
}

/// Whether `s` contains the scheme separator `://`.
fn str_has_scheme(s: &str) -> (r: bool)
    ensures
        r == sp_has_scheme(s@),
{
    let n = s.unicode_len();
    if n < 3 {
        return false;
    }
    let mut i: usize = 0;
    while i <= n - 3
        invariant
            n >= 3,
            n == s@.len(),
            i <= n,
            forall|j: int|
                0 <= j < i ==> !(#[trigger] s@[j] == ':' && s@[j + 1] == '/' && s@[j + 2]
                    == '/'),
        decreases n - i,
    {
        if s.get_char(i) == ':' && s.get_char(i + 1) == '/' && s.get_char(i + 2) == '/' {
            return true;
        }
        i = i + 1;
    }
    false
}

/// Connection pool settings.
#[derive(Debug, Clone, Copy, PartialEq, Eq, Structural)]
pub struct ConnectionPoolConfig {
    /// Maximum number of idle connections kept.
    pub max_idle_connections: usize,
    /// Maximum number of connections per host.
    pub max_connections_per_host: usize,
    /// Idle timeout in milliseconds.
    pub idle_timeout_ms: u64,
    /// Connect timeout in milliseconds.
    pub connect_timeout_ms: u64,
}

impl Default for ConnectionPoolConfig {
    /// Defaults: ten idle, twenty per host, ninety second idle timeout, ten
    /// second connect timeout.
    fn default() -> (r: Self)
        ensures
            r == (ConnectionPoolConfig {
                max_idle_connections: 10usize,
                max_connections_per_host: 20usize,
                idle_timeout_ms: 90000u64,
                connect_timeout_ms: 10000u64,
            }),
    {
        ConnectionPoolConfig {
            max_idle_connections: 10,
            max_connections_per_host: 20,
            idle_timeout_ms: 90000,
            connect_timeout_ms: 10000,
        }
    }
}

/// Client-side rate limiting settings.
#[derive(Debug, Clone, Copy, PartialEq, Eq, Structural)]
pub struct RateLimitConfig {
    /// Maximum requests per minute.
    pub requests_per_minute: u32,
    /// Burst capacity.
    pub burst_capacity: u32,
    /// Whether rate limiting is enabled.
    pub enabled: bool,
}

impl Default for RateLimitConfig {
    /// Defaults: a hundred requests per minute, burst of ten, enabled.
    fn default() -> (r: Self)
        ensures
            r == (RateLimitConfig {
                requests_per_minute: 100u32,
                burst_capacity: 10u32,
                enabled: true,
            }),
    {
        RateLimitConfig { requests_per_minute: 100, burst_capacity: 10, enabled: true }
    }
}

/// TLS settings.
#[derive(Debug, Clone)]
pub struct TlsConfig {
    /// Verify server certificates.
    pub verify_ssl: bool,
    /// Custom CA certificate path.
    pub ca_cert_path: Option<String>,
    /// Client certificate path.
    pub client_cert_path: Option<String>,
    /// Client private key path.
    pub client_key_path: Option<String>,
}

impl Default for TlsConfig {
    /// Defaults: verify certificates, no custom certificate material.
    fn default() -> (r: Self)
        ensures
            r.verify_ssl,
            r.ca_cert_path is None,
            r.client_cert_path is None,
            r.client_key_path is None,
    {
        TlsConfig {
            verify_ssl: true,
            ca_cert_path: None,
            client_cert_path: None,
            client_key_path: None,
        }
    }
}

/// Configuration of the router client.
#[derive(Debug, Clone)]
pub struct RouterConfig {
    /// Base URL of the HTTP REST API.
    pub base_url: String,
    /// gRPC server URL.
    pub grpc_url: Option<String>,
    /// WebSocket URL; derived from the base URL when absent.
    pub websocket_url: Option<String>,
    /// Request timeout in milliseconds.
    pub timeout_ms: u64,
    /// Maximum number of retries.
    pub max_retries: u32,
    /// Base retry delay in milliseconds.
    pub retry_delay_ms: u64,
    /// API key for authentication.
    pub api_key: Option<String>,
    /// User agent string.
    pub user_agent: String,
    /// Connection pool settings.
    pub connection_pool: ConnectionPoolConfig,
    /// Rate limiting settings.
    pub rate_limit: RateLimitConfig,
    /// TLS settings.
    pub tls: TlsConfig,
}

impl Default for RouterConfig {
    /// Defaults: a local backend, thirty second timeout, three retries with
    /// a one second base delay.
    fn default() -> (r: Self)
        ensures
            r.base_url@ == "http://localhost:3000"@,
            r.grpc_url matches Some(g) && g@ == "http://localhost:50051"@,
            r.websocket_url is None,
            r.timeout_ms == 30000,
            r.max_retries == 3,
            r.retry_delay_ms == 1000,
            r.api_key is None,
            r.user_agent@ == "llm-runner-router-rust"@,
            r.connection_pool == (ConnectionPoolConfig {
                max_idle_connections: 10usize,
                max_connections_per_host: 20usize,
                idle_timeout_ms: 90000u64,
                connect_timeout_ms: 10000u64,
            }),
            r.rate_limit == (RateLimitConfig {
                requests_per_minute: 100u32,
                burst_capacity: 10u32,
                enabled: true,
            }),
            r.tls.verify_ssl,
            r.tls.ca_cert_path is None,
            r.tls.client_cert_path is None,
            r.tls.client_key_path is None,
    {
        RouterConfig {
            base_url: String::from_str("http://localhost:3000"),
            grpc_url: Some(String::from_str("http://localhost:50051")),
            websocket_url: None,
            timeout_ms: 30000,
            max_retries: 3,
            retry_delay_ms: 1000,
            api_key: None,
            user_agent: String::from_str("llm-runner-router-rust"),
            connection_pool: ConnectionPoolConfig::default(),
            rate_limit: RateLimitConfig::default(),
            tls: TlsConfig::default(),
        }
    }
}

/// Whether a configuration passes validation: the base URL parses, a gRPC
/// URL with a scheme parses, a WebSocket URL parses, the timeout spans at
/// least one full second, and the pool allows at least one connection per
/// host.
pub open spec fn sp_config_valid(c: RouterConfig) -> bool {
    &&& sp_url_ok(c.base_url@)
    &&& match c.grpc_url {
        Some(g) => !sp_has_scheme(g@) || sp_url_ok(g@),
        None => true,
    }
    &&& match c.websocket_url {
        Some(w) => sp_url_ok(w@),
        None => true,
    }
    &&& c.timeout_ms >= 1000
    &&& c.connection_pool.max_connections_per_host > 0
}

impl RouterConfig {
    /// Create a configuration with the given base URL and all other fields
    /// at their defaults.
    pub fn new(base_url: &str) -> (r: Self)
        ensures
            r.base_url@ == base_url@,
            r.grpc_url matches Some(g) && g@ == "http://localhost:50051"@,
            r.websocket_url is None,
            r.timeout_ms == 30000,
            r.max_retries == 3,
            r.retry_delay_ms == 1000,
            r.api_key is None,
            r.user_agent@ == "llm-runner-router-rust"@,
            r.connection_pool == (ConnectionPoolConfig {
                max_idle_connections: 10usize,
                max_connections_per_host: 20usize,
                idle_timeout_ms: 90000u64,
                connect_timeout_ms: 10000u64,
            }),
            r.rate_limit == (RateLimitConfig {
                requests_per_minute: 100u32,
                burst_capacity: 10u32,
                enabled: true,
            }),
            r.tls.verify_ssl,
    {
        let mut c = Self::default();
        c.base_url = String::from_str(base_url);
        c
    }

    /// Set the base URL.
    pub fn base_url(self, base_url: &str) -> (r: Self)
        ensures
            r.base_url@ == base_url@,
            r.grpc_url == self.grpc_url,
            r.websocket_url == self.websocket_url,
            r.timeout_ms == self.timeout_ms,
            r.max_retries == self.max_retries,
            r.retry_delay_ms == self.retry_delay_ms,
            r.api_key == self.api_key,
            r.user_agent == self.user_agent,
            r.connection_pool == self.connection_pool,
            r.rate_limit == self.rate_limit,
            r.tls == self.tls,
    {
        RouterConfig { base_url: String::from_str(base_url), ..self }
    }

    /// Set the gRPC URL.
    pub fn grpc_url(self, grpc_url: &str) -> (r: Self)
        ensures
            r.grpc_url matches Some(g) && g@ == grpc_url@,
            r.base_url == self.base_url,
            r.websocket_url == self.websocket_url,
            r.timeout_ms == self.timeout_ms,
            r.max_retries == self.max_retries,
            r.retry_delay_ms == self.retry_delay_ms,
            r.api_key == self.api_key,
            r.user_agent == self.user_agent,
            r.connection_pool == self.connection_pool,
            r.rate_limit == self.rate_limit,
            r.tls == self.tls,
    {
        RouterConfig { grpc_url: Some(String::from_str(grpc_url)), ..self }
    }

    /// Set the WebSocket URL.
    pub fn websocket_url(self, websocket_url: &str) -> (r: Self)
        ensures
            r.websocket_url matches Some(w) && w@ == websocket_url@,
            r.base_url == self.base_url,
            r.grpc_url == self.grpc_url,
            r.timeout_ms == self.timeout_ms,
            r.max_retries == self.max_retries,
            r.retry_delay_ms == self.retry_delay_ms,
            r.api_key == self.api_key,
            r.user_agent == self.user_agent,
            r.connection_pool == self.connection_pool,
            r.rate_limit == self.rate_limit,
            r.tls == self.tls,
    {
        RouterConfig { websocket_url: Some(String::from_str(websocket_url)), ..self }
    }

    /// Set the request timeout in milliseconds.
    pub fn timeout(self, timeout_ms: u64) -> (r: Self)
        ensures
            r == (RouterConfig { timeout_ms, ..self }),
    {
        RouterConfig { timeout_ms, ..self }
    }

    /// Set the maximum number of retries.
    pub fn max_retries(self, max_retries: u32) -> (r: Self)
        ensures
            r == (RouterConfig { max_retries, ..self }),
    {
        RouterConfig { max_retries, ..self }
    }

    /// Set the base retry delay in milliseconds.
    pub fn retry_delay(self, retry_delay_ms: u64) -> (r: Self)
        ensures
            r == (RouterConfig { retry_delay_ms, ..self }),
    {
        RouterConfig { retry_delay_ms, ..self }
    }

    /// Set the API key.
    pub fn api_key(self, api_key: &str) -> (r: Self)
        ensures
            r.api_key matches Some(k) && k@ == api_key@,
            r.base_url == self.base_url,
            r.grpc_url == self.grpc_url,
            r.websocket_url == self.websocket_url,
            r.timeout_ms == self.timeout_ms,
            r.max_retries == self.max_retries,
            r.retry_delay_ms == self.retry_delay_ms,
            r.user_agent == self.user_agent,
            r.connection_pool == self.connection_pool,
            r.rate_limit == self.rate_limit,
            r.tls == self.tls,
    {
        RouterConfig { api_key: Some(String::from_str(api_key)), ..self }
    }

    /// Set the user agent.
    pub fn user_agent(self, user_agent: &str) -> (r: Self)
        ensures
            r.user_agent@ == user_agent@,
            r.base_url == self.base_url,
            r.grpc_url == self.grpc_url,
            r.websocket_url == self.websocket_url,
            r.timeout_ms == self.timeout_ms,
            r.max_retries == self.max_retries,
            r.retry_delay_ms == self.retry_delay_ms,
            r.api_key == self.api_key,
            r.connection_pool == self.connection_pool,
            r.rate_limit == self.rate_limit,
            r.tls == self.tls,
    {
        RouterConfig { user_agent: String::from_str(user_agent), ..self }
    }

    /// Set the connection pool settings.
    pub fn connection_pool(self, config: ConnectionPoolConfig) -> (r: Self)
        ensures
            r == (RouterConfig { connection_pool: config, ..self }),
    {
        RouterConfig { connection_pool: config, ..self }
    }

    /// Set the rate limiting settings.
    pub fn rate_limit(self, config: RateLimitConfig) -> (r: Self)
        ensures
            r == (RouterConfig { rate_limit: config, ..self }),
    {
        RouterConfig { rate_limit: config, ..self }
    }

    /// Set the TLS settings.
    pub fn tls(self, config: TlsConfig) -> (r: Self)
        ensures
            r == (RouterConfig { tls: config, ..self }),
    {
        RouterConfig { tls: config, ..self }
    }

    /// Validate the configuration: `Ok` exactly when [`sp_config_valid`]
    /// holds, and otherwise a configuration error naming the first check
    /// that failed.
    pub fn validate(&self) -> (r: Result<(), LLMRouterError>)
        ensures
            r is Ok <==> sp_config_valid(*self),
            r matches Err(e) ==> e matches LLMRouterError::Configuration { message: _ },
            !sp_url_ok(self.base_url@) ==> (r matches Err(e) && e matches
                LLMRouterError::Configuration { message: m } && m@ == "Invalid base URL"@),
    {
        if !url_is_valid(self.base_url.as_str()) {
            return Err(LLMRouterError::configuration("Invalid base URL"));
        }
        match &self.grpc_url {
            Some(g) => {
                if str_has_scheme(g.as_str()) {
                    if !url_is_valid(g.as_str()) {
                        return Err(LLMRouterError::configuration("Invalid gRPC URL"));
                    }
                }
            },
            None => {},
        }
        match &self.websocket_url {
            Some(w) => {
                if !url_is_valid(w.as_str()) {
                    return Err(LLMRouterError::configuration("Invalid WebSocket URL"));
                }
            },
            None => {},
        }
        if self.timeout_ms < 1000 {
            return Err(LLMRouterError::configuration("Timeout must be greater than 0"));
        }
        if self.connection_pool.max_connections_per_host == 0 {
            return Err(
                LLMRouterError::configuration("Max connections per host must be greater than 0"),
            );
        }
        Ok(())
    }

    /// The WebSocket URL to use: the configured one, or the base URL with
    /// its scheme turned into the WebSocket scheme and `/ws` appended.
    pub fn get_websocket_url(&self) -> (r: String)
        ensures
            r@ == sp_websocket_url(*self),
    {
        match &self.websocket_url {
            Some(w) => w.clone(),
            None => {
                proof {
                    reveal_strlit("http://");
                    reveal_strlit("https://");
                }
                let b = self.base_url.as_str();
                if str_starts_with(b, "http://") {
                    let rest = b.substring_char(7, b.unicode_len());
                    let mut out = String::from_str("ws://");
                    out.append(rest);
                    out.append("/ws");
                    proof {
                        assert(out@ =~= "ws://"@ + self.base_url@.skip(7) + "/ws"@);
                    }
                    out
                } else if str_starts_with(b, "https://") {
                    let rest = b.substring_char(8, b.unicode_len());
                    let mut out = String::from_str("wss://");
                    out.append(rest);
                    out.append("/ws");
                    proof {
                        assert(out@ =~= "wss://"@ + self.base_url@.skip(8) + "/ws"@);
                    }
                    out
                } else {
                    let mut out = self.base_url.clone();
                    out.append("/ws");
                    out
                }
            },
        }
    }

    /// The configured gRPC URL, if any.
    pub fn get_grpc_url(&self) -> (r: Option<&str>)
        ensures
            match (r, self.grpc_url) {
                (Some(s), Some(g)) => s@ == g@,
                (None, None) => true,
                _ => false,
            },
    {
        match &self.grpc_url {
            Some(g) => Some(g.as_str()),
            None => None,
        }
    }

    /// Whether the base URL uses TLS.
    pub fn is_tls_enabled(&self) -> (r: bool)
        ensures
            r == sp_starts_with(self.base_url@, "https://"@),
    {
        str_starts_with(self.base_url.as_str(), "https://")
    }

    /// The authentication headers to send: a bearer token when an API key
    /// is configured, and always the user agent.
    pub fn get_auth_headers(&self) -> (r: Vec<(String, String)>)
        ensures
            match self.api_key {
                Some(k) => r@.len() == 2 && r@[0].0@ == "Authorization"@ && r@[0].1@
                    == "Bearer "@ + k@ && r@[1].0@ == "User-Agent"@ && r@[1].1@
                    == self.user_agent@,
                None => r@.len() == 1 && r@[0].0@ == "User-Agent"@ && r@[0].1@
                    == self.user_agent@,
            },
    {
        let mut headers: Vec<(String, String)> = Vec::new();
        match &self.api_key {
            Some(k) => {
                let mut v = String::from_str("Bearer ");
                v.append(k.as_str());
                headers.push((String::from_str("Authorization"), v));
            },
            None => {},
        }
        headers.push((String::from_str("User-Agent"), self.user_agent.clone()));
        headers
    }
}

/// The WebSocket URL a configuration denotes.
pub open spec fn sp_websocket_url(c: RouterConfig) -> Seq<char> {
    match c.websocket_url {
        Some(w) => w@,
        None => {
            if sp_starts_with(c.base_url@, "http://"@) {
                "ws://"@ + c.base_url@.skip(7) + "/ws"@
            } else if sp_starts_with(c.base_url@, "https://"@) {
                "wss://"@ + c.base_url@.skip(8) + "/ws"@
            } else {
                c.base_url@ + "/ws"@
            }
        },
    }
}

} // verus!
