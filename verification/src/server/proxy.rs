//! The configuration of the proxy that load-balances client requests over
//! the cluster nodes.

use crate::error::{Error, ErrorView};
use crate::text::{join_strs, join_with, strs_view};
use vstd::prelude::*;

verus! {

/// A request rate limit: requests per second and the burst allowed.
#[derive(Debug, Clone, Copy, PartialEq, Eq, Structural)]
pub struct RateLimitConfig {
    pub rps: u32,
    pub burst: u32,
}

/// The key and certificate of the API's TLS listener.
#[derive(Debug, Clone)]
pub struct ProxyTlsCerts {
    pub key: String,
    pub cert: String,
    pub danger_tls_no_verify: bool,
}

/// How the proxy's API listener gets its TLS certificate.
#[derive(Debug, Clone)]
pub enum ProxyTlsConfig {
    /// The given key and certificate.
    Specific(ProxyTlsCerts),
    /// Certificates the proxy creates itself.
    TlsAutoCertificates,
}

/// The proxy configuration.
#[derive(Debug)]
pub struct Config {
    pub listen_addr: String,
    pub listen_port: u16,
    /// The API addresses of the cluster nodes.
    pub nodes: Vec<String>,
    pub tls_config: Option<ProxyTlsConfig>,
    pub secret_api: String,
    pub max_stream_connections: usize,
    pub rate_limit_cache: Option<RateLimitConfig>,
    pub rate_limit_db: Option<RateLimitConfig>,
}

/// The values read from the proxy's TOML table (and their environment
/// overrides), before defaults are applied. A burst is only read when its
/// rate is set. `unknown_keys` are the keys left over after reading.
#[derive(Debug)]
pub struct ProxyConfigValues {
    /// The API addresses of the configured nodes.
    pub nodes: Option<Vec<String>>,
    pub listen_addr: Option<String>,
    pub listen_port: Option<u16>,
    pub max_stream_connections: Option<u32>,
    pub rate_limit_cache_rps: Option<u32>,
    pub rate_limit_cache_burst: Option<u32>,
    pub rate_limit_db_rps: Option<u32>,
    pub rate_limit_db_burst: Option<u32>,
    pub tls_auto_certificates: Option<bool>,
    pub tls_api_key: Option<String>,
    pub tls_api_cert: Option<String>,
    pub tls_api_danger_tls_no_verify: Option<bool>,
    pub secret_api: Option<String>,
    pub unknown_keys: Vec<String>,
}

/// The problem `Config::is_valid` reports first, if any.
pub open spec fn proxy_config_problem(c: &Config) -> Option<Seq<char>> {
    if c.nodes@.len() == 0 {
        Some("'nodes' must not be empty"@)
    } else if c.secret_api@.len() < 16 {
        Some("'secret_api' should be at least 16 characters long"@)
    } else if c.max_stream_connections == 0 {
        Some("'max_stream_connections' must be greater than zero"@)
    } else {
        None
    }
}

/// The rate limit configured by an optional rate and burst; the burst
/// defaults to the rate.
pub open spec fn rate_limit_of(rps: Option<u32>, burst: Option<u32>) -> Option<RateLimitConfig> {
    match rps {
        None => None,
        Some(r) => Some(
            RateLimitConfig {
                rps: r,
                burst: match burst {
                    Some(b) => b,
                    None => r,
                },
            },
        ),
    }
}

/// The text of an optional value, or `default`.
pub open spec fn text_or(o: Option<String>, default: Seq<char>) -> Seq<char> {
    match o {
        Some(s) => s@,
        None => default,
    }
}

/// The views of a list of keys.
pub open spec fn keys_view(keys: Seq<String>) -> Seq<Seq<char>> {
    keys.map_values(|k: String| k@)
}

/// The error `Config::from_values` reports, if any: an API key without a
/// certificate (or the reverse), then a missing API secret, then keys the
/// proxy does not know.
pub open spec fn proxy_values_problem(v: &ProxyConfigValues, t_name: Seq<char>) -> Option<ErrorView> {
    if v.tls_api_key.is_some() != v.tls_api_cert.is_some() {
        Some(ErrorView::Config("Incomplete API TLS config given"@))
    } else if v.secret_api is None {
        Some(ErrorView::Config(t_name + ".secret_api is a mandatory value"@))
    } else if v.unknown_keys@.len() > 0 {
        Some(
            ErrorView::Config(
                "Unknown config key(s) in ["@ + t_name + "]: "@ + join_with(
                    keys_view(v.unknown_keys@),
                    ", "@,
                ),
            ),
        )
    } else {
        None
    }
}

/// Whether the assembled TLS setting is the one the values ask for: the
/// given key and certificate, else self-made certificates when asked, else
/// none.
pub open spec fn tls_config_matches(tls: Option<ProxyTlsConfig>, v: &ProxyConfigValues) -> bool {
    match (v.tls_api_key, v.tls_api_cert) {
        (Some(key), Some(cert)) => tls matches Some(ProxyTlsConfig::Specific(c)) && c.key@ == key@
            && c.cert@ == cert@ && c.danger_tls_no_verify == (match v.tls_api_danger_tls_no_verify {
            Some(b) => b,
            None => false,
        }),
        _ => if (match v.tls_auto_certificates {
            Some(b) => b,
            None => false,
        }) {
            tls matches Some(ProxyTlsConfig::TlsAutoCertificates)
        } else {
            tls is None
        },
    }
}

impl Config {
    /// `Ok` when at least one node is configured, the API secret has at
    /// least 16 characters and at least one stream connection is allowed;
    /// else the first problem as a config error.
    pub fn is_valid(&self) -> (r: Result<(), Error>)
        ensures
            r is Ok <==> proxy_config_problem(self) is None,
            r matches Err(e) ==> proxy_config_problem(self) matches Some(m) && e@ == ErrorView::Config(m),
    {
        if self.nodes.len() == 0 {
            return Err(Error::Config(String::from_str("'nodes' must not be empty")));
        }
        if self.secret_api.as_str().unicode_len() < 16 {
            return Err(
                Error::Config(String::from_str("'secret_api' should be at least 16 characters long")),
            );
        }
        if self.max_stream_connections == 0 {
            return Err(
                Error::Config(String::from_str("'max_stream_connections' must be greater than zero")),
            );
        }
        Ok(())
    }

    /// Assembles the proxy configuration from the values read from the
    /// table `t_name`, applying the defaults: listen on `0.0.0.0:8200`,
    /// allow 20 stream connections, no nodes, no TLS and no rate limits.
    pub fn from_values(v: ProxyConfigValues, t_name: &str) -> (r: Result<Config, Error>)
        ensures
            r is Err <==> proxy_values_problem(&v, t_name@) is Some,
            r matches Err(e) ==> proxy_values_problem(&v, t_name@) == Some(e@),
            r matches Ok(c) ==> {
                &&& c.listen_addr@ == text_or(v.listen_addr, "0.0.0.0"@)
                &&& c.listen_port == (match v.listen_port {
                    Some(p) => p,
                    None => 8200u16,
                })
                &&& c.nodes@ == (match v.nodes {
                    Some(n) => n@,
                    None => Seq::<String>::empty(),
                })
                &&& tls_config_matches(c.tls_config, &v)
                &&& v.secret_api matches Some(s) && c.secret_api@ == s@
                &&& c.max_stream_connections == (match v.max_stream_connections {
                    Some(m) => m,
                    None => 20u32,
                })
                &&& c.rate_limit_cache == rate_limit_of(v.rate_limit_cache_rps, v.rate_limit_cache_burst)
                &&& c.rate_limit_db == rate_limit_of(v.rate_limit_db_rps, v.rate_limit_db_burst)
            },
    {
        let ghost v0 = v;
        let ProxyConfigValues {
            nodes,
            listen_addr,
            listen_port,
            max_stream_connections,
            rate_limit_cache_rps,
            rate_limit_cache_burst,
            rate_limit_db_rps,
            rate_limit_db_burst,
            tls_auto_certificates,
            tls_api_key,
            tls_api_cert,
            tls_api_danger_tls_no_verify,
            secret_api,
            unknown_keys,
        } = v;
        let nodes = match nodes {
            Some(n) => n,
            None => Vec::new(),
        };
        let listen_addr = match listen_addr {
            Some(a) => a,
            None => String::from_str("0.0.0.0"),
        };
        let listen_port: u16 = match listen_port {
            Some(p) => p,
            None => 8200,
        };
        let max_stream_connections: usize = match max_stream_connections {
            Some(m) => m as usize,
            None => 20,
        };
        let rate_limit_cache = match rate_limit_cache_rps {
            Some(rps) => Some(
                RateLimitConfig {
                    rps,
                    burst: match rate_limit_cache_burst {
                        Some(b) => b,
                        None => rps,
                    },
                },
            ),
            None => None,
        };
        let rate_limit_db = match rate_limit_db_rps {
            Some(rps) => Some(
                RateLimitConfig {
                    rps,
                    burst: match rate_limit_db_burst {
                        Some(b) => b,
                        None => rps,
                    },
                },
            ),
            None => None,
        };
        let auto = match tls_auto_certificates {
            Some(b) => b,
            None => false,
        };
        let skip_verification = match tls_api_danger_tls_no_verify {
            Some(b) => b,
            None => false,
        };
        if tls_api_key.is_some() != tls_api_cert.is_some() {
            return Err(Error::Config(String::from_str("Incomplete API TLS config given")));
        }
        let tls_config = match (tls_api_key, tls_api_cert) {
            (Some(key), Some(cert)) => Some(
                ProxyTlsConfig::Specific(ProxyTlsCerts { key, cert, danger_tls_no_verify: skip_verification }),
            ),
            _ => if auto {
                Some(ProxyTlsConfig::TlsAutoCertificates)
            } else {
                None
            },
        };
        let secret_api = match secret_api {
            Some(s) => s,
            None => {
                let mut m = String::from_str(t_name);
                m.append(".secret_api is a mandatory value");
                return Err(Error::Config(m));
            },
        };
        if unknown_keys.len() > 0 {
            let mut names: Vec<&str> = Vec::new();
            let mut i: usize = 0;
            while i < unknown_keys.len()
                invariant
                    i <= unknown_keys@.len(),
                    names@.len() == i,
                    forall|j: int| 0 <= j < i ==> (#[trigger] names@[j])@ == unknown_keys@[j]@,
                decreases unknown_keys@.len() - i,
            {
                names.push(unknown_keys[i].as_str());
                i = i + 1;
            }
            assert(strs_view(names@) =~= keys_view(unknown_keys@));
            let listed = join_strs(&names, ", ");
            let mut m = String::from_str("Unknown config key(s) in [");
            m.append(t_name);
            m.append("]: ");
            m.append(listed.as_str());
            return Err(Error::Config(m));
        }
        Ok(
            Config {
                listen_addr,
                listen_port,
                nodes,
                tls_config,
                secret_api,
                max_stream_connections,
                rate_limit_cache,
                rate_limit_db,
            },
        )
    }
}

/// A configuration assembled from values that name at least one node, an
/// API secret of at least 16 characters and a stream limit other than zero
/// passes the validity check.
pub proof fn law_assembled_config_is_valid(v: ProxyConfigValues, c: Config)
    requires
        v.nodes matches Some(n) && n@.len() > 0,
        v.secret_api matches Some(s) && s@.len() >= 16,
        v.max_stream_connections != Some(0u32),
        c.nodes@ == v.nodes->0@,
        c.secret_api@ == v.secret_api->0@,
        c.max_stream_connections == (match v.max_stream_connections {
            Some(m) => m,
            None => 20u32,
        }),
    ensures
        proxy_config_problem(&c) is None,
{
}

} // verus!
