use hiqlite::error::Error;
use hiqlite::server::args::LogLevel;
use hiqlite::server::config::{
    default_config_dir, default_config_file_path, default_proxy_config_file_path,
    resolve_config_path,
};
use hiqlite::server::proxy::{Config, ProxyConfigValues, ProxyTlsConfig, RateLimitConfig};
use hiqlite::start::build_listen_addr;

#[test]
fn log_level_names() {
    assert_eq!(LogLevel::Info.as_str(), "info");
    assert_eq!(LogLevel::Warn.as_str(), "warn");
    assert_eq!(LogLevel::Error.as_str(), "error");
}

#[test]
fn config_paths_below_home() {
    assert_eq!(default_config_dir("/home/u"), "/home/u/.hiqlite");
    assert_eq!(default_config_file_path("/home/u"), "/home/u/.hiqlite/hiqlite.toml");
    assert_eq!(
        default_proxy_config_file_path("/home/u"),
        "/home/u/.hiqlite/hiqlite-proxy.toml"
    );
    assert_eq!(
        resolve_config_path("$HOME/.hiqlite/hiqlite.toml", "/root"),
        "/root/.hiqlite/hiqlite.toml"
    );
    assert_eq!(resolve_config_path("/etc/hql.toml", "/root"), "/etc/hql.toml");
}

#[test]
fn listen_address_takes_the_node_port() {
    assert_eq!(build_listen_addr("0.0.0.0", "node1:8100", false), "0.0.0.0:8100");
    assert_eq!(build_listen_addr("0.0.0.0", "node1", true), "0.0.0.0:443");
    assert_eq!(build_listen_addr("::", "node1", false), ":::80");
    assert_eq!(build_listen_addr("1.2.3.4", "[::1]:9", false), "1.2.3.4::1]:9");
}

fn config() -> Config {
    Config {
        listen_addr: "0.0.0.0".into(),
        listen_port: 8200,
        nodes: vec!["localhost:8201".into()],
        tls_config: None,
        secret_api: "1234567890123456".into(),
        max_stream_connections: 20,
        rate_limit_cache: None,
        rate_limit_db: None,
    }
}

fn config_error(r: Result<(), Error>) -> String {
    match r {
        Err(Error::Config(m)) => m,
        other => panic!("unexpected {:?}", other),
    }
}

#[test]
fn proxy_config_validity() {
    assert!(config().is_valid().is_ok());
    let mut c = config();
    c.nodes.clear();
    assert_eq!(config_error(c.is_valid()), "'nodes' must not be empty");
    let mut c = config();
    c.secret_api = "äöü456789012345".into();
    assert_eq!(
        config_error(c.is_valid()),
        "'secret_api' should be at least 16 characters long"
    );
    c.secret_api = "äöü4567890123456".into();
    assert!(c.is_valid().is_ok());
    let mut c = config();
    c.max_stream_connections = 0;
    assert_eq!(
        config_error(c.is_valid()),
        "'max_stream_connections' must be greater than zero"
    );
}

fn values() -> ProxyConfigValues {
    ProxyConfigValues {
        nodes: None,
        listen_addr: None,
        listen_port: None,
        max_stream_connections: None,
        rate_limit_cache_rps: None,
        rate_limit_cache_burst: None,
        rate_limit_db_rps: None,
        rate_limit_db_burst: None,
        tls_auto_certificates: None,
        tls_api_key: None,
        tls_api_cert: None,
        tls_api_danger_tls_no_verify: None,
        secret_api: Some("secretsecretsecret".into()),
        unknown_keys: vec![],
    }
}

#[test]
fn proxy_config_defaults() {
    let c = Config::from_values(values(), "hiqlite").unwrap();
    assert_eq!(c.listen_addr, "0.0.0.0");
    assert_eq!(c.listen_port, 8200);
    assert!(c.nodes.is_empty());
    assert!(c.tls_config.is_none());
    assert_eq!(c.max_stream_connections, 20);
    assert!(c.rate_limit_cache.is_none());
    assert!(c.rate_limit_db.is_none());
}

#[test]
fn proxy_config_values_are_taken() {
    let mut v = values();
    v.nodes = Some(vec!["a:1".into(), "b:2".into()]);
    v.rate_limit_cache_rps = Some(10);
    v.rate_limit_db_rps = Some(5);
    v.rate_limit_db_burst = Some(50);
    v.tls_api_key = Some("key.pem".into());
    v.tls_api_cert = Some("cert.pem".into());
    v.listen_port = Some(9000);
    v.max_stream_connections = Some(3);
    let c = Config::from_values(v, "hiqlite").unwrap();
    assert_eq!(c.nodes, vec!["a:1".to_string(), "b:2".to_string()]);
    assert_eq!(c.rate_limit_cache, Some(RateLimitConfig { rps: 10, burst: 10 }));
    assert_eq!(c.rate_limit_db, Some(RateLimitConfig { rps: 5, burst: 50 }));
    assert_eq!(c.listen_port, 9000);
    assert_eq!(c.max_stream_connections, 3);
    match c.tls_config {
        Some(ProxyTlsConfig::Specific(t)) => {
            assert_eq!(t.key, "key.pem");
            assert_eq!(t.cert, "cert.pem");
            assert!(!t.danger_tls_no_verify);
        }
        other => panic!("unexpected {:?}", other),
    }
    let mut v = values();
    v.tls_auto_certificates = Some(true);
    let c = Config::from_values(v, "hiqlite").unwrap();
    assert!(matches!(c.tls_config, Some(ProxyTlsConfig::TlsAutoCertificates)));
}

fn from_values_error(v: ProxyConfigValues) -> String {
    match Config::from_values(v, "proxy") {
        Err(Error::Config(m)) => m,
        other => panic!("unexpected {:?}", other),
    }
}

#[test]
fn proxy_config_errors() {
    let mut v = values();
    v.tls_api_key = Some("k".into());
    assert_eq!(from_values_error(v), "Incomplete API TLS config given");
    let mut v = values();
    v.secret_api = None;
    assert_eq!(from_values_error(v), "proxy.secret_api is a mandatory value");
    let mut v = values();
    v.unknown_keys = vec!["node_id".into(), "data_dir".into()];
    assert_eq!(
        from_values_error(v),
        "Unknown config key(s) in [proxy]: node_id, data_dir"
    );
}

use hiqlite::server::config::{default_config, lines_of, ConfigSecrets};

const TEMPLATE: &str = "# header comment\r\n[hiqlite]\r\ndata_dir = \"{{ DATA_DIR }}\"\nsecret_raft = \"{{ SECRET_RAFT }}\"\nsecret_api = \"{{ SECRET_API }}\"\nenc_keys = [\"{{ ENC_KEY }}\"]\nenc_key_active = \"{{ ENC_KEY_ACTIVE }}\"\npassword_dashboard = \"{{ PASSWORD_DASHBOARD }}\"\ninsecure_cookie = false\n";

fn secrets() -> ConfigSecrets {
    ConfigSecrets {
        secret_raft: "raftraftraft".into(),
        secret_api: "apiapiapi".into(),
        enc_key: "key1/abc".into(),
        enc_key_active: "key1".into(),
        password_dashboard_b64: "IDontCareAboutB64".into(),
    }
}

#[test]
fn generated_config_fills_every_placeholder() {
    let c = default_config(TEMPLATE, "/home/u", &secrets(), true);
    assert!(!c.contains("{{ DATA_DIR }}"));
    assert!(!c.contains("{{ SECRET_RAFT }}"));
    assert!(!c.contains("{{ SECRET_API }}"));
    assert!(!c.contains("{{ ENC_KEY }}"));
    assert!(!c.contains("{{ ENC_KEY_ACTIVE }}"));
    assert!(!c.contains("{{ PASSWORD_DASHBOARD }}"));
    assert!(c.contains("insecure_cookie = true"));
    assert_eq!(
        c,
        "[hiqlite]\ndata_dir = \"/home/u/.hiqlite/data\"\nsecret_raft = \"raftraftraft\"\nsecret_api = \"apiapiapi\"\nenc_keys = [\"key1/abc\"]\nenc_key_active = \"key1\"\npassword_dashboard = \"IDontCareAboutB64\"\ninsecure_cookie = true\n"
    );
    let secure = default_config(TEMPLATE, "/home/u", &secrets(), false);
    assert!(secure.ends_with("insecure_cookie = false\n"));
}

#[test]
fn config_without_section_is_empty() {
    assert_eq!(default_config("a = 1\nb = 2\n", "/h", &secrets(), false), "");
}

#[test]
fn lines_like_str_lines() {
    for text in ["", "a", "a\n", "a\r\nb", "a\r", "\n\n", "x\r\n\r\ny"] {
        let ours: Vec<String> = lines_of(text).into_iter().map(|l| l.into_iter().collect()).collect();
        let std: Vec<String> = text.lines().map(|l| l.to_string()).collect();
        assert_eq!(ours, std, "lines of {:?}", text);
    }
}
