use electrum_client::{Client, ClientType, Config, ConfigBuilder, Error, SharedClient, Socks5Config};

fn proxied_config(addr: &str) -> Config {
    ConfigBuilder::new()
        .socks5(Some(Socks5Config::new(addr)))
        .unwrap()
        .build()
}

#[test]
fn ssl_over_proxy_is_rejected() {
    let config = proxied_config("127.0.0.1:9050");
    match ClientType::from_config("ssl://example.com:50002", &config) {
        Err(Error::SSLOverSocks5) => {}
        _ => panic!("expected the TLS-over-proxy error"),
    }
}

#[test]
fn ssl_over_proxy_is_rejected_for_client_too() {
    let config = proxied_config("127.0.0.1:9050");
    match Client::from_config("ssl://example.com:50002", config) {
        Err(Error::SSLOverSocks5) => {}
        _ => panic!("expected the TLS-over-proxy error"),
    }
}

#[test]
fn no_scheme_behaves_like_tcp_scheme() {
    let config = Config::default();
    let bare = ClientType::from_config("example.com:50001", &config).unwrap();
    let prefixed = ClientType::from_config("tcp://example.com:50001", &config).unwrap();
    match (bare, prefixed) {
        (
            ClientType::TCP { host: bare_host, timeout: bare_timeout },
            ClientType::TCP { host: prefixed_host, timeout: prefixed_timeout },
        ) => {
            assert_eq!(bare_host, "example.com:50001");
            assert_eq!(bare_host, prefixed_host);
            assert_eq!(bare_timeout, prefixed_timeout);
        }
        _ => panic!("expected plain TCP backends"),
    }
}

#[test]
fn ssl_scheme_selects_tls_and_strips_prefix() {
    let config = ConfigBuilder::new().validate_domain(false).build();
    match ClientType::from_config("ssl://example.com:50002", &config).unwrap() {
        ClientType::SSL { host, validate_domain } => {
            assert_eq!(host, "example.com:50002");
            assert!(!validate_domain);
        }
        _ => panic!("expected a TLS backend"),
    }
}

#[test]
fn proxy_routes_plain_urls_through_socks5() {
    let config = proxied_config("socks5://127.0.0.1:9050");
    match ClientType::from_config("tcp://example.com:50001", &config).unwrap() {
        ClientType::Socks5 { host, proxy } => {
            assert_eq!(host, "example.com:50001");
            assert_eq!(proxy.addr, "127.0.0.1:9050");
        }
        _ => panic!("expected a proxied backend"),
    }
}

#[test]
fn timeout_is_applied_to_plain_tcp() {
    let config = ConfigBuilder::new().timeout(7).unwrap().build();
    match ClientType::from_config("example.com:50001", &config).unwrap() {
        ClientType::TCP { host, timeout } => {
            assert_eq!(host, "example.com:50001");
            assert_eq!(timeout, Some(7));
        }
        _ => panic!("expected a plain TCP backend"),
    }
}

#[test]
fn client_retains_config_and_selects_backend() {
    let config = ConfigBuilder::new().retry(3).build();
    let client = Client::from_config("ssl://example.com:50002", config).unwrap();
    assert_eq!(client.config().retry(), 3);
    match client.backend() {
        ClientType::SSL { host, validate_domain } => {
            assert_eq!(host, "example.com:50002");
            assert!(validate_domain);
        }
        _ => panic!("expected a TLS backend"),
    }
}

#[test]
fn client_new_uses_the_defaults() {
    let client = Client::new("example.com:50001").unwrap();
    assert_eq!(client.config().retry(), 1);
    match client.backend() {
        ClientType::TCP { host, timeout } => {
            assert_eq!(host, "example.com:50001");
            assert_eq!(*timeout, None);
        }
        _ => panic!("expected a plain TCP backend"),
    }
}

#[test]
fn shared_client_hands_out_the_selected_backend() {
    let config = ConfigBuilder::new().retry(2).build();
    let client = Client::from_config("ssl://example.com:50002", config).unwrap();
    let shared = SharedClient::new(client);
    assert_eq!(shared.retry(), 2);
    match shared.backend_snapshot() {
        ClientType::SSL { host, validate_domain } => {
            assert_eq!(host, "example.com:50002");
            assert!(validate_domain);
        }
        _ => panic!("expected a TLS backend"),
    }
}

#[test]
fn shared_client_reconnect_keeps_the_selection() {
    let client = Client::new("tcp://example.com:50001").unwrap();
    let shared = SharedClient::new(client);
    shared.reconnect();
    shared.reconnect();
    match shared.backend_snapshot() {
        ClientType::TCP { host, timeout } => {
            assert_eq!(host, "example.com:50001");
            assert_eq!(timeout, None);
        }
        _ => panic!("expected a plain TCP backend"),
    }
}

#[test]
fn reconnect_reproduces_an_equal_backend() {
    let mut client = Client::new("tcp://example.com:50001").unwrap();
    let host_before = match client.backend() {
        ClientType::TCP { host, .. } => host.clone(),
        _ => panic!("expected a plain TCP backend"),
    };
    client.reconnect().unwrap();
    match client.backend() {
        ClientType::TCP { host, timeout } => {
            assert_eq!(*host, host_before);
            assert_eq!(*timeout, None);
        }
        _ => panic!("expected a plain TCP backend"),
    }
}
