use electrum_client::{Config, ConfigBuilder, Error, Socks5Config};

#[test]
fn builder_defaults() {
    let config = ConfigBuilder::new().build();
    assert!(config.socks5().is_none());
    assert_eq!(config.timeout(), None);
    assert_eq!(config.retry(), 1);
    assert!(config.validate_domain());
}

#[test]
fn default_config_matches_builder_defaults() {
    let config = Config::default();
    assert!(config.socks5().is_none());
    assert_eq!(config.timeout(), None);
    assert_eq!(config.retry(), 1);
    assert!(config.validate_domain());
}

#[test]
fn retry_and_validate_domain_always_apply() {
    let config = ConfigBuilder::new().retry(5).validate_domain(false).build();
    assert_eq!(config.retry(), 5);
    assert!(!config.validate_domain());
    assert!(config.socks5().is_none());
    assert_eq!(config.timeout(), None);
}

#[test]
fn timeout_is_stored_in_seconds() {
    let config = ConfigBuilder::new().timeout(9).unwrap().build();
    assert_eq!(config.timeout(), Some(9));
}

#[test]
fn proxy_then_timeout_is_rejected() {
    let builder = ConfigBuilder::new()
        .socks5(Some(Socks5Config::new("127.0.0.1:9050")))
        .unwrap();
    match builder.timeout(4) {
        Err(Error::BothSocksAndTimeout) => {}
        _ => panic!("expected the conflicting-options error"),
    }
}

#[test]
fn timeout_then_proxy_is_rejected() {
    let builder = ConfigBuilder::new().timeout(4).unwrap();
    match builder.socks5(Some(Socks5Config::new("127.0.0.1:9050"))) {
        Err(Error::BothSocksAndTimeout) => {}
        _ => panic!("expected the conflicting-options error"),
    }
}

#[test]
fn clearing_the_proxy_never_conflicts() {
    let config = ConfigBuilder::new()
        .timeout(4)
        .unwrap()
        .socks5(None)
        .unwrap()
        .build();
    assert!(config.socks5().is_none());
    assert_eq!(config.timeout(), Some(4));
}

#[test]
fn socks5_scheme_prefix_is_stripped() {
    let with_prefix = Socks5Config::new("socks5://127.0.0.1:9050");
    let without_prefix = Socks5Config::new("127.0.0.1:9050");
    assert_eq!(with_prefix.addr, "127.0.0.1:9050");
    assert_eq!(with_prefix.addr, without_prefix.addr);
    assert!(with_prefix.credentials.is_none());
    assert!(without_prefix.credentials.is_none());
}

#[test]
fn with_credentials_strips_and_records() {
    let proxy = Socks5Config::with_credentials(
        String::from("socks5://relay:1080"),
        String::from("user"),
        String::from("secret"),
    );
    assert_eq!(proxy.addr, "relay:1080");
    let credential = proxy.credentials.expect("credentials were given");
    assert_eq!(credential.username, "user");
    assert_eq!(credential.password, "secret");
}

#[test]
fn proxy_survives_into_config() {
    let config = ConfigBuilder::new()
        .socks5(Some(Socks5Config::new("relay:1080")))
        .unwrap()
        .build();
    let proxy = config.socks5().as_ref().expect("proxy was set");
    assert_eq!(proxy.addr, "relay:1080");
}

#[test]
fn cloned_proxy_settings_are_equal() {
    let proxy = Socks5Config::with_credentials(
        String::from("relay:1080"),
        String::from("user"),
        String::from("secret"),
    );
    let copy = proxy.clone();
    assert_eq!(copy.addr, proxy.addr);
    let original = proxy.credentials.as_ref().unwrap();
    let cloned = copy.credentials.as_ref().unwrap();
    assert_eq!(cloned.username, original.username);
    assert_eq!(cloned.password, original.password);
}
