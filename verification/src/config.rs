//! Client configuration: proxy settings, connect timeout, retry budget and
//! TLS domain validation, built through a validating builder.
//!
//! The builder enforces by construction that a proxy and a timeout are never
//! both set: each setter is modelled by a spec-level transition
//! ([`set_socks5`], [`set_timeout`]) that yields `None` exactly when the
//! requested change would conflict with what is already set.

use vstd::prelude::*;

use crate::errors::Error;
use crate::strutil::{socks5_scheme, strip_prefix, strip_prefix_spec};

verus! {

/// Spec-level image of a [`Socks5Credential`].
pub struct CredentialView {
    pub username: Seq<char>,
    pub password: Seq<char>,
}

/// Spec-level image of a [`Socks5Config`].
pub struct Socks5View {
    pub addr: Seq<char>,
    pub credentials: Option<CredentialView>,
}

/// Spec-level image of a [`Config`] (and of a [`ConfigBuilder`]).
pub struct ConfigView {
    pub socks5: Option<Socks5View>,
    pub timeout: Option<u64>,
    pub retry: u8,
    pub validate_domain: bool,
}

/// Username and password for an authenticated SOCKS5 proxy.
#[derive(Debug)]
pub struct Socks5Credential {
    pub username: String,
    pub password: String,
}

/// A SOCKS5 proxy endpoint: its address, with any `socks5://` prefix already
/// stripped, and optional credentials.
#[derive(Debug)]
pub struct Socks5Config {
    pub addr: String,
    pub credentials: Option<Socks5Credential>,
}

/// Immutable client settings, obtained from [`ConfigBuilder::build`].
#[derive(Debug)]
pub struct Config {
    socks5: Option<Socks5Config>,
    timeout: Option<u64>,
    retry: u8,
    validate_domain: bool,
}

/// Builder for [`Config`]; setters that could contradict an earlier choice
/// return an error instead of applying the change.
pub struct ConfigBuilder {
    config: Config,
}

impl View for Socks5Credential {
    type V = CredentialView;

    closed spec fn view(&self) -> CredentialView {
        CredentialView { username: self.username@, password: self.password@ }
    }
}

impl View for Socks5Config {
    type V = Socks5View;

    closed spec fn view(&self) -> Socks5View {
        Socks5View {
            addr: self.addr@,
            credentials: match self.credentials {
                Some(c) => Some(c@),
                None => None,
            },
        }
    }
}

/// The view of an optional proxy configuration.
pub open spec fn opt_socks5_view(s: Option<Socks5Config>) -> Option<Socks5View> {
    match s {
        Some(c) => Some(c@),
        None => None,
    }
}

impl View for Config {
    type V = ConfigView;

    closed spec fn view(&self) -> ConfigView {
        ConfigView {
            socks5: opt_socks5_view(self.socks5),
            timeout: self.timeout,
            retry: self.retry,
            validate_domain: self.validate_domain,
        }
    }
}

impl View for ConfigBuilder {
    type V = ConfigView;

    closed spec fn view(&self) -> ConfigView {
        self.config@
    }
}

/// The defaults a builder starts from: no proxy, no timeout, one attempt per
/// call, TLS domain validation on.
pub open spec fn default_config() -> ConfigView {
    ConfigView { socks5: None, timeout: None, retry: 1, validate_domain: true }
}

/// Effect of requesting proxy settings `s` on builder state `c`: `None` when
/// the request conflicts with an already-set timeout, the updated state
/// otherwise.
pub open spec fn set_socks5(c: ConfigView, s: Option<Socks5View>) -> Option<ConfigView> {
    if s is Some && c.timeout is Some {
        None
    } else {
        Some(ConfigView { socks5: s, ..c })
    }
}

/// Effect of requesting a timeout of `secs` seconds on builder state `c`:
/// `None` when a proxy is already set, the updated state otherwise.
pub open spec fn set_timeout(c: ConfigView, secs: u8) -> Option<ConfigView> {
    if c.socks5 is Some {
        None
    } else {
        Some(ConfigView { timeout: Some(secs as u64), ..c })
    }
}

/// A proxy and a timeout can never both be set, in whichever order the two
/// requests are made: whenever one of them has been applied, the other is
/// rejected.
pub proof fn lemma_conflict_is_order_independent(c: ConfigView, s: Socks5View, secs: u8)
    ensures
        set_socks5(c, Some(s)) matches Some(c1) ==> set_timeout(c1, secs) is None,
        set_timeout(c, secs) matches Some(c1) ==> set_socks5(c1, Some(s)) is None,
{
}

/// A proxy address given with the `socks5://` prefix and one given without it
/// are stripped to the same address, so the two produce equal proxy settings.
pub proof fn lemma_socks5_scheme_prefix_irrelevant(addr: Seq<char>)
    requires
        !crate::strutil::has_prefix(addr, socks5_scheme()),
    ensures
        strip_prefix_spec(socks5_scheme() + addr, socks5_scheme()) == strip_prefix_spec(
            addr,
            socks5_scheme(),
        ),
{
    crate::strutil::lemma_strip_of_concat(socks5_scheme(), addr);
}

impl ConfigBuilder {
    /// A builder holding the defaults.
    pub fn new() -> (r: Self)
        ensures
            r@ == default_config(),
    {
        ConfigBuilder { config: Config::default() }
    }

    /// Request proxy settings; rejected with [`Error::BothSocksAndTimeout`]
    /// exactly when settings are given and a timeout is already set.
    pub fn socks5(self, socks5_config: Option<Socks5Config>) -> (r: Result<Self, Error>)
        ensures
            match r {
                Ok(b) => set_socks5(self@, opt_socks5_view(socks5_config)) == Some(b@),
                Err(e) => set_socks5(self@, opt_socks5_view(socks5_config)) is None && e
                    == Error::BothSocksAndTimeout,
            },
    {
        if socks5_config.is_some() && self.config.timeout.is_some() {
            return Err(Error::BothSocksAndTimeout);
        }
        let c = self.config;
        Ok(
            ConfigBuilder {
                config: Config {
                    socks5: socks5_config,
                    timeout: c.timeout,
                    retry: c.retry,
                    validate_domain: c.validate_domain,
                },
            },
        )
    }

    /// Request a connect timeout of `timeout` seconds; rejected with
    /// [`Error::BothSocksAndTimeout`] exactly when a proxy is already set.
    pub fn timeout(self, timeout: u8) -> (r: Result<Self, Error>)
        ensures
            match r {
                Ok(b) => set_timeout(self@, timeout) == Some(b@),
                Err(e) => set_timeout(self@, timeout) is None && e == Error::BothSocksAndTimeout,
            },
    {
        if self.config.socks5.is_some() {
            return Err(Error::BothSocksAndTimeout);
        }
        let c = self.config;
        Ok(
            ConfigBuilder {
                config: Config {
                    socks5: c.socks5,
                    timeout: Some(timeout as u64),
                    retry: c.retry,
                    validate_domain: c.validate_domain,
                },
            },
        )
    }

    /// Set the number of attempts made per call; never rejected.
    pub fn retry(self, retry: u8) -> (r: Self)
        ensures
            r@ == (ConfigView { retry: retry, ..self@ }),
    {
        let c = self.config;
        ConfigBuilder {
            config: Config {
                socks5: c.socks5,
                timeout: c.timeout,
                retry: retry,
                validate_domain: c.validate_domain,
            },
        }
    }

    /// Set whether TLS backends validate the peer's domain; never rejected.
    pub fn validate_domain(self, validate_domain: bool) -> (r: Self)
        ensures
            r@ == (ConfigView { validate_domain: validate_domain, ..self@ }),
    {
        let c = self.config;
        ConfigBuilder {
            config: Config {
                socks5: c.socks5,
                timeout: c.timeout,
                retry: c.retry,
                validate_domain: validate_domain,
            },
        }
    }

    /// Consume the builder and yield the immutable configuration.
    pub fn build(self) -> (r: Config)
        ensures
            r@ == self@,
    {
        self.config
    }
}

impl Default for ConfigBuilder {
    fn default() -> (r: Self)
        ensures
            r@ == default_config(),
    {
        ConfigBuilder::new()
    }
}

impl Socks5Config {
    /// Proxy settings for `addr`, with one leading `socks5://` stripped and
    /// no credentials.
    pub fn new(addr: &str) -> (r: Self)
        ensures
            r@ == (Socks5View {
                addr: strip_prefix_spec(addr@, socks5_scheme()),
                credentials: None,
            }),
    {
        proof {
            reveal_strlit("socks5://");
            assert("socks5://"@ =~= socks5_scheme());
        }
        let addr = strip_prefix(addr, "socks5://");
        Socks5Config { addr, credentials: None }
    }

    /// Proxy settings for `addr` (stripped as in [`Socks5Config::new`]) with
    /// the given username and password.
    pub fn with_credentials(addr: String, username: String, password: String) -> (r: Self)
        ensures
            r@ == (Socks5View {
                addr: strip_prefix_spec(addr@, socks5_scheme()),
                credentials: Some(CredentialView { username: username@, password: password@ }),
            }),
    {
        let mut config = Socks5Config::new(addr.as_str());
        config.credentials = Some(Socks5Credential { username, password });
        config
    }
}

impl Clone for Socks5Credential {
    /// The copy carries the same username and password.
    fn clone(&self) -> (r: Self)
        ensures
            r@ == self@,
    {
        Socks5Credential { username: self.username.clone(), password: self.password.clone() }
    }
}

impl Clone for Socks5Config {
    /// The copy carries the same address and credentials.
    fn clone(&self) -> (r: Self)
        ensures
            r@ == self@,
    {
        Socks5Config {
            addr: self.addr.clone(),
            credentials: match &self.credentials {
                Some(c) => Some(c.clone()),
                None => None,
            },
        }
    }
}

impl Clone for Config {
    /// The copy carries the same four settings.
    fn clone(&self) -> (r: Self)
        ensures
            r@ == self@,
    {
        Config {
            socks5: match &self.socks5 {
                Some(s) => Some(s.clone()),
                None => None,
            },
            timeout: self.timeout,
            retry: self.retry,
            validate_domain: self.validate_domain,
        }
    }
}

impl Config {
    /// The configured proxy settings, if any.
    pub fn socks5(&self) -> (r: &Option<Socks5Config>)
        ensures
            opt_socks5_view(*r) == self@.socks5,
    {
        &self.socks5
    }

    /// The configured number of attempts per call.
    pub fn retry(&self) -> (r: u8)
        ensures
            r == self@.retry,
    {
        self.retry
    }

    /// The configured connect timeout in seconds, if any.
    pub fn timeout(&self) -> (r: Option<u64>)
        ensures
            r == self@.timeout,
    {
        self.timeout
    }

    /// Whether TLS backends validate the peer's domain.
    pub fn validate_domain(&self) -> (r: bool)
        ensures
            r == self@.validate_domain,
    {
        self.validate_domain
    }
}

impl Default for Config {
    fn default() -> (r: Self)
        ensures
            r@ == default_config(),
    {
        Config { socks5: None, timeout: None, retry: 1, validate_domain: true }
    }
}

} // verus!
