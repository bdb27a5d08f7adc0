//! Backend selection: from a connection URL and a [`Config`], exactly one
//! transport variant is chosen, and a [`Client`] retains the URL and the
//! configuration so that the same selection can be re-run verbatim whenever
//! a failed call demands a replacement backend.
//!
//! The variants describe the transport to establish (target address plus the
//! settings that apply to it); establishing the connection itself is the
//! unverified shell's job.

use vstd::prelude::*;
use vstd::rwlock::{RwLock, RwLockPredicate};

use crate::config::{opt_socks5_view, Config, ConfigView, Socks5Config, Socks5View};
use crate::config::default_config;
use crate::errors::Error;
use crate::strutil::{has_prefix, ssl_scheme, strip_prefix, strip_prefix_spec, tcp_scheme};
use crate::strutil::{lemma_strip_of_concat, str_has_prefix};

verus! {

/// The selected backend: exactly one transport variant, carrying the target
/// address (scheme prefix stripped) and the settings that apply to it.
#[derive(Debug)]
pub enum ClientType {
    /// Plain TCP, with the configured connect timeout in seconds, if any.
    TCP { host: String, timeout: Option<u64> },
    /// TLS, validating the peer's domain when `validate_domain` is set.
    SSL { host: String, validate_domain: bool },
    /// Plain TCP tunneled through the given SOCKS5 proxy.
    Socks5 { host: String, proxy: Socks5Config },
}

/// Spec-level image of a [`ClientType`].
pub enum ClientTypeView {
    TCP { host: Seq<char>, timeout: Option<u64> },
    SSL { host: Seq<char>, validate_domain: bool },
    Socks5 { host: Seq<char>, proxy: Socks5View },
}

impl View for ClientType {
    type V = ClientTypeView;

    open spec fn view(&self) -> ClientTypeView {
        match self {
            ClientType::TCP { host, timeout } => ClientTypeView::TCP {
                host: host@,
                timeout: *timeout,
            },
            ClientType::SSL { host, validate_domain } => ClientTypeView::SSL {
                host: host@,
                validate_domain: *validate_domain,
            },
            ClientType::Socks5 { host, proxy } => ClientTypeView::Socks5 {
                host: host@,
                proxy: proxy@,
            },
        }
    }
}

/// Which backend `url` and `c` select: `None` exactly when TLS is requested
/// while a proxy is configured (the one unsupported combination), otherwise
/// the chosen variant.
///
/// A URL with the `ssl://` prefix selects TLS; any other URL selects plain
/// TCP — through the proxy when one is configured — with a `tcp://` prefix
/// stripped if present and absence of a prefix meaning plain TCP.
pub open spec fn select_spec(url: Seq<char>, c: ConfigView) -> Option<ClientTypeView> {
    if has_prefix(url, ssl_scheme()) {
        if c.socks5 is Some {
            None
        } else {
            Some(
                ClientTypeView::SSL {
                    host: strip_prefix_spec(url, ssl_scheme()),
                    validate_domain: c.validate_domain,
                },
            )
        }
    } else {
        match c.socks5 {
            Some(p) => Some(
                ClientTypeView::Socks5 { host: strip_prefix_spec(url, tcp_scheme()), proxy: p },
            ),
            None => Some(
                ClientTypeView::TCP {
                    host: strip_prefix_spec(url, tcp_scheme()),
                    timeout: c.timeout,
                },
            ),
        }
    }
}

/// Requesting TLS while a proxy is configured is rejected outright: selection
/// yields no backend, so no connection is ever attempted for it.
pub proof fn lemma_ssl_over_proxy_rejected(url: Seq<char>, c: ConfigView)
    requires
        has_prefix(url, ssl_scheme()),
        c.socks5 is Some,
    ensures
        select_spec(url, c) is None,
{
}

/// A URL with no scheme prefix selects exactly what the same URL with the
/// `tcp://` prefix selects.
pub proof fn lemma_no_scheme_defaults_to_tcp(url: Seq<char>, c: ConfigView)
    requires
        !has_prefix(url, ssl_scheme()),
        !has_prefix(url, tcp_scheme()),
    ensures
        select_spec(tcp_scheme() + url, c) == select_spec(url, c),
{
    let t = tcp_scheme() + url;
    lemma_strip_of_concat(tcp_scheme(), url);
    assert(t[0] == 't');
    if has_prefix(t, ssl_scheme()) {
        assert(t.subrange(0, ssl_scheme().len() as int)[0] == t[0]);
        assert(false);
    }
}

impl ClientType {
    /// Select and describe the backend for `url` under `config`; fails with
    /// [`Error::SSLOverSocks5`] exactly when `url` requests TLS while a
    /// proxy is configured.
    pub fn from_config(url: &str, config: &Config) -> (r: Result<Self, Error>)
        ensures
            match r {
                Ok(ct) => select_spec(url@, config@) == Some(ct@),
                Err(e) => select_spec(url@, config@) is None && e == Error::SSLOverSocks5,
            },
    {
        proof {
            reveal_strlit("ssl://");
            reveal_strlit("tcp://");
            assert("ssl://"@ =~= ssl_scheme());
            assert("tcp://"@ =~= tcp_scheme());
        }
        if str_has_prefix(url, "ssl://") {
            if config.socks5().is_some() {
                return Err(Error::SSLOverSocks5);
            }
            let host = strip_prefix(url, "ssl://");
            Ok(ClientType::SSL { host, validate_domain: config.validate_domain() })
        } else {
            let host = strip_prefix(url, "tcp://");
            match config.socks5() {
                None => Ok(ClientType::TCP { host, timeout: config.timeout() }),
                Some(proxy) => Ok(ClientType::Socks5 { host, proxy: proxy.clone() }),
            }
        }
    }
}

/// Spec-level image of a [`Client`].
pub struct ClientView {
    pub url: Seq<char>,
    pub config: ConfigView,
    pub client_type: ClientTypeView,
}

/// A client instance: the original connection URL (retained verbatim so the
/// selection can be re-run on reconnect), the immutable configuration, and
/// the single live backend.
pub struct Client {
    client_type: ClientType,
    config: Config,
    url: String,
}

impl View for Client {
    type V = ClientView;

    closed spec fn view(&self) -> ClientView {
        ClientView { url: self.url@, config: self.config@, client_type: self.client_type@ }
    }
}

impl Client {
    /// The retained URL and configuration select the live backend.
    pub open spec fn wf(&self) -> bool {
        select_spec(self@.url, self@.config) == Some(self@.client_type)
    }

    /// A client for `url` under the default configuration; fails exactly as
    /// [`ClientType::from_config`] does.
    pub fn new(url: &str) -> (r: Result<Self, Error>)
        ensures
            match r {
                Ok(c) => c.wf() && c@.url == url@ && c@.config == default_config(),
                Err(e) => select_spec(url@, default_config()) is None && e
                    == Error::SSLOverSocks5,
            },
    {
        Self::from_config(url, Config::default())
    }

    /// A client for `url` under `config`; fails exactly as
    /// [`ClientType::from_config`] does.
    pub fn from_config(url: &str, config: Config) -> (r: Result<Self, Error>)
        ensures
            match r {
                Ok(c) => c.wf() && c@.url == url@ && c@.config == config@,
                Err(e) => select_spec(url@, config@) is None && e == Error::SSLOverSocks5,
            },
    {
        match ClientType::from_config(url, &config) {
            Ok(client_type) => Ok(Client { client_type, config, url: url.to_owned() }),
            Err(e) => Err(e),
        }
    }

    /// The live backend.
    pub fn backend(&self) -> (r: &ClientType)
        ensures
            r@ == self@.client_type,
    {
        &self.client_type
    }

    /// The configuration this client was built with.
    pub fn config(&self) -> (r: &Config)
        ensures
            r@ == self@.config,
    {
        &self.config
    }

    /// Replace the backend by re-running selection against the retained URL
    /// and configuration. Selection is deterministic, so on a well-formed
    /// client it cannot fail and reproduces an equal backend; the connection
    /// behind it is the shell's to re-establish.
    pub fn reconnect(&mut self) -> (r: Result<(), Error>)
        requires
            old(self).wf(),
        ensures
            r is Ok,
            final(self).wf(),
            final(self)@ == old(self)@,
    {
        match ClientType::from_config(self.url.as_str(), &self.config) {
            Ok(ct) => {
                self.client_type = ct;
                Ok(())
            },
            Err(e) => Err(e),
        }
    }
}

impl Clone for ClientType {
    /// The copy describes the same transport.
    fn clone(&self) -> (r: Self)
        ensures
            r@ == self@,
    {
        match self {
            ClientType::TCP { host, timeout } => ClientType::TCP {
                host: host.clone(),
                timeout: *timeout,
            },
            ClientType::SSL { host, validate_domain } => ClientType::SSL {
                host: host.clone(),
                validate_domain: *validate_domain,
            },
            ClientType::Socks5 { host, proxy } => ClientType::Socks5 {
                host: host.clone(),
                proxy: proxy.clone(),
            },
        }
    }
}

/// What the lock of a [`SharedClient`] holds in every reachable state: a
/// well-formed client retaining this URL and this configuration.
pub struct ClientInv {
    pub url: Seq<char>,
    pub config: ConfigView,
}

impl RwLockPredicate<Client> for ClientInv {
    open spec fn inv(self, c: Client) -> bool {
        c.wf() && c@.url == self.url && c@.config == self.config
    }
}

/// One client shared across callers behind a reader-writer lock: forwarding
/// a call needs only shared (read) access, so concurrent callers dispatch
/// through the same healthy backend side by side, while replacing the
/// backend takes exclusive (write) access, so a torn or half-replaced handle
/// is never observed.
pub struct SharedClient {
    lock: RwLock<Client, ClientInv>,
}

impl SharedClient {
    /// The URL every state of the shared client retains.
    pub closed spec fn spec_url(&self) -> Seq<char> {
        self.lock.pred().url
    }

    /// The configuration every state of the shared client retains.
    pub closed spec fn spec_config(&self) -> ConfigView {
        self.lock.pred().config
    }

    /// Share `client` behind a fresh lock.
    pub fn new(client: Client) -> (r: Self)
        requires
            client.wf(),
        ensures
            r.spec_url() == client@.url,
            r.spec_config() == client@.config,
    {
        let ghost pred = ClientInv { url: client@.url, config: client@.config };
        SharedClient { lock: RwLock::new(client, Ghost(pred)) }
    }

    /// A copy of the live backend, taken under the shared (read) lock.
    ///
    /// Whatever reconnections other callers have driven in between, every
    /// copy ever handed out is the backend that the retained URL and
    /// configuration select — never a partially replaced one.
    pub fn backend_snapshot(&self) -> (r: ClientType)
        ensures
            select_spec(self.spec_url(), self.spec_config()) == Some(r@),
    {
        let handle = self.lock.acquire_read();
        let backend = handle.borrow().backend().clone();
        handle.release_read();
        backend
    }

    /// The configured number of attempts per call.
    pub fn retry(&self) -> (r: u8)
        ensures
            r == self.spec_config().retry,
    {
        let handle = self.lock.acquire_read();
        let retry = handle.borrow().config().retry();
        handle.release_read();
        retry
    }

    /// Replace the backend under the exclusive (write) lock by re-running
    /// selection against the retained URL and configuration; readers wait
    /// until the swap completes.
    pub fn reconnect(&self) {
        let (mut client, handle) = self.lock.acquire_write();
        let _replaced = client.reconnect();
        handle.release_write(client);
    }
}

} // verus!
