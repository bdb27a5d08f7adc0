//! Fault-tolerant dispatch core for a line-oriented request/response client
//! reachable over plain TCP, TLS, or a SOCKS5 proxy.
//!
//! The crate provides three verified pieces:
//! - a validating configuration builder ([`ConfigBuilder`]) that rejects
//!   contradictory option combinations at construction time,
//! - a backend selector ([`ClientType::from_config`]) that picks exactly one
//!   transport variant from a connection URL and a [`Config`], and
//! - the retry/reconnect dispatcher ([`Dispatch`], [`run_with_outcomes`])
//!   that wraps every remote operation, collecting one error per failed
//!   attempt and surfacing them together, in attempt order, once the retry
//!   budget is exhausted.
//!
//! The concrete transports (TCP sockets, TLS handshakes, SOCKS5 relays) and
//! the wire protocol behind them are external collaborators: this crate
//! decides which transport to build and how to react to each attempt's
//! outcome, and a thin unverified shell performs the actual I/O.

mod client;
mod config;
mod dispatch;
mod errors;
mod strutil;

pub use client::{lemma_no_scheme_defaults_to_tcp, lemma_ssl_over_proxy_rejected, select_spec};
pub use client::{Client, ClientInv, ClientType, ClientTypeView, ClientView, SharedClient};
pub use config::{lemma_conflict_is_order_independent, lemma_socks5_scheme_prefix_irrelevant};
pub use config::{default_config, opt_socks5_view, set_socks5, set_timeout};
pub use config::{
    Config, ConfigBuilder, ConfigView, CredentialView, Socks5Config, Socks5Credential, Socks5View,
};
pub use dispatch::{all_fail_before, errors_before, failure_of, success_of};
pub use dispatch::{run_with_outcomes, AttemptOutcome, Dispatch, DispatchView};
pub use errors::Error;
pub use strutil::{has_prefix, socks5_scheme, ssl_scheme, strip_prefix_spec, tcp_scheme};
pub use strutil::{lemma_strip_of_concat, str_has_prefix, strip_prefix};
