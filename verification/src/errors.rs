use vstd::prelude::*;

verus! {

/// Every failure this layer can surface.
///
/// Configuration and selection errors are returned immediately and never
/// reach the network; operational failures are collected per attempt and
/// returned together as [`Error::AllAttemptsErrored`] once the retry budget
/// is exhausted, in attempt order.
#[derive(Debug)]
pub enum Error {
    /// A proxy and a timeout were both requested; the two are mutually
    /// exclusive.
    BothSocksAndTimeout,
    /// A TLS backend was requested while a proxy is configured; TLS over
    /// SOCKS5 is unsupported.
    SSLOverSocks5,
    /// The retry budget was exhausted: one recorded failure per attempt, in
    /// the order the attempts were made.
    AllAttemptsErrored(Vec<String>),
}

} // verus!
