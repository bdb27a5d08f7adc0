//! Scheme-prefix recognition and stripping over character sequences.
//!
//! Connection URLs carry an optional `ssl://` or `tcp://` scheme and proxy
//! addresses an optional `socks5://` one; everything here is stated over the
//! `Seq<char>` view of the strings involved.

use vstd::prelude::*;
use vstd::string::*;

verus! {

/// The TLS scheme prefix, `ssl://`.
pub open spec fn ssl_scheme() -> Seq<char> {
    seq!['s', 's', 'l', ':', '/', '/']
}

/// The plaintext scheme prefix, `tcp://`.
pub open spec fn tcp_scheme() -> Seq<char> {
    seq!['t', 'c', 'p', ':', '/', '/']
}

/// The proxy-address scheme prefix, `socks5://`.
pub open spec fn socks5_scheme() -> Seq<char> {
    seq!['s', 'o', 'c', 'k', 's', '5', ':', '/', '/']
}

/// `p` is a prefix of `s`.
pub open spec fn has_prefix(s: Seq<char>, p: Seq<char>) -> bool {
    s.len() >= p.len() && s.subrange(0, p.len() as int) == p
}

/// `s` with one leading occurrence of `p` removed, or `s` unchanged when `p`
/// is not a prefix of it.
pub open spec fn strip_prefix_spec(s: Seq<char>, p: Seq<char>) -> Seq<char> {
    if has_prefix(s, p) {
        s.subrange(p.len() as int, s.len() as int)
    } else {
        s
    }
}

/// Prepending `p` and then stripping it gives the original sequence back.
pub proof fn lemma_strip_of_concat(p: Seq<char>, rest: Seq<char>)
    ensures
        has_prefix(p + rest, p),
        strip_prefix_spec(p + rest, p) == rest,
{
    assert((p + rest).subrange(0, p.len() as int) =~= p);
    assert((p + rest).subrange(p.len() as int, (p + rest).len() as int) =~= rest);
}

/// Whether `p` is a prefix of `s`, decided character by character.
pub fn str_has_prefix(s: &str, p: &str) -> (b: bool)
    ensures
        b == has_prefix(s@, p@),
{
    let slen = s.unicode_len();
    let plen = p.unicode_len();
    if slen < plen {
        return false;
    }
    let mut i: usize = 0;
    while i < plen
        invariant
            i <= plen,
            plen <= slen,
            slen == s@.len(),
            plen == p@.len(),
            forall|j: int| 0 <= j < i ==> s@[j] == p@[j],
        decreases plen - i,
    {
        if s.get_char(i) != p.get_char(i) {
            proof {
                assert(s@.subrange(0, p@.len() as int)[i as int] == s@[i as int]);
            }
            return false;
        }
        i += 1;
    }
    proof {
        assert(s@.subrange(0, p@.len() as int) =~= p@);
    }
    true
}

/// A copy of `s` with one leading occurrence of `p` removed, or `s` copied
/// unchanged when `p` is not a prefix of it.
pub fn strip_prefix(s: &str, p: &str) -> (r: String)
    ensures
        r@ == strip_prefix_spec(s@, p@),
{
    if str_has_prefix(s, p) {
        let slen = s.unicode_len();
        let plen = p.unicode_len();
        let rest = s.substring_char(plen, slen);
        String::from_str(rest)
    } else {
        s.to_owned()
    }
}

} // verus!
