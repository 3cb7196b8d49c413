//! Parsing of connection descriptors. A descriptor selects the
//! connection's role by a case-sensitive scheme prefix: `connect:`
//! followed by a host address opens an outbound connection, `listen:`
//! followed by a bind address accepts exactly one inbound peer. Any
//! other prefix is an unsupported protocol. Opening the transport itself
//! is the caller's work; the dispatch decision is verified here.

use vstd::prelude::*;
use vstd::string::StrSliceExecFns;
use crate::ConnectionError;

verus! {

/// Which side of the connection this process takes.
#[derive(Clone, Copy, PartialEq, Eq, Structural, Debug)]
pub enum ConnectionRole {
    /// Connect out to a remote address.
    Outbound,
    /// Listen on a bind address and accept exactly one peer.
    Inbound,
}

/// Whether `p` is a prefix of `s`.
pub open spec fn spec_str_has_prefix(s: Seq<char>, p: Seq<char>) -> bool {
    s.len() >= p.len() && s.subrange(0, p.len() as int) == p
}

/// The descriptor grammar: `connect:` selects the outbound role,
/// `listen:` the inbound role, each yielding the address after the
/// prefix; anything else is an unsupported protocol.
pub open spec fn spec_parse_descriptor(d: Seq<char>) -> Result<
    (ConnectionRole, Seq<char>),
    ConnectionError,
> {
    if spec_str_has_prefix(d, "connect:"@) {
        Ok((ConnectionRole::Outbound, d.subrange("connect:"@.len() as int, d.len() as int)))
    } else if spec_str_has_prefix(d, "listen:"@) {
        Ok((ConnectionRole::Inbound, d.subrange("listen:"@.len() as int, d.len() as int)))
    } else {
        Err(ConnectionError::ProtocolUnsupported)
    }
}

/// Compares the first characters of `s` against the whole of `p`.
fn str_has_prefix(s: &str, p: &str) -> (r: bool)
    ensures
        r == spec_str_has_prefix(s@, p@),
{
    let slen = s.unicode_len();
    let plen = p.unicode_len();
    if slen < plen {
        return false;
    }
    let mut i: usize = 0;
    while i < plen
        invariant
            i <= plen,
            plen <= slen,
            slen == s@.len(),
            plen == p@.len(),
            forall|j: int| 0 <= j < i ==> s@[j] == p@[j],
        decreases plen - i,
    {
        if s.get_char(i) != p.get_char(i) {
            proof {
                assert(s@.subrange(0, p@.len() as int)[i as int] == s@[i as int]);
            }
            return false;
        }
        i = i + 1;
    }
    proof {
        assert(s@.subrange(0, p@.len() as int) =~= p@);
    }
    true
}

/// Parses a connection descriptor into its role and address. Returns
/// the unsupported-protocol error exactly when the descriptor starts
/// with neither recognized scheme prefix.
pub fn parse_descriptor<'a>(desc: &'a str) -> (r: Result<
    (ConnectionRole, &'a str),
    ConnectionError,
>)
    ensures
        match r {
            Ok((role, addr)) => spec_parse_descriptor(desc@) == Ok::<_, ConnectionError>(
                (role, addr@),
            ),
            Err(e) => spec_parse_descriptor(desc@) == Err::<(ConnectionRole, Seq<char>), _>(e),
        },
{
    proof {
        reveal_strlit("connect:");
        reveal_strlit("listen:");
    }
    let n = desc.unicode_len();
    if str_has_prefix(desc, "connect:") {
        let addr = desc.substring_char(8, n);
        Ok((ConnectionRole::Outbound, addr))
    } else if str_has_prefix(desc, "listen:") {
        let addr = desc.substring_char(7, n);
        Ok((ConnectionRole::Inbound, addr))
    } else {
        Err(ConnectionError::ProtocolUnsupported)
    }
}

} // verus!
