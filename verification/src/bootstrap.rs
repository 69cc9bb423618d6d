//! Bootstrap addresses: `"<peer-id>:<multiaddr>"` pairs that seed the
//! routing table at startup.

use vstd::prelude::*;
use vstd::string::StrSliceExecFns;
use crate::error::BootstrapParseError;
use crate::text::{first_index_of, lemma_first_index_of_is};

verus! {

/// Whether the characters form a well-formed peer identifier (a base58
/// multihash), as the networking library defines it.
pub uninterp spec fn is_valid_peer_id(s: Seq<char>) -> bool;

/// Whether the characters form a well-formed multiaddress, as the
/// networking library defines it.
pub uninterp spec fn is_valid_multiaddr(s: Seq<char>) -> bool;

/// Relies on `libp2p::PeerId`'s `FromStr`: whether a string parses as a
/// peer identifier is a function of its characters alone.
#[verifier::external_body]
fn peer_id_is_valid(s: &str) -> (r: bool)
    ensures
        r == is_valid_peer_id(s@),
{
    s.parse::<libp2p::PeerId>().is_ok()
}

/// Relies on `libp2p::Multiaddr`'s `FromStr`: whether a string parses as
/// a multiaddress is a function of its characters alone.
#[verifier::external_body]
fn multiaddr_is_valid(s: &str) -> (r: bool)
    ensures
        r == is_valid_multiaddr(s@),
{
    s.parse::<libp2p::Multiaddr>().is_ok()
}

/// How a bootstrap string splits at its first colon: the peer identifier
/// before it, the address after it.  A string without a colon, or with
/// nothing after it, is missing its address; a string that starts with
/// the colon is missing its peer identifier.
pub open spec fn spec_parse(s: Seq<char>) -> Result<(Seq<char>, Seq<char>), BootstrapParseError> {
    let n = s.len();
    let i = first_index_of(s, ':');
    if i == n {
        Err(BootstrapParseError::MissingAddress)
    } else if i == 0 {
        Err(BootstrapParseError::MissingPeerId)
    } else if i + 1 == n {
        Err(BootstrapParseError::MissingAddress)
    } else {
        Ok((s.subrange(0, i), s.subrange(i + 1, n as int)))
    }
}

/// Like [`spec_parse`], but each half must also satisfy the networking
/// library's own syntax.
pub open spec fn spec_parse_checked(s: Seq<char>) -> Result<
    (Seq<char>, Seq<char>),
    BootstrapParseError,
> {
    match spec_parse(s) {
        Err(e) => Err(e),
        Ok((peer_id, addr)) => {
            if !is_valid_peer_id(peer_id) {
                Err(BootstrapParseError::InvalidPeerId)
            } else if !is_valid_multiaddr(addr) {
                Err(BootstrapParseError::InvalidAddress)
            } else {
                Ok((peer_id, addr))
            }
        },
    }
}

/// A known peer of the overlay: its identifier and a reachable address,
/// both kept as the text they were given in.
#[derive(Debug, Clone, PartialEq, Eq)]
pub struct BootstrapAddress {
    pub addr: String,
    pub peer_id: String,
}

impl BootstrapAddress {
    pub fn new(addr: String, peer_id: String) -> (r: BootstrapAddress)
        ensures
            r.addr@ == addr@,
            r.peer_id@ == peer_id@,
    {
        BootstrapAddress { addr, peer_id }
    }

    /// Splits `"<peer-id>:<multiaddr>"` at the first colon, exactly as
    /// [`spec_parse`] says.  Neither half is validated here: see
    /// [`BootstrapAddress::parse_checked`].
    pub fn parse(s: &str) -> (r: Result<BootstrapAddress, BootstrapParseError>)
        ensures
            match spec_parse(s@) {
                Ok(parts) => r matches Ok(b) && b.peer_id@ == parts.0 && b.addr@ == parts.1,
                Err(e) => r == Err::<BootstrapAddress, BootstrapParseError>(e),
            },
    {
        let n = s.unicode_len();
        let mut i: usize = 0;
        while i < n && s.get_char(i) != ':'
            invariant
                n == s@.len(),
                i <= n,
                forall|j: int| 0 <= j < i ==> s@[j] != ':',
            decreases n - i,
        {
            i += 1;
        }
        proof {
            lemma_first_index_of_is(s@, ':', i as int);
        }
        if i == n {
            return Err(BootstrapParseError::MissingAddress);
        }
        if i == 0 {
            return Err(BootstrapParseError::MissingPeerId);
        }
        if i + 1 == n {
            return Err(BootstrapParseError::MissingAddress);
        }
        let peer_id = s.substring_char(0, i).to_owned();
        let addr = s.substring_char(i + 1, n).to_owned();
        Ok(BootstrapAddress { addr, peer_id })
    }

    /// Splits like [`BootstrapAddress::parse`], then also checks each
    /// half against the networking library's own syntax, exactly as
    /// [`spec_parse_checked`] says.
    pub fn parse_checked(s: &str) -> (r: Result<BootstrapAddress, BootstrapParseError>)
        ensures
            match spec_parse_checked(s@) {
                Ok(parts) => r matches Ok(b) && b.peer_id@ == parts.0 && b.addr@ == parts.1,
                Err(e) => r == Err::<BootstrapAddress, BootstrapParseError>(e),
            },
    {
        let parsed = Self::parse(s)?;
        if !peer_id_is_valid(parsed.peer_id.as_str()) {
            return Err(BootstrapParseError::InvalidPeerId);
        }
        if !multiaddr_is_valid(parsed.addr.as_str()) {
            return Err(BootstrapParseError::InvalidAddress);
        }
        Ok(parsed)
    }
}

} // verus!
