use vstd::prelude::*;

use crate::error::WsError;

verus! {

/// A proxy header takes part in the fallback chain only when it is present
/// and holds at least one character; a header whose value could not be read
/// as a string is handed in as absent.
pub open spec fn header_usable(header: Option<Seq<char>>) -> bool {
    header matches Some(value) && value.len() > 0
}

/// The primary client address, by ordered precedence: the trusted client-IP
/// header first, then the forwarded-for header, then the raw peer address;
/// absent only when all three are unavailable.
pub open spec fn spec_primary_address(
    x_real_ip: Option<Seq<char>>,
    x_forwarded_for: Option<Seq<char>>,
    peer_ip: Option<Seq<char>>,
) -> Option<Seq<char>> {
    if header_usable(x_real_ip) {
        x_real_ip
    } else if header_usable(x_forwarded_for) {
        x_forwarded_for
    } else {
        peer_ip
    }
}

/// Resolves the client's primary address from the two proxy headers and the
/// raw peer address, in that order of precedence. Fails with `IpRequired`
/// exactly when none of the three is usable.
pub fn resolve_ip(
    x_real_ip: Option<String>,
    x_forwarded_for: Option<String>,
    peer_ip: Option<String>,
) -> (resolved: Result<String, WsError>)
    ensures
        spec_primary_address(
            x_real_ip.deep_view(),
            x_forwarded_for.deep_view(),
            peer_ip.deep_view(),
        ) matches Some(address) ==> (resolved matches Ok(ip) && ip@ == address),
        spec_primary_address(
            x_real_ip.deep_view(),
            x_forwarded_for.deep_view(),
            peer_ip.deep_view(),
        ) is None ==> (resolved matches Err(e) && e is IpRequired),
{
    if let Some(ip) = x_real_ip {
        if !ip.as_str().is_empty() {
            return Ok(ip);
        }
    }
    if let Some(ip) = x_forwarded_for {
        if !ip.as_str().is_empty() {
            return Ok(ip);
        }
    }
    if let Some(ip) = peer_ip {
        return Ok(ip);
    }
    Err(WsError::IpRequired)
}

/// Trusted-header precedence: whenever the trusted client-IP header is
/// usable, the primary address is exactly that header's value, whatever the
/// forwarded-for header and the peer address hold.
pub proof fn lemma_real_ip_header_wins(
    x_real_ip: Seq<char>,
    x_forwarded_for: Option<Seq<char>>,
    peer_ip: Option<Seq<char>>,
)
    requires
        x_real_ip.len() > 0,
    ensures
        spec_primary_address(Some(x_real_ip), x_forwarded_for, peer_ip) == Some(x_real_ip),
{
}

/// Peer fallback: when neither proxy header is usable, the primary address
/// is exactly the peer address.
pub proof fn lemma_peer_address_fallback(
    x_real_ip: Option<Seq<char>>,
    x_forwarded_for: Option<Seq<char>>,
    peer_ip: Seq<char>,
)
    requires
        !header_usable(x_real_ip),
        !header_usable(x_forwarded_for),
    ensures
        spec_primary_address(x_real_ip, x_forwarded_for, Some(peer_ip)) == Some(peer_ip),
{
}

} // verus!
