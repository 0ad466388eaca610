use vstd::prelude::*;

use crate::address::resolve_ip;
use crate::address::spec_primary_address;
use crate::ban::ban_gate;
use crate::error::WsError;
use crate::model::AuthInfo;
use crate::model::Ban;
use crate::model::DbError;
use crate::model::SessionParams;

verus! {

/// Admission succeeds exactly when the ban lookup came back clean and a
/// primary address resolved; only then is a session registered.
pub open spec fn spec_admission_ok(
    ban_lookup: Result<Option<Ban>, DbError>,
    x_real_ip: Option<Seq<char>>,
    x_forwarded_for: Option<Seq<char>>,
    peer_ip: Option<Seq<char>>,
) -> bool {
    &&& ban_lookup matches Ok(None)
    &&& spec_primary_address(x_real_ip, x_forwarded_for, peer_ip) is Some
}

/// The admission pipeline, in strict order: the ban gate first, then
/// address resolution; each failure aborts the attempt. On success the
/// returned parameters are everything the session server needs to register
/// the new session: the identity, the resolved primary address, and the
/// informational proxy-resolved address, attached unchanged.
pub fn admit_connection(
    auth_info: AuthInfo,
    ban_lookup: Result<Option<Ban>, DbError>,
    x_real_ip: Option<String>,
    x_forwarded_for: Option<String>,
    peer_ip: Option<String>,
    real_ip: Option<String>,
) -> (outcome: Result<SessionParams, WsError>)
    ensures
        outcome is Ok <==> spec_admission_ok(
            ban_lookup,
            x_real_ip.deep_view(),
            x_forwarded_for.deep_view(),
            peer_ip.deep_view(),
        ),
        ban_lookup matches Err(db_error) ==> outcome == Err::<SessionParams, WsError>(
            WsError::DbError(db_error),
        ),
        ban_lookup matches Ok(Some(ban)) ==> outcome == Err::<SessionParams, WsError>(
            WsError::Banned(ban),
        ),
        ban_lookup matches Ok(None) && spec_primary_address(
            x_real_ip.deep_view(),
            x_forwarded_for.deep_view(),
            peer_ip.deep_view(),
        ) is None ==> (outcome matches Err(e) && e is IpRequired),
        outcome matches Ok(params) ==> {
            &&& params.auth_info == auth_info
            &&& Some(params.ip@) == spec_primary_address(
                x_real_ip.deep_view(),
                x_forwarded_for.deep_view(),
                peer_ip.deep_view(),
            )
            &&& params.real_ip == real_ip
        },
{
    if let Err(rejection) = ban_gate(ban_lookup) {
        return Err(rejection);
    }
    let ip = match resolve_ip(x_real_ip, x_forwarded_for, peer_ip) {
        Ok(ip) => ip,
        Err(rejection) => {
            return Err(rejection);
        },
    };
    Ok(SessionParams { auth_info, ip, real_ip })
}

/// A banned account is never admitted: whatever the headers and the peer
/// address hold, admission cannot succeed, so no session is registered.
pub proof fn lemma_banned_never_admitted(
    ban: Ban,
    x_real_ip: Option<Seq<char>>,
    x_forwarded_for: Option<Seq<char>>,
    peer_ip: Option<Seq<char>>,
)
    ensures
        !spec_admission_ok(
            Ok::<Option<Ban>, DbError>(Some(ban)),
            x_real_ip,
            x_forwarded_for,
            peer_ip,
        ),
{
}

/// An account with no ban record and a resolvable address is always
/// admitted, and with it exactly the resolved address is registered.
pub proof fn lemma_clean_account_admitted(
    x_real_ip: Option<Seq<char>>,
    x_forwarded_for: Option<Seq<char>>,
    peer_ip: Option<Seq<char>>,
)
    requires
        spec_primary_address(x_real_ip, x_forwarded_for, peer_ip) is Some,
    ensures
        spec_admission_ok(Ok::<Option<Ban>, DbError>(None), x_real_ip, x_forwarded_for, peer_ip),
{
}

/// Without any usable address, admission never succeeds, whatever the ban
/// lookup returned: no session handoff can follow.
pub proof fn lemma_no_address_never_admitted(
    ban_lookup: Result<Option<Ban>, DbError>,
    x_real_ip: Option<Seq<char>>,
    x_forwarded_for: Option<Seq<char>>,
    peer_ip: Option<Seq<char>>,
)
    requires
        spec_primary_address(x_real_ip, x_forwarded_for, peer_ip) is None,
    ensures
        !spec_admission_ok(ban_lookup, x_real_ip, x_forwarded_for, peer_ip),
{
}

} // verus!
