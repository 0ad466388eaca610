use vstd::prelude::*;

use crate::error::WsError;
use crate::model::Ban;
use crate::model::DbError;

verus! {

/// The ban gate. Takes the outcome of the storage layer's ban lookup and
/// decides whether admission may continue: a ban record is a terminal
/// rejection, a failed lookup is forwarded as a storage failure, and only a
/// clean lookup lets the pipeline proceed.
pub fn ban_gate(ban_lookup: Result<Option<Ban>, DbError>) -> (verdict: Result<(), WsError>)
    ensures
        verdict is Ok <==> ban_lookup matches Ok(None),
        ban_lookup matches Ok(Some(ban)) ==> verdict == Err::<(), WsError>(WsError::Banned(ban)),
        ban_lookup matches Err(db_error) ==> verdict == Err::<(), WsError>(
            WsError::DbError(db_error),
        ),
{
    match ban_lookup {
        Ok(None) => Ok(()),
        Ok(Some(ban)) => Err(WsError::Banned(ban)),
        Err(db_error) => Err(WsError::DbError(db_error)),
    }
}

} // verus!
