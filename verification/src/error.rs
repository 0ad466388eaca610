use vstd::prelude::*;
use vstd::string::StringExecFns;

use crate::model::Ban;
use crate::model::DbError;

verus! {

/// Status reported when no usable client address could be found.
pub const STATUS_BAD_REQUEST: u16 = 400;

/// Status reported when the account is banned.
pub const STATUS_FORBIDDEN: u16 = 403;

/// Status reported when the transport-level upgrade failed.
pub const STATUS_INTERNAL_SERVER_ERROR: u16 = 500;

/// Why an admission attempt was rejected. The set is closed: every failure
/// of the pipeline is wrapped into one of these kinds before it reaches the
/// classifier.
#[derive(Debug)]
pub enum WsError {
    /// No usable client address in the proxy headers or the peer connection.
    IpRequired,
    /// The transport-level protocol upgrade was rejected; carries the
    /// transport's own description of the failure.
    Actix(String),
    /// The account has an active ban record.
    Banned(Ban),
    /// The ban lookup itself failed; the storage layer's classification is
    /// forwarded unchanged.
    DbError(DbError),
}

impl WsError {
    /// The status code the classifier reports for this failure. A function
    /// of the error value alone: repeated calls on equal values agree.
    pub open spec fn spec_status(&self) -> u16 {
        match self {
            WsError::IpRequired => STATUS_BAD_REQUEST,
            WsError::Actix(_) => STATUS_INTERNAL_SERVER_ERROR,
            WsError::Banned(_) => STATUS_FORBIDDEN,
            WsError::DbError(db_error) => db_error.status,
        }
    }

    /// The response body the classifier reports for this failure. For a ban,
    /// the record's reason is carried into the body; for a storage failure,
    /// the storage layer's own body is forwarded unchanged.
    pub open spec fn spec_message(&self) -> Seq<char> {
        match self {
            WsError::IpRequired => "IP address could not be read"@,
            WsError::Actix(detail) => "[Actix]: "@ + detail@,
            WsError::Banned(ban) => "[Banned]: "@ + ban.reason@,
            WsError::DbError(db_error) => db_error.message@,
        }
    }

    /// The status code for this failure.
    pub fn status_code(&self) -> (status: u16)
        ensures
            status == self.spec_status(),
    {
        match self {
            WsError::IpRequired => STATUS_BAD_REQUEST,
            WsError::Actix(_) => STATUS_INTERNAL_SERVER_ERROR,
            WsError::Banned(_) => STATUS_FORBIDDEN,
            WsError::DbError(db_error) => db_error.status,
        }
    }

    /// The human-readable body for this failure.
    pub fn message(&self) -> (body: String)
        ensures
            body@ == self.spec_message(),
    {
        match self {
            WsError::IpRequired => "IP address could not be read".to_owned(),
            WsError::Actix(detail) => "[Actix]: ".to_owned().concat(detail.as_str()),
            WsError::Banned(ban) => "[Banned]: ".to_owned().concat(ban.reason.as_str()),
            WsError::DbError(db_error) => db_error.message.clone(),
        }
    }

    /// The full classification of this failure: status code and body.
    pub fn error_response(&self) -> (response: (u16, String))
        ensures
            response.0 == self.spec_status(),
            response.1@ == self.spec_message(),
    {
        (self.status_code(), self.message())
    }
}

/// The classifier is total and deterministic: each failure kind maps to
/// exactly one status code, fixed by the error value alone, and a storage
/// failure is reported with the status the storage layer chose.
pub proof fn lemma_status_mapping(error: &WsError)
    ensures
        error is IpRequired ==> error.spec_status() == STATUS_BAD_REQUEST,
        error is Actix ==> error.spec_status() == STATUS_INTERNAL_SERVER_ERROR,
        error is Banned ==> error.spec_status() == STATUS_FORBIDDEN,
        error matches WsError::DbError(db_error) ==> error.spec_status() == db_error.status,
{
}

} // verus!
