use vstd::prelude::*;

verus! {

/// Identity record obtained from the credential subsystem. Authentication
/// happens upstream of admission; the pipeline only reads the account
/// identifier.
#[derive(Clone, Copy, Debug, PartialEq, Eq, Structural)]
pub struct AuthInfo {
    pub account_id: i32,
}

impl AuthInfo {
    /// The identifier of the account this identity belongs to.
    pub fn get_account_id(&self) -> (id: i32)
        ensures
            id == self.account_id,
    {
        self.account_id
    }
}

/// An active prohibition on an account, as read from persistent storage.
/// Admission treats the record as data: the reason is echoed in the
/// rejection message, nothing else is interpreted.
#[derive(Clone, Debug)]
pub struct Ban {
    pub reason: String,
}

/// A failed ban lookup, carrying the status code and body that the storage
/// layer's own classifier chose for it. Admission forwards both unchanged.
#[derive(Clone, Debug)]
pub struct DbError {
    pub status: u16,
    pub message: String,
}

/// Everything a successful admission hands to the session server: the
/// identity, the resolved primary address, and the best-effort
/// proxy-resolved address, which is informational only.
#[derive(Clone, Debug)]
pub struct SessionParams {
    pub auth_info: AuthInfo,
    pub ip: String,
    pub real_ip: Option<String>,
}

} // verus!
