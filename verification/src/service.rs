//! The rules that the service applies to requests.

use crate::field::{shown, ClipError, Password};
use crate::query::DataError;
use vstd::prelude::*;

verus! {

/// Why the service refused a request.
#[derive(Clone, Debug, PartialEq, Eq)]
pub enum ServiceError {
    Clip(ClipError),
    NotFound,
    Data(DataError),
    PermissionError(String),
}

/// Decides whether a clip protected by `clip` may be read by a request that
/// gives the password `given`. A clip without password is open to all; one
/// with a password only to the request that gives the same text, and every
/// other request is refused with `PermissionError`.
pub fn check_password(clip: &Password, given: &Password) -> (allowed: Result<(), ServiceError>)
    ensures
        allowed is Ok <==> (clip@ is None || shown(clip@) == shown(given@)),
        allowed is Err ==> allowed->Err_0 is PermissionError
            && allowed->Err_0->PermissionError_0@ == "Invalid password"@,
{
    if clip.has_password() {
        if clip.same_text(given) {
            Ok(())
        } else {
            Err(ServiceError::PermissionError("Invalid password".to_owned()))
        }
    } else {
        Ok(())
    }
}

} // verus!
