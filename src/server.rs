//! The protected service: it answers with the identity that the interceptor
//! attached to the call.
use vstd::prelude::*;
use crate::validate::AuthError;

verus! {

/// The user service behind the interceptor.
pub struct UsersServerImpl;

impl UsersServerImpl {
    /// The caller's id, from the identity metadata of the call; a call that
    /// carries none did not pass the interceptor.
    pub fn get_user(&self, user_id: Option<String>) -> (r: Result<String, AuthError>)
        ensures
            user_id.is_none() ==> r == Err::<String, AuthError>(AuthError::MissingIdentity),
            user_id.is_some() ==> r is Ok && r->Ok_0@ == user_id.unwrap()@,
    {
        match user_id {
            Some(id) => Ok(id),
            None => Err(AuthError::MissingIdentity),
        }
    }
}

} // verus!
