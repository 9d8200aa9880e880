use vstd::prelude::*;

use crate::user_model::User;
use crate::user_model::UserPublic;
use crate::user_model::user_public_of;

verus! {

/// The create port: persists a fully-formed user record. On success it
/// returns exactly the record's public projection -- the persisted user
/// minus the password hash; the record itself is owned by the persistence
/// boundary from then on. Implementations live outside this crate.
pub trait CreateUserRepository {
    fn execute(&self, user: User) -> (r: Result<UserPublic, String>)
        ensures
            r matches Ok(p) ==> p == user_public_of(user),
    ;
}

} // verus!
