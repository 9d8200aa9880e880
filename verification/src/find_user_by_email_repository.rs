use vstd::prelude::*;

use crate::user_model::User;

verus! {

/// The lookup port: queries the persistence boundary for an existing user
/// by email. Implementations live outside this crate (a real datastore, or
/// a test double); whatever else one does, a user it reports as found must
/// carry the queried email.
pub trait FindUserByEmailRepository {
    fn execute(&self, email: String) -> (r: Result<Option<User>, String>)
        ensures
            r matches Ok(found) && found matches Some(u) ==> u.email@ == email@,
    ;
}

} // verus!
