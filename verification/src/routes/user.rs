//! Users: the caller's own profile, and registration by the superadmin.

use crate::data::config::{with_user, with_user_only, Database};
use crate::domain::auth::Context;
use crate::domain::user::{hashable, is_new_user, CreateUser, Profile, ProfileView, User, UserView};
use crate::error::Error;
use crate::routes::access::{admission, require_superadmin};
use vstd::prelude::*;

verus! {

/// What an optional profile stands for.
pub open spec fn opt_profile(p: Option<Profile>) -> Option<ProfileView> {
    match p {
        Some(p) => Some(p@),
        None => None,
    }
}

/// The profile of the caller in `context`; `None` for an anonymous caller.
pub fn profile(context: Context) -> (shown: Option<Profile>)
    ensures
        opt_profile(shown) == context@.identity,
{
    context.identity
}

/// Registers the user that `payload` asks for. For the superadmin only;
/// for anyone else nothing is stored. For the superadmin it succeeds on a
/// reliable store, unless the password is too long to hash.
pub fn create<D: Database>(database: &mut D, context: &Context, payload: &CreateUser) -> (res:
    Result<(), Error>)
    ensures
        final(database).reliable() == old(database).reliable(),
        match admission(context@) {
            Err(refusal) => res == Err::<(), Error>(refusal) && final(database).rows() == old(
                database,
            ).rows(),
            Ok(()) => match res {
                Ok(()) => exists|u: UserView|
                    is_new_user(u, payload@) && final(database).rows() == #[trigger] with_user(
                        old(database).rows(),
                        u,
                    ),
                Err(e) => {
                    &&& e == Error::Upstream
                    &&& !hashable(payload@.password) || !old(database).reliable()
                    &&& !hashable(payload@.password) ==> final(database).rows() == old(
                        database,
                    ).rows()
                    &&& final(database).rows() == old(database).rows() || exists|u: UserView|
                        is_new_user(u, payload@) && final(database).rows() == #[trigger] with_user_only(
                            old(database).rows(),
                            u,
                        )
                },
            },
        },
{
    match require_superadmin(context) {
        Ok(()) => {},
        Err(e) => { return Err(e); },
    }
    User::create(database, payload)
}

} // verus!
