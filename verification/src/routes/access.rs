//! Who may administer: what the operations behind the guard ask of the
//! caller's role.

use crate::domain::auth::{Context, ContextView};
use crate::domain::user::Profile;
use crate::error::Error;
use crate::text::str_eq;
use vstd::prelude::*;

verus! {

/// The roles a user can have.
#[derive(Clone, Copy, Debug, PartialEq, Eq, Structural)]
pub enum Role {
    /// May create and remove what the system keeps.
    Superadmin,
    /// May read what its session lets it read.
    Member,
}

impl Role {
    /// The role that the tag `tag` names: `superadmin` names the
    /// superadmin, and every other tag a member.
    pub open spec fn spec_of(tag: Seq<char>) -> Role {
        if tag == "superadmin"@ {
            Role::Superadmin
        } else {
            Role::Member
        }
    }

    /// The role that the tag `tag` names.
    pub fn of(tag: &str) -> (role: Role)
        ensures
            role == Role::spec_of(tag@),
    {
        if str_eq(tag, "superadmin") {
            Role::Superadmin
        } else {
            Role::Member
        }
    }

    /// Whether this role may create and remove entities.
    pub open spec fn spec_may_administer(self) -> bool {
        self == Role::Superadmin
    }

    /// Whether this role may create and remove entities.
    #[verifier::when_used_as_spec(spec_may_administer)]
    pub fn may_administer(self) -> (yes: bool)
        ensures
            yes == self.spec_may_administer(),
    {
        match self {
            Role::Superadmin => true,
            Role::Member => false,
        }
    }
}

/// What the caller in `context` is owed where it asks for an operation of
/// the superadmin: `Unauthorized` without an identity, `Forbidden` with one
/// of another role.
pub open spec fn admission(context: ContextView) -> Result<(), Error> {
    match context.identity {
        None => Err(Error::Unauthorized),
        Some(user) => if Role::spec_of(user.role).spec_may_administer() {
            Ok(())
        } else {
            Err(Error::Forbidden)
        },
    }
}

/// Admits the caller in `context` to an operation of the superadmin.
pub fn require_superadmin(context: &Context) -> (res: Result<(), Error>)
    ensures
        res == admission(context@),
{
    match &context.identity {
        None => Err(Error::Unauthorized),
        Some(user) => if Role::of(user.role.as_str()).may_administer() {
            Ok(())
        } else {
            Err(Error::Forbidden)
        },
    }
}

/// Whether `user` may administer.
pub fn is_superadmin(user: &Profile) -> (yes: bool)
    ensures
        yes == Role::spec_of(user@.role).spec_may_administer(),
{
    Role::of(user.role.as_str()).may_administer()
}

} // verus!
