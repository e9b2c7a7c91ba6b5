//! Teams, for the superadmin.

use crate::data::config::{answers, stored_team, Database};
use crate::data::conversions::{primary, team_record};
use crate::domain::auth::Context;
use crate::domain::common::is_id;
use crate::domain::team::{CreateTeam, Team};
use crate::error::Error;
use crate::routes::access::{admission, require_superadmin};
use vstd::prelude::*;

verus! {

/// Creates the team that `payload` asks for and returns it, with its id.
/// For the superadmin only; for anyone else nothing is stored.
pub fn create_team<D: Database>(database: &mut D, context: &Context, payload: &CreateTeam) -> (res:
    Result<Team, Error>)
    ensures
        final(database).reliable() == old(database).reliable(),
        match admission(context@) {
            Err(refusal) => res == Err::<Team, Error>(refusal) && final(database).rows() == old(
                database,
            ).rows(),
            Ok(()) => match res {
                Ok(team) => {
                    &&& is_id(team@.id, 10)
                    &&& team@.name == payload.name@
                    &&& team@.active
                    &&& final(database).rows() == old(database).rows().insert(
                        primary("TEAM#"@, team@.id),
                        team_record(team@),
                    )
                },
                Err(e) => e == Error::Upstream && !old(database).reliable()
                    && final(database).rows() == old(database).rows(),
            },
        },
{
    match require_superadmin(context) {
        Ok(()) => {},
        Err(e) => { return Err(e); },
    }
    Team::create(database, payload)
}

/// The team stored under `team_id`. For the superadmin only.
pub fn get_team<D: Database>(database: &D, context: &Context, team_id: &str) -> (res: Result<
    Team,
    Error,
>)
    ensures
        match admission(context@) {
            Err(refusal) => res == Err::<Team, Error>(refusal),
            Ok(()) => answers(res, stored_team(database.rows(), team_id@), database.reliable()),
        },
{
    match require_superadmin(context) {
        Ok(()) => {},
        Err(e) => { return Err(e); },
    }
    Team::from_id(database, team_id)
}

} // verus!
