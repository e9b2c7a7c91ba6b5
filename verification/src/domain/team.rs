//! Teams.

use crate::data::config::{answers, stored_team, Database};
use crate::data::conversions::{primary, team_record};
use crate::domain::common::{create_id, is_id};
use crate::error::Error;
use vstd::prelude::*;

verus! {

/// A team.
#[derive(Debug)]
pub struct Team {
    pub id: String,
    pub name: String,
    pub active: bool,
}

/// What a `Team` stands for.
pub struct TeamView {
    pub id: Seq<char>,
    pub name: Seq<char>,
    pub active: bool,
}

impl View for Team {
    type V = TeamView;

    open spec fn view(&self) -> TeamView {
        TeamView { id: self.id@, name: self.name@, active: self.active }
    }
}

/// What is asked of a new team.
#[derive(Debug)]
pub struct CreateTeam {
    pub name: String,
}

impl Team {
    /// Creates and stores an active team named as `payload` says, under a
    /// fresh id of ten characters, and returns it.
    pub fn create<T: Database>(database: &mut T, payload: &CreateTeam) -> (res: Result<Team, Error>)
        ensures
            final(database).reliable() == old(database).reliable(),
            old(database).reliable() ==> res is Ok,
            match res {
                Ok(team) => {
                    &&& is_id(team@.id, 10)
                    &&& team@.name == payload.name@
                    &&& team@.active
                    &&& final(database).rows() == old(database).rows().insert(
                        primary("TEAM#"@, team@.id),
                        team_record(team@),
                    )
                },
                Err(e) => e == Error::Upstream && !old(database).reliable()
                    && final(database).rows() == old(database).rows(),
            },
    {
        let team = Team { id: create_id(10), name: payload.name.clone(), active: true };
        match database.create_team(&team) {
            Ok(()) => Ok(team),
            Err(e) => Err(e),
        }
    }

    /// The team stored under `id`.
    pub fn from_id<T: Database>(database: &T, id: &str) -> (res: Result<Team, Error>)
        ensures
            answers(res, stored_team(database.rows(), id@), database.reliable()),
    {
        database.get_team_by_id(id)
    }
}

} // verus!
