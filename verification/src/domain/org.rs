//! Organizations.

use crate::data::config::{answers, stored_org, wrote, Database};
use crate::data::conversions::{org_record, primary};
use crate::domain::common::{create_id, is_id};
use crate::error::Error;
use vstd::prelude::*;

verus! {

/// An organization.
#[derive(Debug)]
pub struct Org {
    pub id: String,
    pub name: String,
    pub active: bool,
}

/// What an `Org` stands for.
pub struct OrgView {
    pub id: Seq<char>,
    pub name: Seq<char>,
    pub active: bool,
}

impl View for Org {
    type V = OrgView;

    open spec fn view(&self) -> OrgView {
        OrgView { id: self.id@, name: self.name@, active: self.active }
    }
}

/// What is asked of a new organization.
#[derive(Debug)]
pub struct CreateOrg {
    pub name: String,
}

impl Org {
    /// Creates and stores an active organization named as `payload` says,
    /// under a fresh id of ten characters, and returns it.
    pub fn create<T: Database>(database: &mut T, payload: &CreateOrg) -> (res: Result<Org, Error>)
        ensures
            final(database).reliable() == old(database).reliable(),
            old(database).reliable() ==> res is Ok,
            match res {
                Ok(org) => {
                    &&& is_id(org@.id, 10)
                    &&& org@.name == payload.name@
                    &&& org@.active
                    &&& final(database).rows() == old(database).rows().insert(
                        primary("ORG#"@, org@.id),
                        org_record(org@),
                    )
                },
                Err(e) => e == Error::Upstream && !old(database).reliable()
                    && final(database).rows() == old(database).rows(),
            },
    {
        let org = Org { id: create_id(10), name: payload.name.clone(), active: true };
        match database.create_org(&org) {
            Ok(()) => Ok(org),
            Err(e) => Err(e),
        }
    }

    /// The organization stored under `id`.
    pub fn from_id<T: Database>(database: &T, id: &str) -> (res: Result<Org, Error>)
        ensures
            answers(res, stored_org(database.rows(), id@), database.reliable()),
    {
        database.get_org_by_id(id)
    }

    /// Removes the organization stored under `id`. Where there is none,
    /// nothing changes and nothing fails.
    pub fn delete<T: Database>(database: &mut T, id: &str) -> (res: Result<(), Error>)
        ensures
            final(database).reliable() == old(database).reliable(),
            old(database).reliable() ==> res is Ok,
            wrote(
                res,
                old(database).rows(),
                final(database).rows(),
                old(database).rows().remove(primary("ORG#"@, id@)),
                old(database).reliable(),
            ),
    {
        database.delete_org(id)
    }
}

} // verus!
