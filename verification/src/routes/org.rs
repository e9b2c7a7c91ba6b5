//! Organizations, for the superadmin.

use crate::data::config::{answers, stored_org, wrote, Database};
use crate::data::conversions::{org_record, primary};
use crate::domain::auth::Context;
use crate::domain::common::is_id;
use crate::domain::org::{CreateOrg, Org};
use crate::error::Error;
use crate::routes::access::{admission, require_superadmin};
use vstd::prelude::*;

verus! {

/// Creates the organization that `payload` asks for and returns it, with
/// its id. For the superadmin only; for anyone else nothing is stored.
pub fn create<D: Database>(database: &mut D, context: &Context, payload: &CreateOrg) -> (res:
    Result<Org, Error>)
    ensures
        final(database).reliable() == old(database).reliable(),
        match admission(context@) {
            Err(refusal) => res == Err::<Org, Error>(refusal) && final(database).rows() == old(
                database,
            ).rows(),
            Ok(()) => match res {
                Ok(org) => {
                    &&& is_id(org@.id, 10)
                    &&& org@.name == payload.name@
                    &&& org@.active
                    &&& final(database).rows() == old(database).rows().insert(
                        primary("ORG#"@, org@.id),
                        org_record(org@),
                    )
                },
                Err(e) => e == Error::Upstream && !old(database).reliable()
                    && final(database).rows() == old(database).rows(),
            },
        },
{
    match require_superadmin(context) {
        Ok(()) => {},
        Err(e) => { return Err(e); },
    }
    Org::create(database, payload)
}

/// The organization stored under `org_id`. For the superadmin only.
pub fn get<D: Database>(database: &D, context: &Context, org_id: &str) -> (res: Result<Org, Error>)
    ensures
        match admission(context@) {
            Err(refusal) => res == Err::<Org, Error>(refusal),
            Ok(()) => answers(res, stored_org(database.rows(), org_id@), database.reliable()),
        },
{
    match require_superadmin(context) {
        Ok(()) => {},
        Err(e) => { return Err(e); },
    }
    Org::from_id(database, org_id)
}

/// Removes the organization stored under `org_id`; where there is none,
/// nothing changes and nothing fails. For the superadmin only.
pub fn delete<D: Database>(database: &mut D, context: &Context, org_id: &str) -> (res: Result<
    (),
    Error,
>)
    ensures
        final(database).reliable() == old(database).reliable(),
        match admission(context@) {
            Err(refusal) => res == Err::<(), Error>(refusal) && final(database).rows() == old(
                database,
            ).rows(),
            Ok(()) => wrote(
                res,
                old(database).rows(),
                final(database).rows(),
                old(database).rows().remove(primary("ORG#"@, org_id@)),
                old(database).reliable(),
            ),
        },
{
    match require_superadmin(context) {
        Ok(()) => {},
        Err(e) => { return Err(e); },
    }
    Org::delete(database, org_id)
}

} // verus!
