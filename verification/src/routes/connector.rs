//! Connectors: creation by the superadmin, and the redacted listing.

use crate::data::config::{connector_views, holds_malformed, lists, Database};
use crate::data::conversions::{connector_record, decode_connector, primary};
use crate::data::record::RecordView;
use crate::domain::auth::Context;
use crate::domain::common::is_id;
use crate::domain::connector::{details_from, shown, Create, Details, DetailsView, Registry, Trait};
use crate::error::Error;
use crate::routes::access::{admission, require_superadmin};
use vstd::prelude::*;

verus! {

/// Stores the connector that `payload` asks for, as the kind of data source
/// `C` makes its record. For the superadmin only; for anyone else nothing
/// is stored.
pub fn create<D: Database, C: Trait>(database: &mut D, context: &Context, payload: Create) -> (res:
    Result<(), Error>)
    ensures
        final(database).reliable() == old(database).reliable(),
        match admission(context@) {
            Err(refusal) => res == Err::<(), Error>(refusal) && final(database).rows() == old(
                database,
            ).rows(),
            Ok(()) => match res {
                Ok(()) => exists|id: Seq<char>|
                    is_id(id, 8) && final(database).rows() == old(database).rows().insert(
                        primary("CONNECTOR#"@, id),
                        #[trigger] connector_record(details_from(payload, id)),
                    ),
                Err(e) => e == Error::Upstream && !old(database).reliable()
                    && final(database).rows() == old(database).rows(),
            },
        },
{
    match require_superadmin(context) {
        Ok(()) => {},
        Err(e) => { return Err(e); },
    }
    C::create_record(database, payload)
}

/// All connectors, each with its connection string blanked out. For the
/// superadmin only.
pub fn get<D: Database>(database: &D, context: &Context) -> (res: Result<Vec<Details>, Error>)
    ensures
        match admission(context@) {
            Err(refusal) => res == Err::<Vec<Details>, Error>(refusal),
            Ok(()) => match res {
                Ok(found) => exists|stored: Seq<DetailsView>|
                    {
                        &&& lists(
                            stored,
                            database.rows(),
                            "TYPE#CONNECTOR"@,
                            |r: RecordView| decode_connector(r),
                        )
                        &&& connector_views(found@) == #[trigger] shown(stored, true)
                    },
                Err(Error::Decode) => holds_malformed(
                    database.rows(),
                    "TYPE#CONNECTOR"@,
                    |r: RecordView| decode_connector(r),
                ),
                Err(e) => e == Error::Upstream && !database.reliable(),
            },
        },
        res matches Ok(found) ==> forall|i: int|
            0 <= i < found@.len() ==> (#[trigger] found@[i]).connection_string@ == "***"@,
{
    match require_superadmin(context) {
        Ok(()) => {},
        Err(e) => { return Err(e); },
    }
    Details::get_connector_details(database, true)
}

/// The tables that the connector known under `connector_id` offers. Where
/// `connections` holds no such connector, this fails with
/// `Error::NotFound`. For the superadmin only: anyone else is refused before
/// a connector is asked.
pub fn all_datasets<C: Trait>(context: &Context, connections: &Registry<C>, connector_id: &str) -> (res:
    Result<Vec<String>, Error>)
    ensures
        admission(context@) matches Err(refusal) ==> res == Err::<Vec<String>, Error>(refusal),
        admission(context@) is Ok && !connections@.contains_key(connector_id@) ==> res == Err::<
            Vec<String>,
            Error,
        >(Error::NotFound),
{
    match require_superadmin(context) {
        Ok(()) => {},
        Err(e) => { return Err(e); },
    }
    match connections.get(connector_id) {
        Some(connector) => connector.get_available_datasets(),
        None => Err(Error::NotFound),
    }
}

} // verus!
