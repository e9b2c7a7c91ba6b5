//! Datasets: the listing for everyone the guard lets through, and creation
//! by the superadmin.

use crate::data::config::{answers_listing, dataset_listing, Database};
use crate::data::conversions::{decode_dataset, is_dataset_record, primary};
use crate::data::record::RecordView;
use crate::domain::auth::Context;
use crate::domain::common::is_id;
use crate::domain::connector::{Registry, Trait};
use crate::domain::dataset::{dataset_from, CreateDataset, Dataset};
use crate::error::Error;
use crate::routes::access::{admission, require_superadmin};
use vstd::prelude::*;

verus! {

/// All datasets. Whoever passed the guard may list them, anonymous or not:
/// the context is not looked at.
pub fn get<D: Database>(database: &D, _context: &Context) -> (res: Result<Vec<Dataset>, Error>)
    ensures
        answers_listing(
            dataset_listing(res),
            database.rows(),
            "TYPE#DATASET"@,
            |r: RecordView| decode_dataset(r),
            database.reliable(),
        ),
{
    Dataset::get_all(database)
}

/// Creates the dataset that `payload` asks for; see `Dataset::create`. For
/// the superadmin only: anyone else is refused before the connector is
/// asked, and nothing is stored.
pub fn create<D: Database, C: Trait>(
    database: &mut D,
    context: &Context,
    connections: &Registry<C>,
    payload: CreateDataset,
) -> (res: Result<(), Error>)
    ensures
        final(database).reliable() == old(database).reliable(),
        match admission(context@) {
            Err(refusal) => res == Err::<(), Error>(refusal) && final(database).rows() == old(
                database,
            ).rows(),
            Ok(()) => match res {
                Ok(()) => connections@.contains_key(payload.connector_id@) && exists|
                    id: Seq<char>,
                    schema: Map<Seq<char>, Seq<char>>,
                |
                    {
                        let key = #[trigger] primary("DATASET#"@, id);
                        let made = #[trigger] dataset_from(payload, id, schema);
                        &&& is_id(id, 8)
                        &&& final(database).rows().contains_key(key)
                        &&& is_dataset_record(final(database).rows()[key], made)
                        &&& decode_dataset(final(database).rows()[key]) == Some(made)
                        &&& final(database).rows() == old(database).rows().insert(
                            key,
                            final(database).rows()[key],
                        )
                    },
                Err(e) => final(database).rows() == old(database).rows() && (
                !connections@.contains_key(payload.connector_id@) ==> e == Error::NotFound),
            },
        },
{
    match require_superadmin(context) {
        Ok(()) => {},
        Err(e) => { return Err(e); },
    }
    Dataset::create(database, connections, payload)
}

} // verus!
