//! Datasets: a named table of a connector, with its schema and labels.

use crate::data::config::{answers_listing, dataset_listing, Database};
use crate::data::conversions::{decode_dataset, is_dataset_record, primary};
use crate::data::json::opt_map;
use crate::data::record::RecordView;
use crate::domain::common::{create_id, is_id};
use crate::domain::connector::{DataInfo, Registry, Trait};
use crate::error::Error;
use crate::text::opt_text;
use std::collections::HashMap;
use vstd::prelude::*;

verus! {

/// A dataset.
#[derive(Debug)]
pub struct Dataset {
    pub id: String,
    pub name: String,
    pub provider: Option<String>,
    /// The connector that the data comes through.
    pub connector_id: String,
    /// Where the data is at the source, such as `schema.table`.
    pub path: String,
    pub description: String,
    /// Each column's name with the name of its type.
    pub schema: HashMap<String, String>,
    pub tags: Vec<String>,
    pub metadata: Option<HashMap<String, String>>,
}

/// What a `Dataset` stands for.
pub struct DatasetView {
    pub id: Seq<char>,
    pub name: Seq<char>,
    pub provider: Option<Seq<char>>,
    pub connector_id: Seq<char>,
    pub path: Seq<char>,
    pub description: Seq<char>,
    pub schema: Map<Seq<char>, Seq<char>>,
    pub tags: Seq<Seq<char>>,
    pub metadata: Option<Map<Seq<char>, Seq<char>>>,
}

impl View for Dataset {
    type V = DatasetView;

    open spec fn view(&self) -> DatasetView {
        DatasetView {
            id: self.id@,
            name: self.name@,
            provider: opt_text(self.provider),
            connector_id: self.connector_id@,
            path: self.path@,
            description: self.description@,
            schema: self.schema.deep_view(),
            tags: self.tags.deep_view(),
            metadata: opt_map(self.metadata),
        }
    }
}

/// What is asked of a new dataset. Its schema is not given: it is read from
/// the connector.
#[derive(Debug)]
pub struct CreateDataset {
    pub name: String,
    pub provider: Option<String>,
    pub connector_id: String,
    pub path: String,
    pub description: String,
    pub tags: Vec<String>,
    pub metadata: Option<HashMap<String, String>>,
}

/// The dataset that `p` asks for, under `id` and with schema `schema`.
pub open spec fn dataset_from(
    p: CreateDataset,
    id: Seq<char>,
    schema: Map<Seq<char>, Seq<char>>,
) -> DatasetView {
    DatasetView {
        id,
        name: p.name@,
        provider: opt_text(p.provider),
        connector_id: p.connector_id@,
        path: p.path@,
        description: p.description@,
        schema,
        tags: p.tags.deep_view(),
        metadata: opt_map(p.metadata),
    }
}

impl Dataset {
    /// The dataset that `payload` asks for, under `id` and with the schema
    /// that its connector reported.
    pub fn from_create(id: String, payload: CreateDataset, schema: HashMap<String, String>) -> (dataset:
        Dataset)
        ensures
            dataset@ == dataset_from(payload, id@, schema.deep_view()),
    {
        Dataset {
            id,
            name: payload.name,
            provider: payload.provider,
            connector_id: payload.connector_id,
            path: payload.path,
            description: payload.description,
            schema,
            tags: payload.tags,
            metadata: payload.metadata,
        }
    }

    /// Stores the dataset that `payload` asks for under `id`, with the
    /// schema that its connector gave in `described`. Where the connector
    /// failed, this fails as the connector did and stores nothing.
    pub fn create_described<D: Database>(
        database: &mut D,
        id: String,
        payload: CreateDataset,
        described: Result<DataInfo, Error>,
    ) -> (res: Result<(), Error>)
        ensures
            final(database).reliable() == old(database).reliable(),
            match described {
                Err(failure) => res == Err::<(), Error>(failure) && final(database).rows() == old(
                    database,
                ).rows(),
                Ok(info) => {
                    let key = primary("DATASET#"@, id@);
                    let made = dataset_from(payload, id@, info@.schema);
                    match res {
                        Ok(()) => {
                            &&& final(database).rows().contains_key(key)
                            &&& is_dataset_record(final(database).rows()[key], made)
                            &&& decode_dataset(final(database).rows()[key]) == Some(made)
                            &&& final(database).rows() == old(database).rows().insert(
                                key,
                                final(database).rows()[key],
                            )
                        },
                        Err(e) => e == Error::Upstream && !old(database).reliable()
                            && final(database).rows() == old(database).rows(),
                    }
                },
            },
    {
        match described {
            Ok(info) => database.create_dataset(Dataset::from_create(id, payload, info.schema)),
            Err(e) => Err(e),
        }
    }

    /// Creates and stores the dataset that `payload` asks for, under a
    /// fresh id of eight characters. The connector that
    /// `payload.connector_id` names has to be among `connections`, or this
    /// fails with `Error::NotFound`. The connector is asked for the schema of
    /// the table at `payload.path`, and `create_described` does the rest:
    /// where the connector fails, so does this, and nothing is stored.
    pub fn create<D: Database, C: Trait>(
        database: &mut D,
        connections: &Registry<C>,
        payload: CreateDataset,
    ) -> (res: Result<(), Error>)
        ensures
            final(database).reliable() == old(database).reliable(),
            match res {
                Ok(()) => connections@.contains_key(payload.connector_id@) && exists|
                    id: Seq<char>,
                    schema: Map<Seq<char>, Seq<char>>,
                |
                    {
                        let key = #[trigger] primary("DATASET#"@, id);
                        let made = #[trigger] dataset_from(payload, id, schema);
                        &&& is_id(id, 8)
                        &&& final(database).rows().contains_key(key)
                        &&& is_dataset_record(final(database).rows()[key], made)
                        &&& decode_dataset(final(database).rows()[key]) == Some(made)
                        &&& final(database).rows() == old(database).rows().insert(
                            key,
                            final(database).rows()[key],
                        )
                    },
                Err(e) => final(database).rows() == old(database).rows() && (
                !connections@.contains_key(payload.connector_id@) ==> e == Error::NotFound),
            },
    {
        let connector = match connections.get(payload.connector_id.as_str()) {
            Some(connector) => connector,
            None => { return Err(Error::NotFound); },
        };
        let described = connector.get_data_info(payload.path.as_str());
        let id = create_id(8);
        let ghost made = dataset_from(payload, id@, described->Ok_0@.schema);
        let res = Dataset::create_described(database, id, payload, described);
        assert(res is Ok ==> made == dataset_from(payload, made.id, made.schema));
        res
    }

    /// All datasets.
    pub fn get_all<D: Database>(database: &D) -> (res: Result<Vec<Dataset>, Error>)
        ensures
            answers_listing(
                dataset_listing(res),
                database.rows(),
                "TYPE#DATASET"@,
                |r: RecordView| decode_dataset(r),
                database.reliable(),
            ),
    {
        database.get_datasets()
    }
}

} // verus!
