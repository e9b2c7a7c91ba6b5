//! Connectors: the stored details of an external data source, and what such
//! a source can be asked.

use crate::data::config::{connector_views, holds_malformed, lists, Database};
use crate::data::conversions::{connector_record, decode_connector, primary};
use crate::data::record::RecordView;
use crate::domain::common::{create_id, is_id};
use crate::error::Error;
use crate::text::str_eq;
use std::collections::HashMap;
use vstd::prelude::*;

verus! {

/// The kinds of data source.
#[derive(Clone, Copy, Debug, PartialEq, Eq, Structural)]
pub enum Type {
    /// A PostgreSQL database.
    Postgres,
}

impl Type {
    /// The name a kind is stored under.
    pub open spec fn spec_name(self) -> Seq<char> {
        match self {
            Type::Postgres => "postgres"@,
        }
    }

    /// The kind that `name` names, if it names one.
    pub open spec fn spec_parse(name: Seq<char>) -> Option<Type> {
        if name == "postgres"@ {
            Some(Type::Postgres)
        } else {
            None
        }
    }

    /// The name this kind is stored under.
    pub fn name(self) -> (n: &'static str)
        ensures
            n@ == self.spec_name(),
    {
        match self {
            Type::Postgres => "postgres",
        }
    }

    /// The name this kind is stored under, as an owned string.
    pub fn to_string(self) -> (n: String)
        ensures
            n@ == self.spec_name(),
    {
        self.name().to_owned()
    }

    /// The kind that `name` names; `None` where it names none.
    pub fn parse(name: &str) -> (kind: Option<Type>)
        ensures
            kind == Type::spec_parse(name@),
    {
        if str_eq(name, "postgres") {
            Some(Type::Postgres)
        } else {
            None
        }
    }

    /// Every kind is found again under its own name.
    pub proof fn lemma_parse_name(self)
        ensures
            Type::spec_parse(self.spec_name()) == Some(self),
    {
    }
}

/// What is asked of a new connector.
#[derive(Debug)]
pub struct Create {
    pub name: String,
    pub kind: Type,
    pub connection_string: String,
}

/// The stored details of a connector.
#[derive(Debug)]
pub struct Details {
    pub id: String,
    pub name: String,
    pub kind: Type,
    /// How to reach the data source. Never shown to callers without privilege.
    pub connection_string: String,
}

/// What a `Details` stands for.
pub struct DetailsView {
    pub id: Seq<char>,
    pub name: Seq<char>,
    pub kind: Type,
    pub connection_string: Seq<char>,
}

impl View for Details {
    type V = DetailsView;

    open spec fn view(&self) -> DetailsView {
        DetailsView {
            id: self.id@,
            name: self.name@,
            kind: self.kind,
            connection_string: self.connection_string@,
        }
    }
}

/// What a data source says of one of its tables.
#[derive(Debug)]
pub struct DataInfo {
    /// The table, as `schema.table`.
    pub path: String,
    /// Each column's name with the name of its type.
    pub schema: HashMap<String, String>,
}

/// What a `DataInfo` stands for.
pub struct DataInfoView {
    pub path: Seq<char>,
    pub schema: Map<Seq<char>, Seq<char>>,
}

impl View for DataInfo {
    type V = DataInfoView;

    open spec fn view(&self) -> DataInfoView {
        DataInfoView { path: self.path@, schema: self.schema.deep_view() }
    }
}

/// `c` with its connection string blanked out.
pub open spec fn redacted(c: DetailsView) -> DetailsView {
    DetailsView { connection_string: "***"@, ..c }
}

/// The connectors `stored` as they are shown: each redacted where `hide` is
/// set, each as it is otherwise.
pub open spec fn shown(stored: Seq<DetailsView>, hide: bool) -> Seq<DetailsView> {
    Seq::new(
        stored.len(),
        |i: int|
            if hide {
                redacted(stored[i])
            } else {
                stored[i]
            },
    )
}

impl Details {
    /// A copy of these details with the connection string blanked out.
    pub fn redact(&self) -> (copy: Details)
        ensures
            copy@ == redacted(self@),
    {
        Details {
            id: self.id.clone(),
            name: self.name.clone(),
            kind: self.kind,
            connection_string: "***".to_owned(),
        }
    }

    /// All connectors. With `hide_connection_string` set, every connection
    /// string in the answer is `***`: the redaction is made here, on
    /// reading, and the table keeps the strings as they are.
    pub fn get_connector_details<D: Database>(database: &D, hide_connection_string: bool) -> (res:
        Result<Vec<Details>, Error>)
        ensures
            match res {
                Ok(found) => exists|stored: Seq<DetailsView>|
                    {
                        &&& lists(
                            stored,
                            database.rows(),
                            "TYPE#CONNECTOR"@,
                            |r: RecordView| decode_connector(r),
                        )
                        &&& connector_views(found@) == #[trigger] shown(
                            stored,
                            hide_connection_string,
                        )
                    },
                Err(Error::Decode) => holds_malformed(
                    database.rows(),
                    "TYPE#CONNECTOR"@,
                    |r: RecordView| decode_connector(r),
                ),
                Err(e) => e == Error::Upstream && !database.reliable(),
            },
            hide_connection_string ==> (res matches Ok(found) ==> forall|i: int|
                0 <= i < found@.len() ==> (#[trigger] found@[i]).connection_string@ == "***"@),
    {
        let connectors = match database.get_connectors() {
            Ok(connectors) => connectors,
            Err(e) => { return Err(e); },
        };
        let ghost stored = connector_views(connectors@);
        if !hide_connection_string {
            assert(connector_views(connectors@) =~= shown(stored, false));
            return Ok(connectors);
        }
        let mut found: Vec<Details> = Vec::new();
        let n = connectors.len();
        let mut i: usize = 0;
        while i < n
            invariant
                n == connectors@.len(),
                i <= n,
                found@.len() == i,
                forall|j: int| 0 <= j < i ==> (#[trigger] found@[j])@ == redacted(connectors@[j]@),
            decreases n - i,
        {
            found.push(connectors[i].redact());
            i += 1;
        }
        assert(connector_views(found@) =~= shown(stored, true));
        Ok(found)
    }
}

/// What became of `c` when it was stored under `id`.
pub open spec fn details_from(c: Create, id: Seq<char>) -> DetailsView {
    DetailsView { id, name: c.name@, kind: c.kind, connection_string: c.connection_string@ }
}

/// A kind of data source: how its record is made, and what a live
/// connection to one can be asked.
pub trait Trait {
    /// Stores a connector as `conn` asks, under a fresh id of eight
    /// characters.
    fn create_record<D: Database>(database: &mut D, conn: Create) -> (res: Result<(), Error>)
        ensures
            final(database).reliable() == old(database).reliable(),
            old(database).reliable() ==> res is Ok,
            match res {
                Ok(()) => exists|id: Seq<char>|
                    is_id(id, 8) && final(database).rows() == old(database).rows().insert(
                        primary("CONNECTOR#"@, id),
                        #[trigger] connector_record(details_from(conn, id)),
                    ),
                Err(e) => e == Error::Upstream && !old(database).reliable()
                    && final(database).rows() == old(database).rows(),
            },
    {
        let id = create_id(8);
        let connector_details = Details {
            id,
            name: conn.name,
            kind: conn.kind,
            connection_string: conn.connection_string,
        };
        let ghost made = connector_details@;
        let res = database.create_connector(connector_details);
        assert(made == details_from(conn, made.id));
        res
    }

    /// The tables that the data source offers, each as `schema.table`.
    fn get_available_datasets(&self) -> Result<Vec<String>, Error>;

    /// What the data source says of the table at `path`.
    fn get_data_info(&self, path: &str) -> Result<DataInfo, Error>;
}

/// One live connector with the id it is known under.
pub struct Connection<C> {
    pub id: String,
    pub connector: C,
}

/// The live connectors that a list of connections stands for, by id. Where
/// an id occurs more than once, the occurrence nearest the end counts.
pub open spec fn connections_map<C>(entries: Seq<Connection<C>>) -> Map<Seq<char>, C>
    decreases entries.len(),
{
    if entries.len() == 0 {
        Map::empty()
    } else {
        connections_map(entries.drop_last()).insert(entries.last().id@, entries.last().connector)
    }
}

/// The live connectors, by the ids of their stored details.
pub struct Registry<C> {
    pub entries: Vec<Connection<C>>,
}

impl<C> View for Registry<C> {
    type V = Map<Seq<char>, C>;

    open spec fn view(&self) -> Map<Seq<char>, C> {
        connections_map(self.entries@)
    }
}

impl<C> Registry<C> {
    /// A registry without connectors.
    pub fn new() -> (registry: Registry<C>)
        ensures
            registry@ == Map::<Seq<char>, C>::empty(),
    {
        Registry { entries: Vec::new() }
    }

    /// Enters `connector` under `id`, in place of any that was there.
    pub fn insert(&mut self, id: String, connector: C)
        ensures
            final(self)@ == old(self)@.insert(id@, connector),
    {
        let ghost before = self.entries@;
        self.entries.push(Connection { id, connector });
        assert(self.entries@.drop_last() =~= before);
    }

    /// The connector known under `id`, or `None` where there is none.
    pub fn get(&self, id: &str) -> (found: Option<&C>)
        ensures
            match found {
                Some(connector) => self@.contains_key(id@) && self@[id@] == *connector,
                None => !self@.contains_key(id@),
            },
    {
        let mut found: Option<&C> = None;
        let n = self.entries.len();
        let mut i: usize = 0;
        while i < n
            invariant
                n == self.entries@.len(),
                i <= n,
                match found {
                    Some(connector) => connections_map(self.entries@.take(i as int)).contains_key(id@)
                        && connections_map(self.entries@.take(i as int))[id@] == *connector,
                    None => !connections_map(self.entries@.take(i as int)).contains_key(id@),
                },
            decreases n - i,
        {
            assert(self.entries@.take(i as int + 1).drop_last() =~= self.entries@.take(i as int));
            if str_eq(self.entries[i].id.as_str(), id) {
                found = Some(&self.entries[i].connector);
            }
            i += 1;
        }
        assert(self.entries@.take(n as int) =~= self.entries@);
        found
    }
}

} // verus!
