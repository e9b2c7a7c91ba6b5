//! The repositories: what is kept of each kind of entity, built on the four
//! operations of a table and on the entity codec.
//!
//! Every method is written once, for any table. What it does is stated over
//! the table's rows; where the store is not reliable, it may instead fail
//! with `Error::Upstream`.

use crate::data::conversions::{connector_record, dataset_record, decode_connector, decode_dataset,
    decode_email, decode_org, decode_session, decode_team, decode_user, email_record,
    is_dataset_record, lemma_connector_record_key, lemma_connector_round_trip,
    lemma_dataset_record_key, lemma_email_record_key, lemma_email_round_trip, lemma_org_record_key,
    lemma_org_round_trip, lemma_session_record_key, lemma_session_round_trip, lemma_team_record_key,
    lemma_team_round_trip, lemma_user_record_key, lemma_user_round_trip, org_record, primary,
    session_record, team_record, user_record};
use crate::data::keys::{lemma_tagged_apart, lemma_tags, tagged, Index};
use crate::data::record::RecordView;
use crate::data::store::{in_partition, is_listing, key_of, record_views, EntityStore, TableView};
use crate::domain::connector::{Details, DetailsView};
use crate::domain::dataset::{Dataset, DatasetView};
use crate::domain::org::{Org, OrgView};
use crate::domain::session::{Session, SessionView};
use crate::domain::team::{Team, TeamView};
use crate::domain::user::{Email, EmailView, User, UserView};
use crate::error::Error;
use vstd::prelude::*;

verus! {

/// What a lookup under `key` owes, where `decoded` is what the codec makes of
/// the row there: the entity, `NotFound` where there is no row, and `Decode`
/// where the row is malformed.
pub open spec fn found<V>(rows: TableView, key: (Seq<char>, Seq<char>), decoded: Option<V>) -> Result<
    V,
    Error,
> {
    if !rows.contains_key(key) {
        Err(Error::NotFound)
    } else {
        match decoded {
            Some(v) => Ok(v),
            None => Err(Error::Decode),
        }
    }
}

/// Whether `res` is the answer `owed`, or a failure of the store itself,
/// which only a store that is not reliable may give.
pub open spec fn answers<T: View>(res: Result<T, Error>, owed: Result<T::V, Error>, reliable: bool)
    -> bool {
    match res {
        Ok(v) => owed == Ok::<T::V, Error>(v@),
        Err(e) => if e == Error::Upstream {
            !reliable
        } else {
            owed == Err::<T::V, Error>(e)
        },
    }
}

/// The user stored under `id`.
pub open spec fn stored_user(rows: TableView, id: Seq<char>) -> Result<UserView, Error> {
    let key = primary("USER#"@, id);
    found(rows, key, decode_user(rows[key]))
}

/// The email record stored for `email`.
pub open spec fn stored_email(rows: TableView, email: Seq<char>) -> Result<EmailView, Error> {
    let key = primary("EMAIL#"@, email);
    found(rows, key, decode_email(rows[key]))
}

/// The user who owns `email`: the email record is looked up first, then the
/// user it names. The table is never searched.
pub open spec fn user_by_email(rows: TableView, email: Seq<char>) -> Result<UserView, Error> {
    match stored_email(rows, email) {
        Ok(e) => stored_user(rows, e.user_id),
        Err(e) => Err(e),
    }
}

/// The organization stored under `id`.
pub open spec fn stored_org(rows: TableView, id: Seq<char>) -> Result<OrgView, Error> {
    let key = primary("ORG#"@, id);
    found(rows, key, decode_org(rows[key]))
}

/// The team stored under `id`.
pub open spec fn stored_team(rows: TableView, id: Seq<char>) -> Result<TeamView, Error> {
    let key = primary("TEAM#"@, id);
    found(rows, key, decode_team(rows[key]))
}

/// The session stored under token `id`.
pub open spec fn stored_session(rows: TableView, id: Seq<char>) -> Result<SessionView, Error> {
    let key = primary("SESSION#"@, id);
    found(rows, key, decode_session(rows[key]))
}

/// The email record of user `u`.
pub open spec fn email_of(u: UserView) -> EmailView {
    EmailView { email: u.email, user_id: u.id }
}

/// The table after user `u` was written alone, without its email record.
pub open spec fn with_user_only(rows: TableView, u: UserView) -> TableView {
    rows.insert(primary("USER#"@, u.id), user_record(u))
}

/// The table after user `u` and its email record were written.
pub open spec fn with_user(rows: TableView, u: UserView) -> TableView {
    with_user_only(rows, u).insert(primary("EMAIL#"@, u.email), email_record(email_of(u)))
}

/// The table after session `s` was written.
pub open spec fn with_session(rows: TableView, s: SessionView) -> TableView {
    rows.insert(primary("SESSION#"@, s.id), session_record(s))
}

/// Whether `found` are the entities of partition `partition` of the listing
/// index, each once and in some order, as `decode` reads them.
pub open spec fn lists<V>(
    found: Seq<V>,
    rows: TableView,
    partition: Seq<char>,
    decode: spec_fn(RecordView) -> Option<V>,
) -> bool {
    exists|listed: Seq<RecordView>|
        {
            &&& #[trigger] is_listing(listed, rows, Index::Gsi2, partition)
            &&& listed.len() == found.len()
            &&& forall|i: int| 0 <= i < listed.len() ==> decode(listed[i]) == Some(found[i])
        }
}

/// Whether some row of partition `partition` of the listing index is
/// malformed, as `decode` reads it.
pub open spec fn holds_malformed<V>(
    rows: TableView,
    partition: Seq<char>,
    decode: spec_fn(RecordView) -> Option<V>,
) -> bool {
    exists|k: (Seq<char>, Seq<char>)|
        #[trigger] rows.contains_key(k) && in_partition(rows[k], Index::Gsi2, partition) && decode(
            rows[k],
        ) is None
}

/// Whether `res` is the listing of `partition` that is owed: the entities of
/// the partition, `Decode` where one of its rows is malformed, or a failure
/// of the store itself, which only a store that is not reliable may give.
pub open spec fn answers_listing<V>(
    res: Result<Seq<V>, Error>,
    rows: TableView,
    partition: Seq<char>,
    decode: spec_fn(RecordView) -> Option<V>,
    reliable: bool,
) -> bool {
    match res {
        Ok(found) => lists(found, rows, partition, decode),
        Err(Error::Decode) => holds_malformed(rows, partition, decode),
        Err(e) => e == Error::Upstream && !reliable,
    }
}

/// What a list of teams stands for.
pub open spec fn team_views(teams: Seq<Team>) -> Seq<TeamView> {
    Seq::new(teams.len(), |i: int| teams[i]@)
}

/// What a list of connectors stands for.
pub open spec fn connector_views(connectors: Seq<Details>) -> Seq<DetailsView> {
    Seq::new(connectors.len(), |i: int| connectors[i]@)
}

/// What a list of datasets stands for.
pub open spec fn dataset_views(datasets: Seq<Dataset>) -> Seq<DatasetView> {
    Seq::new(datasets.len(), |i: int| datasets[i]@)
}

/// The outcome of a listing of teams, over what the teams stand for.
pub open spec fn team_listing(res: Result<Vec<Team>, Error>) -> Result<Seq<TeamView>, Error> {
    match res {
        Ok(teams) => Ok(team_views(teams@)),
        Err(e) => Err(e),
    }
}

/// The outcome of a listing of connectors, over what they stand for.
pub open spec fn connector_listing(res: Result<Vec<Details>, Error>) -> Result<
    Seq<DetailsView>,
    Error,
> {
    match res {
        Ok(connectors) => Ok(connector_views(connectors@)),
        Err(e) => Err(e),
    }
}

/// The outcome of a listing of datasets, over what they stand for.
pub open spec fn dataset_listing(res: Result<Vec<Dataset>, Error>) -> Result<
    Seq<DatasetView>,
    Error,
> {
    match res {
        Ok(datasets) => Ok(dataset_views(datasets@)),
        Err(e) => Err(e),
    }
}

/// Whether a write left the table as `owed` says, or failed in a store that
/// is not reliable and left the table as it was.
pub open spec fn wrote(
    res: Result<(), Error>,
    before: TableView,
    after: TableView,
    owed: TableView,
    reliable: bool,
) -> bool {
    match res {
        Ok(()) => after == owed,
        Err(e) => e == Error::Upstream && !reliable && after == before,
    }
}

/// The repository of users, organizations, teams, connectors and datasets.
pub trait UserStore: EntityStore {
    /// Writes `user` and, after it, the email record that leads back to it.
    ///
    /// The two writes are not one: where the second fails, the first stays,
    /// and the table holds a user that no email leads to. Nothing is undone.
    fn create_user(&mut self, user: &User) -> (res: Result<(), Error>)
        ensures
            final(self).reliable() == old(self).reliable(),
            old(self).reliable() ==> res is Ok,
            res is Ok ==> stored_user(final(self).rows(), user@.id) == Ok::<UserView, Error>(user@)
                && user_by_email(final(self).rows(), user@.email) == Ok::<UserView, Error>(user@),
            match res {
                Ok(()) => final(self).rows() == with_user(old(self).rows(), user@),
                Err(e) => e == Error::Upstream && !old(self).reliable() && (final(self).rows()
                    == old(self).rows() || final(self).rows() == with_user_only(
                    old(self).rows(),
                    user@,
                )),
            },
    {
        let record = user.to_record();
        proof {
            lemma_user_record_key(user@);
            lemma_email_record_key(email_of(user@));
            lemma_user_found_again(old(self).rows(), user@);
        }
        match self.put(record) {
            Ok(()) => {},
            Err(e) => { return Err(e); },
        }
        let email = Email { email: user.email.clone(), user_id: user.id.clone() };
        self.put(email.to_record())
    }

    /// The user who owns `email`.
    fn get_user_by_email(&self, email: &str) -> (res: Result<User, Error>)
        ensures
            answers(res, user_by_email(self.rows(), email@), self.reliable()),
    {
        let key = tagged("EMAIL#", email);
        let record = match self.get(key.as_str(), key.as_str()) {
            Ok(record) => record,
            Err(e) => { return Err(e); },
        };
        let found = match Email::from(&record) {
            Ok(found) => found,
            Err(e) => { return Err(e); },
        };
        self.get_user_by_id(found.user_id.as_str())
    }

    /// The user stored under `id`.
    fn get_user_by_id(&self, id: &str) -> (res: Result<User, Error>)
        ensures
            answers(res, stored_user(self.rows(), id@), self.reliable()),
    {
        let key = tagged("USER#", id);
        match self.get(key.as_str(), key.as_str()) {
            Ok(record) => User::from(&record),
            Err(e) => Err(e),
        }
    }

    /// Writes `org`, to be found again under its id.
    fn create_org(&mut self, org: &Org) -> (res: Result<(), Error>)
        ensures
            final(self).reliable() == old(self).reliable(),
            wrote(
                res,
                old(self).rows(),
                final(self).rows(),
                old(self).rows().insert(primary("ORG#"@, org@.id), org_record(org@)),
                old(self).reliable(),
            ),
            old(self).reliable() ==> res is Ok,
            res is Ok ==> stored_org(final(self).rows(), org@.id) == Ok::<OrgView, Error>(org@),
    {
        proof {
            lemma_org_record_key(org@);
            lemma_org_round_trip(org@);
        }
        self.put(org.to_record())
    }

    /// The organization stored under `id`.
    fn get_org_by_id(&self, id: &str) -> (res: Result<Org, Error>)
        ensures
            answers(res, stored_org(self.rows(), id@), self.reliable()),
    {
        let key = tagged("ORG#", id);
        match self.get(key.as_str(), key.as_str()) {
            Ok(record) => Org::from(&record),
            Err(e) => Err(e),
        }
    }

    /// Removes the organization stored under `id`. Where there is none,
    /// nothing changes and nothing fails.
    fn delete_org(&mut self, id: &str) -> (res: Result<(), Error>)
        ensures
            final(self).reliable() == old(self).reliable(),
            wrote(
                res,
                old(self).rows(),
                final(self).rows(),
                old(self).rows().remove(primary("ORG#"@, id@)),
                old(self).reliable(),
            ),
    {
        let key = tagged("ORG#", id);
        self.delete(key.as_str(), key.as_str())
    }

    /// Writes `team`, to be found again under its id.
    fn create_team(&mut self, team: &Team) -> (res: Result<(), Error>)
        ensures
            final(self).reliable() == old(self).reliable(),
            wrote(
                res,
                old(self).rows(),
                final(self).rows(),
                old(self).rows().insert(primary("TEAM#"@, team@.id), team_record(team@)),
                old(self).reliable(),
            ),
            old(self).reliable() ==> res is Ok,
            res is Ok ==> stored_team(final(self).rows(), team@.id) == Ok::<TeamView, Error>(team@),
    {
        proof {
            lemma_team_record_key(team@, "TYPE#TEAM"@);
            lemma_team_round_trip(team@);
        }
        self.put(team.to_record())
    }

    /// All teams, read from the partition of teams in the listing index.
    fn get_teams(&self) -> (res: Result<Vec<Team>, Error>)
        ensures
            answers_listing(
                team_listing(res),
                self.rows(),
                "TYPE#TEAM"@,
                |r: RecordView| decode_team(r),
                self.reliable(),
            ),
    {
        let records = match self.query_by_index(Index::Gsi2, "TYPE#TEAM") {
            Ok(records) => records,
            Err(e) => { return Err(e); },
        };
        let ghost listed = record_views(records@);
        let mut teams: Vec<Team> = Vec::new();
        let n = records.len();
        let mut i: usize = 0;
        while i < n
            invariant
                n == records@.len(),
                i <= n,
                listed == record_views(records@),
                is_listing(listed, self.rows(), Index::Gsi2, "TYPE#TEAM"@),
                teams@.len() == i,
                forall|j: int| 0 <= j < i ==> decode_team(listed[j]) == Some(#[trigger] teams@[j]@),
            decreases n - i,
        {
            match Team::from(&records[i]) {
                Ok(team) => {
                    teams.push(team);
                },
                Err(e) => {
                    assert(key_of(listed[i as int]) is Some);
                    return Err(e);
                },
            }
            i += 1;
        }
        Ok(teams)
    }

    /// The team stored under `id`.
    fn get_team_by_id(&self, id: &str) -> (res: Result<Team, Error>)
        ensures
            answers(res, stored_team(self.rows(), id@), self.reliable()),
    {
        let key = tagged("TEAM#", id);
        match self.get(key.as_str(), key.as_str()) {
            Ok(record) => Team::from(&record),
            Err(e) => Err(e),
        }
    }

    /// Writes `conn`, its connection string as it is, to be read again as
    /// it was written.
    fn create_connector(&mut self, conn: Details) -> (res: Result<(), Error>)
        ensures
            final(self).reliable() == old(self).reliable(),
            wrote(
                res,
                old(self).rows(),
                final(self).rows(),
                old(self).rows().insert(primary("CONNECTOR#"@, conn@.id), connector_record(conn@)),
                old(self).reliable(),
            ),
            old(self).reliable() ==> res is Ok,
            res is Ok ==> decode_connector(final(self).rows()[primary("CONNECTOR#"@, conn@.id)])
                == Some(conn@),
    {
        proof {
            lemma_connector_record_key(conn@, "TYPE#CONNECTOR"@);
            lemma_connector_round_trip(conn@);
        }
        self.put(conn.to_record())
    }

    /// All connectors, read from the partition of connectors in the listing
    /// index, each with its connection string.
    fn get_connectors(&self) -> (res: Result<Vec<Details>, Error>)
        ensures
            answers_listing(
                connector_listing(res),
                self.rows(),
                "TYPE#CONNECTOR"@,
                |r: RecordView| decode_connector(r),
                self.reliable(),
            ),
    {
        let records = match self.query_by_index(Index::Gsi2, "TYPE#CONNECTOR") {
            Ok(records) => records,
            Err(e) => { return Err(e); },
        };
        let ghost listed = record_views(records@);
        let mut connectors: Vec<Details> = Vec::new();
        let n = records.len();
        let mut i: usize = 0;
        while i < n
            invariant
                n == records@.len(),
                i <= n,
                listed == record_views(records@),
                is_listing(listed, self.rows(), Index::Gsi2, "TYPE#CONNECTOR"@),
                connectors@.len() == i,
                forall|j: int|
                    0 <= j < i ==> decode_connector(listed[j]) == Some(#[trigger] connectors@[j]@),
            decreases n - i,
        {
            match Details::from(&records[i]) {
                Ok(connector) => {
                    connectors.push(connector);
                },
                Err(e) => {
                    assert(key_of(listed[i as int]) is Some);
                    return Err(e);
                },
            }
            i += 1;
        }
        Ok(connectors)
    }

    /// Writes `dataset`, its schema, tags and metadata as JSON text. The
    /// record that is written decodes to `dataset` again.
    fn create_dataset(&mut self, dataset: Dataset) -> (res: Result<(), Error>)
        ensures
            final(self).reliable() == old(self).reliable(),
            old(self).reliable() ==> res is Ok,
            match res {
                Ok(()) => {
                    let key = primary("DATASET#"@, dataset@.id);
                    &&& final(self).rows().contains_key(key)
                    &&& is_dataset_record(final(self).rows()[key], dataset@)
                    &&& decode_dataset(final(self).rows()[key]) == Some(dataset@)
                    &&& final(self).rows() == old(self).rows().insert(key, final(self).rows()[key])
                },
                Err(e) => e == Error::Upstream && !old(self).reliable() && final(self).rows()
                    == old(self).rows(),
            },
    {
        let record = match dataset.to_record() {
            Ok(record) => record,
            Err(e) => { return Err(e); },
        };
        proof {
            lemma_dataset_record_keyed(record@, dataset@);
        }
        self.put(record)
    }

    /// All datasets, read from the partition of datasets in the listing
    /// index.
    fn get_datasets(&self) -> (res: Result<Vec<Dataset>, Error>)
        ensures
            answers_listing(
                dataset_listing(res),
                self.rows(),
                "TYPE#DATASET"@,
                |r: RecordView| decode_dataset(r),
                self.reliable(),
            ),
    {
        let records = match self.query_by_index(Index::Gsi2, "TYPE#DATASET") {
            Ok(records) => records,
            Err(e) => { return Err(e); },
        };
        let ghost listed = record_views(records@);
        let mut datasets: Vec<Dataset> = Vec::new();
        let n = records.len();
        let mut i: usize = 0;
        while i < n
            invariant
                n == records@.len(),
                i <= n,
                listed == record_views(records@),
                is_listing(listed, self.rows(), Index::Gsi2, "TYPE#DATASET"@),
                datasets@.len() == i,
                forall|j: int|
                    0 <= j < i ==> decode_dataset(listed[j]) == Some(#[trigger] datasets@[j]@),
            decreases n - i,
        {
            match Dataset::from(&records[i]) {
                Ok(dataset) => {
                    datasets.push(dataset);
                },
                Err(e) => {
                    assert(key_of(listed[i as int]) is Some);
                    return Err(e);
                },
            }
            i += 1;
        }
        Ok(datasets)
    }
}

/// A user that was written with its email record is found again, by id and
/// by email.
pub proof fn lemma_user_found_again(rows: TableView, u: UserView)
    ensures
        stored_user(with_user(rows, u), u.id) == Ok::<UserView, Error>(u),
        user_by_email(with_user(rows, u), u.email) == Ok::<UserView, Error>(u),
{
    lemma_tags();
    lemma_tagged_apart("USER#"@, u.id, "EMAIL#"@, u.email);
    lemma_user_round_trip(u);
    lemma_email_round_trip(email_of(u));
}

/// Any record of a dataset carries the primary key of the dataset.
pub proof fn lemma_dataset_record_keyed(r: RecordView, d: DatasetView)
    requires
        is_dataset_record(r, d),
    ensures
        key_of(r) == Some(primary("DATASET#"@, d.id)),
        in_partition(r, Index::Gsi2, "TYPE#DATASET"@),
{
    let (schema_json, tags_json, metadata_json) = choose|
        schema_json: Seq<char>,
        tags_json: Seq<char>,
        metadata_json: Seq<char>,
    |
        #![trigger dataset_record(d, schema_json, tags_json, metadata_json)]
        r == dataset_record(d, schema_json, tags_json, metadata_json);
    lemma_dataset_record_key(d, schema_json, tags_json, metadata_json, "TYPE#DATASET"@);
}

/// The repository of sessions.
pub trait SessionStore: EntityStore {
    /// The session stored under token `id`.
    fn get_session_by_id(&self, id: &str) -> (res: Result<Session, Error>)
        ensures
            answers(res, stored_session(self.rows(), id@), self.reliable()),
    {
        let key = tagged("SESSION#", id);
        match self.get(key.as_str(), key.as_str()) {
            Ok(record) => Session::from(&record),
            Err(e) => Err(e),
        }
    }

    /// Writes a session under token `session_id`: one of `user` where a
    /// user is given, an anonymous one otherwise.
    fn create_session(&mut self, user: Option<&User>, session_id: &str) -> (res: Result<
        (),
        Error,
    >)
        ensures
            final(self).reliable() == old(self).reliable(),
            wrote(
                res,
                old(self).rows(),
                final(self).rows(),
                with_session(old(self).rows(), session_for(session_id@, user)),
                old(self).reliable(),
            ),
            old(self).reliable() ==> res is Ok,
            res is Ok ==> stored_session(final(self).rows(), session_id@) == Ok::<
                SessionView,
                Error,
            >(session_for(session_id@, user)),
    {
        let user_id = match user {
            Some(u) => Some(u.id.clone()),
            None => None,
        };
        let session = Session { id: session_id.to_owned(), user_id };
        proof {
            lemma_session_record_key(session@, Seq::empty());
            lemma_session_round_trip(session@);
        }
        self.put(session.to_record())
    }

    /// Removes the session stored under token `session_id`. Where there is
    /// none, nothing changes and nothing fails.
    fn delete_session(&mut self, session_id: &str) -> (res: Result<(), Error>)
        ensures
            final(self).reliable() == old(self).reliable(),
            wrote(
                res,
                old(self).rows(),
                final(self).rows(),
                old(self).rows().remove(primary("SESSION#"@, session_id@)),
                old(self).reliable(),
            ),
    {
        let key = tagged("SESSION#", session_id);
        self.delete(key.as_str(), key.as_str())
    }
}

/// The session with token `id` for `user`: identified where a user is
/// given, anonymous otherwise.
pub open spec fn session_for(id: Seq<char>, user: Option<&User>) -> SessionView {
    SessionView {
        id,
        user_id: match user {
            Some(u) => Some(u@.id),
            None => None,
        },
    }
}

/// A store that keeps both users and sessions.
pub trait Database: UserStore + SessionStore {

}

} // verus!
