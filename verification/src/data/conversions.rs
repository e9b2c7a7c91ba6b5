//! The entity codec: each entity as an attribute record, and back.
//!
//! Every record carries its primary key twice, under `PK` and `SK`, as the
//! entity's type tag, `#` and its id. The lookup value of index 1 and the
//! type partition of index 2 are stored the same way. Decoding strips the
//! tags again and fails with `Error::Decode` where a required attribute is
//! absent or has the wrong type.

use crate::data::json::{json_list_of, json_map_of, list_from_json, list_to_json, map_from_json,
    map_to_json, opt_list, opt_map};
use crate::data::keys::{after_hash, lemma_after_hash_of_tagged, lemma_attr_names, lemma_tags,
    strip_tag, tagged, Index};
use crate::data::record::{flag_of, text_of, AttrValue, AttrView, Record, RecordView};
use crate::data::store::{in_partition, key_of};
use crate::domain::connector::{Details, DetailsView, Type};
use crate::domain::dataset::{Dataset, DatasetView};
use crate::domain::org::{Org, OrgView};
use crate::domain::session::{Session, SessionView};
use crate::domain::team::{Team, TeamView};
use crate::domain::user::{Email, EmailView, User, UserView};
use crate::error::Error;
use crate::text::opt_text;
use std::collections::HashMap;
use vstd::prelude::*;
use vstd::string::*;

verus! {

/// The string under `name` with its tag stripped.
pub open spec fn tagged_of(r: RecordView, name: Seq<char>) -> Option<Seq<char>> {
    match text_of(r, name) {
        Some(s) => after_hash(s),
        None => None,
    }
}

/// `r` with `key` as its primary key.
pub open spec fn with_key(r: RecordView, key: Seq<char>) -> RecordView {
    r.insert("PK"@, AttrView::S(key)).insert("SK"@, AttrView::S(key))
}

/// `r` with `value` as its entry in index 1.
pub open spec fn with_lookup(r: RecordView, value: Seq<char>) -> RecordView {
    r.insert("GSI1PK"@, AttrView::S(value)).insert("GSI1SK"@, AttrView::S(value))
}

/// `r` with `value` as its partition in index 2.
pub open spec fn with_partition(r: RecordView, value: Seq<char>) -> RecordView {
    r.insert("GSI2PK"@, AttrView::S(value)).insert("GSI2SK"@, AttrView::S(value))
}

/// A record that holds only its primary key, `id` under `tag`.
pub fn keyed(tag: &str, id: &str) -> (record: Record)
    ensures
        record@ == with_key(Map::empty(), tag@ + id@),
{
    let key = tagged(tag, id);
    let mut record = Record::new();
    record.set_text("PK", key.as_str());
    record.set_text("SK", key.as_str());
    record
}

/// Enters `value` under `tag` into index 1.
pub fn index_lookup(record: &mut Record, tag: &str, value: &str)
    ensures
        final(record)@ == with_lookup(old(record)@, tag@ + value@),
{
    let key = tagged(tag, value);
    record.set_text("GSI1PK", key.as_str());
    record.set_text("GSI1SK", key.as_str());
}

/// Enters the record into partition `value` of index 2.
pub fn index_partition(record: &mut Record, value: &str)
    ensures
        final(record)@ == with_partition(old(record)@, value@),
{
    record.set_text("GSI2PK", value);
    record.set_text("GSI2SK", value);
}

/// The string under `name`, owned.
pub fn text_value(record: &Record, name: &str) -> (value: Option<String>)
    ensures
        opt_text(value) == text_of(record@, name@),
{
    match record.text(name) {
        Some(s) => Some(s.to_owned()),
        None => None,
    }
}

/// The string under `name` with its tag stripped, owned.
pub fn tagged_value(record: &Record, name: &str) -> (value: Option<String>)
    ensures
        opt_text(value) == tagged_of(record@, name@),
{
    match record.text(name) {
        Some(s) => match strip_tag(s) {
            Some(rest) => Some(rest.to_owned()),
            None => None,
        },
        None => None,
    }
}

// ---------------------------------------------------------------- users

/// The record of user `u`.
pub open spec fn user_record(u: UserView) -> RecordView {
    with_partition(
        with_lookup(with_key(Map::empty(), "USER#"@ + u.id), "EMAIL#"@ + u.email),
        "USERTYPE#"@ + u.role,
    ).insert("first_name"@, AttrView::S(u.first_name)).insert(
        "last_name"@,
        AttrView::S(u.last_name),
    ).insert("user_type"@, AttrView::S(u.role)).insert(
        "is_active"@,
        AttrView::Bool(u.is_active),
    ).insert("hash"@, AttrView::S(u.hash))
}

/// The user that record `r` holds, if it holds one.
pub open spec fn decode_user(r: RecordView) -> Option<UserView> {
    match (
        tagged_of(r, "PK"@),
        tagged_of(r, "GSI1PK"@),
        text_of(r, "first_name"@),
        text_of(r, "last_name"@),
        flag_of(r, "is_active"@),
        text_of(r, "user_type"@),
        text_of(r, "hash"@),
    ) {
        (
            Some(id),
            Some(email),
            Some(first_name),
            Some(last_name),
            Some(is_active),
            Some(role),
            Some(hash),
        ) => Some(UserView { id, email, first_name, last_name, role, is_active, hash }),
        _ => None,
    }
}

/// Decoding a user's record gives the user back.
pub proof fn lemma_user_round_trip(u: UserView)
    ensures
        decode_user(user_record(u)) == Some(u),
{
    lemma_attr_names();
    lemma_tags();
    lemma_after_hash_of_tagged("USER#"@, u.id);
    lemma_after_hash_of_tagged("EMAIL#"@, u.email);
}

impl User {
    /// This user as a record, which decodes to this user again.
    pub fn to_record(&self) -> (record: Record)
        ensures
            record@ == user_record(self@),
            decode_user(record@) == Some(self@),
    {
        proof {
            lemma_user_round_trip(self@);
        }
        let mut record = keyed("USER#", self.id.as_str());
        index_lookup(&mut record, "EMAIL#", self.email.as_str());
        let partition = tagged("USERTYPE#", self.role.as_str());
        index_partition(&mut record, partition.as_str());
        record.set_text("first_name", self.first_name.as_str());
        record.set_text("last_name", self.last_name.as_str());
        record.set_text("user_type", self.role.as_str());
        record.set_flag("is_active", self.is_active);
        record.set_text("hash", self.hash.as_str());
        record
    }

    /// The user that `record` holds.
    pub fn from(record: &Record) -> (res: Result<User, Error>)
        ensures
            match res {
                Ok(u) => decode_user(record@) == Some(u@),
                Err(e) => e == Error::Decode && decode_user(record@) is None,
            },
    {
        let id = tagged_value(record, "PK");
        let email = tagged_value(record, "GSI1PK");
        let first_name = text_value(record, "first_name");
        let last_name = text_value(record, "last_name");
        let is_active = record.flag("is_active");
        let role = text_value(record, "user_type");
        let hash = text_value(record, "hash");
        match (id, email, first_name, last_name, is_active, role, hash) {
            (
                Some(id),
                Some(email),
                Some(first_name),
                Some(last_name),
                Some(is_active),
                Some(role),
                Some(hash),
            ) => Ok(User { id, email, first_name, last_name, role, is_active, hash }),
            _ => Err(Error::Decode),
        }
    }
}

// ---------------------------------------------------------------- emails

/// The record that leads from `e.email` to user `e.user_id`.
pub open spec fn email_record(e: EmailView) -> RecordView {
    with_lookup(with_key(Map::empty(), "EMAIL#"@ + e.email), "USER#"@ + e.user_id)
}

/// The email record that `r` holds, if it holds one.
pub open spec fn decode_email(r: RecordView) -> Option<EmailView> {
    match (tagged_of(r, "PK"@), tagged_of(r, "GSI1PK"@)) {
        (Some(email), Some(user_id)) => Some(EmailView { email, user_id }),
        _ => None,
    }
}

/// Decoding an email record gives it back.
pub proof fn lemma_email_round_trip(e: EmailView)
    ensures
        decode_email(email_record(e)) == Some(e),
{
    lemma_attr_names();
    lemma_tags();
    lemma_after_hash_of_tagged("EMAIL#"@, e.email);
    lemma_after_hash_of_tagged("USER#"@, e.user_id);
}

impl Email {
    /// This email record as a record of the table, which decodes to it
    /// again.
    pub fn to_record(&self) -> (record: Record)
        ensures
            record@ == email_record(self@),
            decode_email(record@) == Some(self@),
    {
        proof {
            lemma_email_round_trip(self@);
        }
        let mut record = keyed("EMAIL#", self.email.as_str());
        index_lookup(&mut record, "USER#", self.user_id.as_str());
        record
    }

    /// The email record that `record` holds.
    pub fn from(record: &Record) -> (res: Result<Email, Error>)
        ensures
            match res {
                Ok(e) => decode_email(record@) == Some(e@),
                Err(e) => e == Error::Decode && decode_email(record@) is None,
            },
    {
        let email = tagged_value(record, "PK");
        let user_id = tagged_value(record, "GSI1PK");
        match (email, user_id) {
            (Some(email), Some(user_id)) => Ok(Email { email, user_id }),
            _ => Err(Error::Decode),
        }
    }
}

// ---------------------------------------------------------------- sessions

/// The record of session `s`. Only an identified session is entered into
/// index 1, under its user.
pub open spec fn session_record(s: SessionView) -> RecordView {
    let base = with_key(Map::empty(), "SESSION#"@ + s.id);
    match s.user_id {
        Some(user_id) => with_lookup(base, "USER#"@ + user_id),
        None => base,
    }
}

/// The session that `r` holds, if it holds one. A record without an entry in
/// index 1 is an anonymous session.
pub open spec fn decode_session(r: RecordView) -> Option<SessionView> {
    match tagged_of(r, "PK"@) {
        Some(id) => if r.contains_key("GSI1PK"@) {
            match tagged_of(r, "GSI1PK"@) {
                Some(user_id) => Some(SessionView { id, user_id: Some(user_id) }),
                None => None,
            }
        } else {
            Some(SessionView { id, user_id: None })
        },
        None => None,
    }
}

/// Decoding a session's record gives the session back, anonymous or not.
pub proof fn lemma_session_round_trip(s: SessionView)
    ensures
        decode_session(session_record(s)) == Some(s),
{
    lemma_attr_names();
    lemma_tags();
    lemma_after_hash_of_tagged("SESSION#"@, s.id);
    if let Some(user_id) = s.user_id {
        lemma_after_hash_of_tagged("USER#"@, user_id);
    }
}

impl Session {
    /// This session as a record, which decodes to this session again.
    pub fn to_record(&self) -> (record: Record)
        ensures
            record@ == session_record(self@),
            decode_session(record@) == Some(self@),
    {
        proof {
            lemma_session_round_trip(self@);
        }
        let mut record = keyed("SESSION#", self.id.as_str());
        match &self.user_id {
            Some(user_id) => {
                index_lookup(&mut record, "USER#", user_id.as_str());
            },
            None => {},
        }
        record
    }

    /// The session that `record` holds.
    pub fn from(record: &Record) -> (res: Result<Session, Error>)
        ensures
            match res {
                Ok(s) => decode_session(record@) == Some(s@),
                Err(e) => e == Error::Decode && decode_session(record@) is None,
            },
    {
        let id = match tagged_value(record, "PK") {
            Some(id) => id,
            None => { return Err(Error::Decode); },
        };
        if record.contains("GSI1PK") {
            match tagged_value(record, "GSI1PK") {
                Some(user_id) => Ok(Session { id, user_id: Some(user_id) }),
                None => Err(Error::Decode),
            }
        } else {
            Ok(Session { id, user_id: None })
        }
    }
}

// ---------------------------------------------------------------- orgs

/// The record of organization `o`.
pub open spec fn org_record(o: OrgView) -> RecordView {
    with_lookup(with_key(Map::empty(), "ORG#"@ + o.id), "ORGNAME#"@ + o.name).insert(
        "is_active"@,
        AttrView::Bool(o.active),
    )
}

/// The organization that `r` holds, if it holds one.
pub open spec fn decode_org(r: RecordView) -> Option<OrgView> {
    match (tagged_of(r, "PK"@), tagged_of(r, "GSI1PK"@), flag_of(r, "is_active"@)) {
        (Some(id), Some(name), Some(active)) => Some(OrgView { id, name, active }),
        _ => None,
    }
}

/// Decoding an organization's record gives the organization back.
pub proof fn lemma_org_round_trip(o: OrgView)
    ensures
        decode_org(org_record(o)) == Some(o),
{
    lemma_attr_names();
    lemma_tags();
    lemma_after_hash_of_tagged("ORG#"@, o.id);
    lemma_after_hash_of_tagged("ORGNAME#"@, o.name);
}

impl Org {
    /// This organization as a record, which decodes to it again.
    pub fn to_record(&self) -> (record: Record)
        ensures
            record@ == org_record(self@),
            decode_org(record@) == Some(self@),
    {
        proof {
            lemma_org_round_trip(self@);
        }
        let mut record = keyed("ORG#", self.id.as_str());
        index_lookup(&mut record, "ORGNAME#", self.name.as_str());
        record.set_flag("is_active", self.active);
        record
    }

    /// The organization that `record` holds.
    pub fn from(record: &Record) -> (res: Result<Org, Error>)
        ensures
            match res {
                Ok(o) => decode_org(record@) == Some(o@),
                Err(e) => e == Error::Decode && decode_org(record@) is None,
            },
    {
        let id = tagged_value(record, "PK");
        let name = tagged_value(record, "GSI1PK");
        let active = record.flag("is_active");
        match (id, name, active) {
            (Some(id), Some(name), Some(active)) => Ok(Org { id, name, active }),
            _ => Err(Error::Decode),
        }
    }
}

// ---------------------------------------------------------------- teams

/// The record of team `t`.
pub open spec fn team_record(t: TeamView) -> RecordView {
    with_partition(
        with_lookup(with_key(Map::empty(), "TEAM#"@ + t.id), "TEAMNAME#"@ + t.name),
        "TYPE#TEAM"@,
    ).insert("is_active"@, AttrView::Bool(t.active))
}

/// The team that `r` holds, if it holds one.
pub open spec fn decode_team(r: RecordView) -> Option<TeamView> {
    match (tagged_of(r, "PK"@), tagged_of(r, "GSI1PK"@), flag_of(r, "is_active"@)) {
        (Some(id), Some(name), Some(active)) => Some(TeamView { id, name, active }),
        _ => None,
    }
}

/// Decoding a team's record gives the team back.
pub proof fn lemma_team_round_trip(t: TeamView)
    ensures
        decode_team(team_record(t)) == Some(t),
{
    lemma_attr_names();
    lemma_tags();
    lemma_after_hash_of_tagged("TEAM#"@, t.id);
    lemma_after_hash_of_tagged("TEAMNAME#"@, t.name);
}

impl Team {
    /// This team as a record, which decodes to this team again.
    pub fn to_record(&self) -> (record: Record)
        ensures
            record@ == team_record(self@),
            decode_team(record@) == Some(self@),
    {
        proof {
            lemma_team_round_trip(self@);
        }
        let mut record = keyed("TEAM#", self.id.as_str());
        index_lookup(&mut record, "TEAMNAME#", self.name.as_str());
        index_partition(&mut record, "TYPE#TEAM");
        record.set_flag("is_active", self.active);
        record
    }

    /// The team that `record` holds.
    pub fn from(record: &Record) -> (res: Result<Team, Error>)
        ensures
            match res {
                Ok(t) => decode_team(record@) == Some(t@),
                Err(e) => e == Error::Decode && decode_team(record@) is None,
            },
    {
        let id = tagged_value(record, "PK");
        let name = tagged_value(record, "GSI1PK");
        let active = record.flag("is_active");
        match (id, name, active) {
            (Some(id), Some(name), Some(active)) => Ok(Team { id, name, active }),
            _ => Err(Error::Decode),
        }
    }
}

// ---------------------------------------------------------------- connectors

/// The record of connector `c`.
pub open spec fn connector_record(c: DetailsView) -> RecordView {
    with_partition(
        with_lookup(with_key(Map::empty(), "CONNECTOR#"@ + c.id), "CONNECTORNAME#"@ + c.name),
        "TYPE#CONNECTOR"@,
    ).insert("connection_string"@, AttrView::S(c.connection_string)).insert(
        "connector_type"@,
        AttrView::S(c.kind.spec_name()),
    )
}

/// The kind named under `connector_type`, if the name is that of a kind.
pub open spec fn kind_of(r: RecordView) -> Option<Type> {
    match text_of(r, "connector_type"@) {
        Some(name) => Type::spec_parse(name),
        None => None,
    }
}

/// The connector that `r` holds, if it holds one.
pub open spec fn decode_connector(r: RecordView) -> Option<DetailsView> {
    match (
        tagged_of(r, "PK"@),
        tagged_of(r, "GSI1PK"@),
        text_of(r, "connection_string"@),
        kind_of(r),
    ) {
        (Some(id), Some(name), Some(connection_string), Some(kind)) => Some(
            DetailsView { id, name, kind, connection_string },
        ),
        _ => None,
    }
}

/// Decoding a connector's record gives the connector back.
pub proof fn lemma_connector_round_trip(c: DetailsView)
    ensures
        decode_connector(connector_record(c)) == Some(c),
{
    lemma_attr_names();
    lemma_tags();
    lemma_after_hash_of_tagged("CONNECTOR#"@, c.id);
    lemma_after_hash_of_tagged("CONNECTORNAME#"@, c.name);
    c.kind.lemma_parse_name();
}

impl Details {
    /// This connector as a record, which decodes to this connector again,
    /// its connection string as it is.
    pub fn to_record(&self) -> (record: Record)
        ensures
            record@ == connector_record(self@),
            decode_connector(record@) == Some(self@),
    {
        proof {
            lemma_connector_round_trip(self@);
        }
        let mut record = keyed("CONNECTOR#", self.id.as_str());
        index_lookup(&mut record, "CONNECTORNAME#", self.name.as_str());
        index_partition(&mut record, "TYPE#CONNECTOR");
        record.set_text("connection_string", self.connection_string.as_str());
        record.set_text("connector_type", self.kind.name());
        record
    }

    /// The connector that `record` holds.
    pub fn from(record: &Record) -> (res: Result<Details, Error>)
        ensures
            match res {
                Ok(c) => decode_connector(record@) == Some(c@),
                Err(e) => e == Error::Decode && decode_connector(record@) is None,
            },
    {
        let id = tagged_value(record, "PK");
        let name = tagged_value(record, "GSI1PK");
        let connection_string = text_value(record, "connection_string");
        let kind = match record.text("connector_type") {
            Some(name) => Type::parse(name),
            None => None,
        };
        match (id, name, connection_string, kind) {
            (Some(id), Some(name), Some(connection_string), Some(kind)) => Ok(
                Details { id, name, kind, connection_string },
            ),
            _ => Err(Error::Decode),
        }
    }
}

// ---------------------------------------------------------------- datasets

/// The record of dataset `d`, given the JSON texts of its schema, its tags
/// and its metadata. A dataset without a provider has no `provider`
/// attribute.
pub open spec fn dataset_record(
    d: DatasetView,
    schema_json: Seq<char>,
    tags_json: Seq<char>,
    metadata_json: Seq<char>,
) -> RecordView {
    let base = with_partition(
        with_lookup(with_key(Map::empty(), "DATASET#"@ + d.id), "DATASETNAME#"@ + d.name),
        "TYPE#DATASET"@,
    );
    let labelled = match d.provider {
        Some(p) => base.insert("provider"@, AttrView::S(p)),
        None => base,
    };
    labelled.insert("connector_id"@, AttrView::S(d.connector_id)).insert(
        "path"@,
        AttrView::S(d.path),
    ).insert("description"@, AttrView::S(d.description)).insert(
        "schema"@,
        AttrView::S(schema_json),
    ).insert("tags"@, AttrView::S(tags_json)).insert("metadata"@, AttrView::S(metadata_json))
}

/// Whether `r` is a record of dataset `d`: it is laid out as
/// `dataset_record` says, and its three JSON texts read back as the schema,
/// the tags and the metadata of `d`. The metadata text of a dataset without
/// metadata is empty.
pub open spec fn is_dataset_record(r: RecordView, d: DatasetView) -> bool {
    exists|schema_json: Seq<char>, tags_json: Seq<char>, metadata_json: Seq<char>|
        #![trigger dataset_record(d, schema_json, tags_json, metadata_json)]
        {
            &&& r == dataset_record(d, schema_json, tags_json, metadata_json)
            &&& json_map_of(schema_json) == Some(d.schema)
            &&& json_list_of(tags_json) == Some(d.tags)
            &&& match d.metadata {
                Some(m) => metadata_json.len() > 0 && json_map_of(metadata_json) == Some(m),
                None => metadata_json.len() == 0,
            }
        }
}

/// The plain fields of a dataset's record, its JSON texts not yet read.
#[derive(Debug)]
pub struct DatasetFields {
    pub id: String,
    pub name: String,
    pub provider: Option<String>,
    pub connector_id: String,
    pub path: String,
    pub description: String,
    pub schema_json: String,
    pub tags_json: String,
    /// The metadata text; `None` where the record has none or an empty one.
    pub metadata_json: Option<String>,
}

/// What a `DatasetFields` stands for.
pub struct DatasetFieldsView {
    pub id: Seq<char>,
    pub name: Seq<char>,
    pub provider: Option<Seq<char>>,
    pub connector_id: Seq<char>,
    pub path: Seq<char>,
    pub description: Seq<char>,
    pub schema_json: Seq<char>,
    pub tags_json: Seq<char>,
    pub metadata_json: Option<Seq<char>>,
}

impl View for DatasetFields {
    type V = DatasetFieldsView;

    open spec fn view(&self) -> DatasetFieldsView {
        DatasetFieldsView {
            id: self.id@,
            name: self.name@,
            provider: opt_text(self.provider),
            connector_id: self.connector_id@,
            path: self.path@,
            description: self.description@,
            schema_json: self.schema_json@,
            tags_json: self.tags_json@,
            metadata_json: opt_text(self.metadata_json),
        }
    }
}

/// An attribute that may be absent: `Some(None)` where `r` has no `name`,
/// `Some(Some(s))` where it holds the string `s`, and `None` where it holds
/// something that is no string.
pub open spec fn optional_text_of(r: RecordView, name: Seq<char>) -> Option<Option<Seq<char>>> {
    if r.contains_key(name) {
        match text_of(r, name) {
            Some(s) => Some(Some(s)),
            None => None,
        }
    } else {
        Some(None)
    }
}

/// The metadata text of `r`, where an empty text counts as none at all.
pub open spec fn metadata_text_of(r: RecordView) -> Option<Option<Seq<char>>> {
    match optional_text_of(r, "metadata"@) {
        Some(Some(s)) => if s.len() == 0 {
            Some(None)
        } else {
            Some(Some(s))
        },
        other => other,
    }
}

/// The plain fields of the dataset that `r` holds, if it holds them all.
pub open spec fn dataset_fields(r: RecordView) -> Option<DatasetFieldsView> {
    match (
        tagged_of(r, "PK"@),
        tagged_of(r, "GSI1PK"@),
        optional_text_of(r, "provider"@),
        text_of(r, "connector_id"@),
        text_of(r, "path"@),
        text_of(r, "description"@),
        text_of(r, "schema"@),
        text_of(r, "tags"@),
        metadata_text_of(r),
    ) {
        (
            Some(id),
            Some(name),
            Some(provider),
            Some(connector_id),
            Some(path),
            Some(description),
            Some(schema_json),
            Some(tags_json),
            Some(metadata_json),
        ) => Some(
            DatasetFieldsView {
                id,
                name,
                provider,
                connector_id,
                path,
                description,
                schema_json,
                tags_json,
                metadata_json,
            },
        ),
        _ => None,
    }
}

/// The dataset made of plain fields `f` and of what was read from its JSON
/// texts: `schema` and `tags` are what the two texts gave, and `metadata` is
/// what the metadata text gave, where there is one. A text that could not be
/// read leaves no dataset.
pub open spec fn dataset_of_parts(
    f: DatasetFieldsView,
    schema: Option<Map<Seq<char>, Seq<char>>>,
    tags: Option<Seq<Seq<char>>>,
    metadata: Option<Map<Seq<char>, Seq<char>>>,
) -> Option<DatasetView> {
    match (schema, tags) {
        (Some(schema), Some(tags)) => if f.metadata_json is Some && metadata is None {
            None
        } else {
            Some(
                DatasetView {
                    id: f.id,
                    name: f.name,
                    provider: f.provider,
                    connector_id: f.connector_id,
                    path: f.path,
                    description: f.description,
                    schema,
                    tags,
                    metadata: if f.metadata_json is Some {
                        metadata
                    } else {
                        None
                    },
                },
            )
        },
        _ => None,
    }
}

/// The dataset that `r` holds, if it holds one.
pub open spec fn decode_dataset(r: RecordView) -> Option<DatasetView> {
    match dataset_fields(r) {
        Some(f) => dataset_of_parts(
            f,
            json_map_of(f.schema_json),
            json_list_of(f.tags_json),
            match f.metadata_json {
                Some(text) => json_map_of(text),
                None => None,
            },
        ),
        None => None,
    }
}

/// Decoding any record of a dataset gives the dataset back: also one without
/// provider, without metadata, or with no tags.
pub proof fn lemma_dataset_round_trip(r: RecordView, d: DatasetView)
    requires
        is_dataset_record(r, d),
    ensures
        decode_dataset(r) == Some(d),
{
    lemma_attr_names();
    lemma_tags();
    lemma_after_hash_of_tagged("DATASET#"@, d.id);
    lemma_after_hash_of_tagged("DATASETNAME#"@, d.name);
    let (schema_json, tags_json, metadata_json) = choose|
        schema_json: Seq<char>,
        tags_json: Seq<char>,
        metadata_json: Seq<char>,
    |
        #![trigger dataset_record(d, schema_json, tags_json, metadata_json)]
        {
            &&& r == dataset_record(d, schema_json, tags_json, metadata_json)
            &&& json_map_of(schema_json) == Some(d.schema)
            &&& json_list_of(tags_json) == Some(d.tags)
            &&& match d.metadata {
                Some(m) => metadata_json.len() > 0 && json_map_of(metadata_json) == Some(m),
                None => metadata_json.len() == 0,
            }
        };
}

impl DatasetFields {
    /// The plain fields of the dataset that `record` holds.
    pub fn from_record(record: &Record) -> (res: Result<DatasetFields, Error>)
        ensures
            match res {
                Ok(f) => dataset_fields(record@) == Some(f@),
                Err(e) => e == Error::Decode && dataset_fields(record@) is None,
            },
    {
        let id = tagged_value(record, "PK");
        let name = tagged_value(record, "GSI1PK");
        let provider = optional_text(record, "provider");
        let connector_id = text_value(record, "connector_id");
        let path = text_value(record, "path");
        let description = text_value(record, "description");
        let schema_json = text_value(record, "schema");
        let tags_json = text_value(record, "tags");
        let metadata_json = match optional_text(record, "metadata") {
            Some(Some(text)) => if text.as_str().unicode_len() == 0 {
                Some(None)
            } else {
                Some(Some(text))
            },
            other => other,
        };
        match (
            id,
            name,
            provider,
            connector_id,
            path,
            description,
            schema_json,
            tags_json,
            metadata_json,
        ) {
            (
                Some(id),
                Some(name),
                Some(provider),
                Some(connector_id),
                Some(path),
                Some(description),
                Some(schema_json),
                Some(tags_json),
                Some(metadata_json),
            ) => Ok(
                DatasetFields {
                    id,
                    name,
                    provider,
                    connector_id,
                    path,
                    description,
                    schema_json,
                    tags_json,
                    metadata_json,
                },
            ),
            _ => Err(Error::Decode),
        }
    }
}

/// What an attribute that may be absent stands for.
pub open spec fn opt_opt_text(v: Option<Option<String>>) -> Option<Option<Seq<char>>> {
    match v {
        Some(inner) => Some(opt_text(inner)),
        None => None,
    }
}

/// The string under `name`, where the attribute may be absent.
pub fn optional_text(record: &Record, name: &str) -> (value: Option<Option<String>>)
    ensures
        opt_opt_text(value) == optional_text_of(record@, name@),
{
    match record.get(name) {
        Some(AttrValue::S(s)) => Some(Some(s.clone())),
        Some(AttrValue::Bool(_)) => None,
        None => Some(None),
    }
}

impl Dataset {
    /// This dataset as a record that holds the given JSON texts.
    pub fn record_with(&self, schema_json: &str, tags_json: &str, metadata_json: &str) -> (record:
        Record)
        ensures
            record@ == dataset_record(self@, schema_json@, tags_json@, metadata_json@),
    {
        let mut record = keyed("DATASET#", self.id.as_str());
        index_lookup(&mut record, "DATASETNAME#", self.name.as_str());
        index_partition(&mut record, "TYPE#DATASET");
        match &self.provider {
            Some(provider) => {
                record.set_text("provider", provider.as_str());
            },
            None => {},
        }
        record.set_text("connector_id", self.connector_id.as_str());
        record.set_text("path", self.path.as_str());
        record.set_text("description", self.description.as_str());
        record.set_text("schema", schema_json);
        record.set_text("tags", tags_json);
        record.set_text("metadata", metadata_json);
        record
    }

    /// This dataset as a record, which decodes to this dataset again. The
    /// schema, the tags and the metadata are stored as JSON text. This never
    /// fails: a map or a list of strings can always be written as JSON.
    pub fn to_record(&self) -> (res: Result<Record, Error>)
        ensures
            res matches Ok(record) && is_dataset_record(record@, self@) && decode_dataset(record@)
                == Some(self@),
    {
        let schema_json = match map_to_json(&self.schema) {
            Some(text) => text,
            None => { return Err(Error::Upstream); },
        };
        let tags_json = match list_to_json(&self.tags) {
            Some(text) => text,
            None => { return Err(Error::Upstream); },
        };
        let metadata_json = match &self.metadata {
            Some(metadata) => match map_to_json(metadata) {
                Some(text) => text,
                None => { return Err(Error::Upstream); },
            },
            None => String::new(),
        };
        let record = self.record_with(
            schema_json.as_str(),
            tags_json.as_str(),
            metadata_json.as_str(),
        );
        proof {
            assert(record@ == dataset_record(self@, schema_json@, tags_json@, metadata_json@));
            lemma_dataset_round_trip(record@, self@);
        }
        Ok(record)
    }

    /// The dataset made of plain fields and of what was read from its JSON
    /// texts. `metadata` counts only where the fields hold a metadata text.
    pub fn from_parts(
        fields: DatasetFields,
        schema: Option<HashMap<String, String>>,
        tags: Option<Vec<String>>,
        metadata: Option<HashMap<String, String>>,
    ) -> (res: Result<Dataset, Error>)
        ensures
            match res {
                Ok(d) => dataset_of_parts(fields@, opt_map(schema), opt_list(tags), opt_map(metadata))
                    == Some(d@),
                Err(e) => e == Error::Decode && dataset_of_parts(
                    fields@,
                    opt_map(schema),
                    opt_list(tags),
                    opt_map(metadata),
                ) is None,
            },
    {
        let has_text = fields.metadata_json.is_some();
        match (schema, tags) {
            (Some(schema), Some(tags)) => {
                if has_text && metadata.is_none() {
                    return Err(Error::Decode);
                }
                let metadata = if has_text {
                    metadata
                } else {
                    None
                };
                Ok(
                    Dataset {
                        id: fields.id,
                        name: fields.name,
                        provider: fields.provider,
                        connector_id: fields.connector_id,
                        path: fields.path,
                        description: fields.description,
                        schema,
                        tags,
                        metadata,
                    },
                )
            },
            _ => Err(Error::Decode),
        }
    }

    /// The dataset that `record` holds.
    pub fn from(record: &Record) -> (res: Result<Dataset, Error>)
        ensures
            match res {
                Ok(d) => decode_dataset(record@) == Some(d@),
                Err(e) => e == Error::Decode && decode_dataset(record@) is None,
            },
    {
        let fields = match DatasetFields::from_record(record) {
            Ok(fields) => fields,
            Err(e) => { return Err(e); },
        };
        let schema = map_from_json(fields.schema_json.as_str());
        let tags = list_from_json(fields.tags_json.as_str());
        let metadata = match &fields.metadata_json {
            Some(text) => map_from_json(text.as_str()),
            None => None,
        };
        Dataset::from_parts(fields, schema, tags, metadata)
    }
}

// ---------------------------------------------------------------- keys and partitions

/// The primary key of the entity with `id` under `tag`: the tagged id, as
/// `PK` and as `SK`.
pub open spec fn primary(tag: Seq<char>, id: Seq<char>) -> (Seq<char>, Seq<char>) {
    (tag + id, tag + id)
}

/// A user's record carries the primary key of the user, and is found in
/// the lookup index under the user's email.
pub proof fn lemma_user_record_key(u: UserView)
    ensures
        key_of(user_record(u)) == Some(primary("USER#"@, u.id)),
        in_partition(user_record(u), Index::Gsi1, "EMAIL#"@ + u.email),
{
    lemma_attr_names();
}

/// An email record carries the email address as its primary key.
pub proof fn lemma_email_record_key(e: EmailView)
    ensures
        key_of(email_record(e)) == Some(primary("EMAIL#"@, e.email)),
{
    lemma_attr_names();
}

/// A session's record carries the token as its primary key. An identified
/// session is found in the lookup index under its user, and an anonymous
/// one is not in that index at all.
pub proof fn lemma_session_record_key(s: SessionView, value: Seq<char>)
    ensures
        key_of(session_record(s)) == Some(primary("SESSION#"@, s.id)),
        in_partition(session_record(s), Index::Gsi1, value) <==> match s.user_id {
            Some(user_id) => value == "USER#"@ + user_id,
            None => false,
        },
{
    lemma_attr_names();
}

/// An organization's record carries the primary key of the organization,
/// and is found in the lookup index under its name.
pub proof fn lemma_org_record_key(o: OrgView)
    ensures
        key_of(org_record(o)) == Some(primary("ORG#"@, o.id)),
        in_partition(org_record(o), Index::Gsi1, "ORGNAME#"@ + o.name),
{
    lemma_attr_names();
}

/// A team's record carries the primary key of the team, and lies in the
/// partition of teams in the listing index and in no other.
pub proof fn lemma_team_record_key(t: TeamView, value: Seq<char>)
    ensures
        key_of(team_record(t)) == Some(primary("TEAM#"@, t.id)),
        in_partition(team_record(t), Index::Gsi2, value) <==> value == "TYPE#TEAM"@,
{
    lemma_attr_names();
}

/// A connector's record carries the primary key of the connector, and lies
/// in the partition of connectors in the listing index and in no other.
pub proof fn lemma_connector_record_key(c: DetailsView, value: Seq<char>)
    ensures
        key_of(connector_record(c)) == Some(primary("CONNECTOR#"@, c.id)),
        in_partition(connector_record(c), Index::Gsi2, value) <==> value == "TYPE#CONNECTOR"@,
{
    lemma_attr_names();
}

/// A dataset's record carries the primary key of the dataset, and lies in
/// the partition of datasets in the listing index and in no other.
pub proof fn lemma_dataset_record_key(
    d: DatasetView,
    schema_json: Seq<char>,
    tags_json: Seq<char>,
    metadata_json: Seq<char>,
    value: Seq<char>,
)
    ensures
        key_of(dataset_record(d, schema_json, tags_json, metadata_json)) == Some(
            primary("DATASET#"@, d.id),
        ),
        in_partition(dataset_record(d, schema_json, tags_json, metadata_json), Index::Gsi2, value)
            <==> value == "TYPE#DATASET"@,
{
    lemma_attr_names();
}

} // verus!
