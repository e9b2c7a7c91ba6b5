use backend::data::conversions::{keyed, DatasetFields};
use backend::data::keys::{split_at_hash, strip_tag, tagged, Index};
use backend::data::record::{AttrValue, Record};
use backend::domain::connector::{Details, Type};
use backend::domain::dataset::Dataset;
use backend::domain::org::Org;
use backend::domain::session::Session;
use backend::domain::team::Team;
use backend::domain::user::{Email, Profile, User};
use backend::error::Error;
use std::collections::HashMap;

fn sample_user() -> User {
    User {
        id: "7F3K2abcde".to_string(),
        email: "ada@example.com".to_string(),
        first_name: "Ada".to_string(),
        last_name: "Lovelace".to_string(),
        role: "superadmin".to_string(),
        is_active: true,
        hash: "$argon2id$v=19$m=19456,t=2,p=1$c2FsdA$aGFzaA".to_string(),
    }
}

fn text<'a>(record: &'a Record, name: &str) -> Option<&'a str> {
    record.text(name)
}

fn sample_dataset() -> Dataset {
    let mut schema = HashMap::new();
    schema.insert("id".to_string(), "integer".to_string());
    Dataset {
        id: "DS000001".to_string(),
        name: "orders".to_string(),
        provider: Some("warehouse".to_string()),
        connector_id: "CN000001".to_string(),
        path: "public.orders".to_string(),
        description: "All orders".to_string(),
        schema,
        tags: vec!["sales".to_string(), "daily".to_string()],
        metadata: None,
    }
}

#[test]
fn split_at_hash_takes_what_follows_the_first_hash() {
    assert_eq!(split_at_hash("USER#7F3K2"), "7F3K2");
    assert_eq!(split_at_hash("EMAIL#a#b"), "a#b");
    assert_eq!(split_at_hash("#"), "");
    assert_eq!(split_at_hash("ORGNAME#"), "");
}

#[test]
fn strip_tag_is_none_without_a_hash() {
    assert_eq!(strip_tag("USER"), None);
    assert_eq!(strip_tag(""), None);
    assert_eq!(strip_tag("TEAM#t1"), Some("t1"));
    assert_eq!(strip_tag("é#ü"), Some("ü"));
}

#[test]
fn tagged_joins_tag_and_value() {
    assert_eq!(tagged("USER#", "7F3K2"), "USER#7F3K2");
    assert_eq!(tagged("EMAIL#", ""), "EMAIL#");
}

#[test]
fn index_names_and_attributes() {
    assert_eq!(Index::Gsi1.name(), "GSI1");
    assert_eq!(Index::Gsi2.name(), "GSI2");
    assert_eq!(Index::Gsi1.attribute(), "GSI1PK");
    assert_eq!(Index::Gsi2.attribute(), "GSI2PK");
}

#[test]
fn record_keeps_the_last_value_set() {
    let mut record = Record::new();
    assert!(!record.contains("a"));
    record.set_text("a", "one");
    record.set_flag("b", true);
    record.set_text("a", "two");
    assert_eq!(record.text("a"), Some("two"));
    assert_eq!(record.flag("b"), Some(true));
    assert_eq!(record.text("b"), None);
    assert_eq!(record.flag("a"), None);
    assert!(record.get("c").is_none());
    let copy = record.clone();
    assert_eq!(copy.text("a"), Some("two"));
    assert_eq!(copy.flag("b"), Some(true));
}

#[test]
fn keyed_sets_both_key_attributes() {
    let record = keyed("ORG#", "o1");
    assert_eq!(text(&record, "PK"), Some("ORG#o1"));
    assert_eq!(text(&record, "SK"), Some("ORG#o1"));
}

#[test]
fn user_record_layout() {
    let record = sample_user().to_record();
    assert_eq!(text(&record, "PK"), Some("USER#7F3K2abcde"));
    assert_eq!(text(&record, "SK"), Some("USER#7F3K2abcde"));
    assert_eq!(text(&record, "GSI1PK"), Some("EMAIL#ada@example.com"));
    assert_eq!(text(&record, "GSI1SK"), Some("EMAIL#ada@example.com"));
    assert_eq!(text(&record, "GSI2PK"), Some("USERTYPE#superadmin"));
    assert_eq!(text(&record, "GSI2SK"), Some("USERTYPE#superadmin"));
    assert_eq!(text(&record, "first_name"), Some("Ada"));
    assert_eq!(text(&record, "last_name"), Some("Lovelace"));
    assert_eq!(text(&record, "user_type"), Some("superadmin"));
    assert_eq!(record.flag("is_active"), Some(true));
    assert_eq!(text(&record, "hash"), Some("$argon2id$v=19$m=19456,t=2,p=1$c2FsdA$aGFzaA"));
}

#[test]
fn user_round_trip() {
    let user = sample_user();
    let back = User::from(&user.to_record()).unwrap();
    assert_eq!(back.id, user.id);
    assert_eq!(back.email, user.email);
    assert_eq!(back.first_name, user.first_name);
    assert_eq!(back.last_name, user.last_name);
    assert_eq!(back.role, user.role);
    assert_eq!(back.is_active, user.is_active);
    assert_eq!(back.hash, user.hash);
}

#[test]
fn user_round_trip_with_hashes_in_every_field() {
    let user = User {
        id: "a#b".to_string(),
        email: "#@#".to_string(),
        first_name: "".to_string(),
        last_name: "#".to_string(),
        role: "x#y".to_string(),
        is_active: false,
        hash: "".to_string(),
    };
    let back = User::from(&user.to_record()).unwrap();
    assert_eq!(back.id, "a#b");
    assert_eq!(back.email, "#@#");
    assert_eq!(back.first_name, "");
    assert_eq!(back.last_name, "#");
    assert_eq!(back.role, "x#y");
    assert!(!back.is_active);
    assert_eq!(back.hash, "");
}

#[test]
fn user_decode_fails_without_a_required_attribute() {
    let mut record = keyed("USER#", "u1");
    record.set_text("GSI1PK", "EMAIL#a@b.c");
    record.set_text("first_name", "A");
    record.set_text("last_name", "B");
    record.set_text("user_type", "member");
    record.set_text("hash", "h");
    assert_eq!(User::from(&record).err(), Some(Error::Decode));
    record.set_flag("is_active", true);
    assert!(User::from(&record).is_ok());
}

#[test]
fn user_decode_fails_on_a_wrongly_typed_attribute() {
    let mut record = sample_user().to_record();
    record.set_text("is_active", "true");
    assert_eq!(User::from(&record).err(), Some(Error::Decode));
    let mut record = sample_user().to_record();
    record.set_flag("hash", true);
    assert_eq!(User::from(&record).err(), Some(Error::Decode));
}

#[test]
fn user_decode_fails_on_a_key_without_hash() {
    let mut record = sample_user().to_record();
    record.set_text("PK", "USER");
    assert_eq!(User::from(&record).err(), Some(Error::Decode));
}

#[test]
fn decode_strips_whatever_tag_stands_first() {
    let mut record = sample_user().to_record();
    record.set_text("PK", "ANYTHING#u9");
    assert_eq!(User::from(&record).unwrap().id, "u9");
}

#[test]
fn email_round_trip_and_layout() {
    let email = Email { email: "ada@example.com".to_string(), user_id: "u1".to_string() };
    let record = email.to_record();
    assert_eq!(text(&record, "PK"), Some("EMAIL#ada@example.com"));
    assert_eq!(text(&record, "SK"), Some("EMAIL#ada@example.com"));
    assert_eq!(text(&record, "GSI1PK"), Some("USER#u1"));
    assert_eq!(text(&record, "GSI1SK"), Some("USER#u1"));
    let back = Email::from(&record).unwrap();
    assert_eq!(back.email, "ada@example.com");
    assert_eq!(back.user_id, "u1");
    assert_eq!(Email::from(&Record::new()).err(), Some(Error::Decode));
}

#[test]
fn session_round_trip_identified() {
    let session = Session { id: "tok".to_string(), user_id: Some("u1".to_string()) };
    let record = session.to_record();
    assert_eq!(text(&record, "PK"), Some("SESSION#tok"));
    assert_eq!(text(&record, "SK"), Some("SESSION#tok"));
    assert_eq!(text(&record, "GSI1PK"), Some("USER#u1"));
    assert_eq!(text(&record, "GSI1SK"), Some("USER#u1"));
    let back = Session::from(&record).unwrap();
    assert_eq!(back.id, "tok");
    assert_eq!(back.user_id, Some("u1".to_string()));
}

#[test]
fn session_round_trip_anonymous() {
    let session = Session { id: "tok".to_string(), user_id: None };
    let record = session.to_record();
    assert!(!record.contains("GSI1PK"));
    assert!(!record.contains("GSI1SK"));
    let back = Session::from(&record).unwrap();
    assert_eq!(back.id, "tok");
    assert_eq!(back.user_id, None);
}

#[test]
fn session_decode_fails_on_malformed_owner() {
    let mut record = keyed("SESSION#", "tok");
    record.set_text("GSI1PK", "no-hash-here");
    assert_eq!(Session::from(&record).err(), Some(Error::Decode));
    let mut record = keyed("SESSION#", "tok");
    record.set_flag("GSI1PK", true);
    assert_eq!(Session::from(&record).err(), Some(Error::Decode));
}

#[test]
fn org_round_trip_and_layout() {
    let org = Org { id: "o1".to_string(), name: "Acme".to_string(), active: true };
    let record = org.to_record();
    assert_eq!(text(&record, "PK"), Some("ORG#o1"));
    assert_eq!(text(&record, "GSI1PK"), Some("ORGNAME#Acme"));
    assert_eq!(text(&record, "GSI1SK"), Some("ORGNAME#Acme"));
    assert_eq!(record.flag("is_active"), Some(true));
    assert!(!record.contains("GSI2PK"));
    let back = Org::from(&record).unwrap();
    assert_eq!(back.id, "o1");
    assert_eq!(back.name, "Acme");
    assert!(back.active);
}

#[test]
fn team_round_trip_and_layout() {
    let team = Team { id: "t1".to_string(), name: "Core".to_string(), active: false };
    let record = team.to_record();
    assert_eq!(text(&record, "PK"), Some("TEAM#t1"));
    assert_eq!(text(&record, "GSI1PK"), Some("TEAMNAME#Core"));
    assert_eq!(text(&record, "GSI2PK"), Some("TYPE#TEAM"));
    assert_eq!(text(&record, "GSI2SK"), Some("TYPE#TEAM"));
    let back = Team::from(&record).unwrap();
    assert_eq!(back.id, "t1");
    assert_eq!(back.name, "Core");
    assert!(!back.active);
}

#[test]
fn connector_round_trip_and_layout() {
    let details = Details {
        id: "c1".to_string(),
        name: "main".to_string(),
        kind: Type::Postgres,
        connection_string: "postgres://u:p@host/db".to_string(),
    };
    let record = details.to_record();
    assert_eq!(text(&record, "PK"), Some("CONNECTOR#c1"));
    assert_eq!(text(&record, "GSI1PK"), Some("CONNECTORNAME#main"));
    assert_eq!(text(&record, "GSI2PK"), Some("TYPE#CONNECTOR"));
    assert_eq!(text(&record, "GSI2SK"), Some("TYPE#CONNECTOR"));
    assert_eq!(text(&record, "connection_string"), Some("postgres://u:p@host/db"));
    assert_eq!(text(&record, "connector_type"), Some("postgres"));
    let back = Details::from(&record).unwrap();
    assert_eq!(back.id, "c1");
    assert_eq!(back.name, "main");
    assert_eq!(back.kind, Type::Postgres);
    assert_eq!(back.connection_string, "postgres://u:p@host/db");
}

#[test]
fn connector_decode_fails_on_unknown_kind() {
    let details = Details {
        id: "c1".to_string(),
        name: "main".to_string(),
        kind: Type::Postgres,
        connection_string: "x".to_string(),
    };
    let mut record = details.to_record();
    record.set_text("connector_type", "mysql");
    assert_eq!(Details::from(&record).err(), Some(Error::Decode));
}

#[test]
fn connector_kind_names() {
    assert_eq!(Type::Postgres.name(), "postgres");
    assert_eq!(Type::Postgres.to_string(), "postgres");
    assert_eq!(Type::parse("postgres"), Some(Type::Postgres));
    assert_eq!(Type::parse("Postgres"), None);
    assert_eq!(Type::parse(""), None);
}

#[test]
fn dataset_record_layout() {
    let record = sample_dataset().to_record().unwrap();
    assert_eq!(text(&record, "PK"), Some("DATASET#DS000001"));
    assert_eq!(text(&record, "SK"), Some("DATASET#DS000001"));
    assert_eq!(text(&record, "GSI1PK"), Some("DATASETNAME#orders"));
    assert_eq!(text(&record, "GSI1SK"), Some("DATASETNAME#orders"));
    assert_eq!(text(&record, "GSI2PK"), Some("TYPE#DATASET"));
    assert_eq!(text(&record, "GSI2SK"), Some("TYPE#DATASET"));
    assert_eq!(text(&record, "provider"), Some("warehouse"));
    assert_eq!(text(&record, "connector_id"), Some("CN000001"));
    assert_eq!(text(&record, "path"), Some("public.orders"));
    assert_eq!(text(&record, "description"), Some("All orders"));
    assert_eq!(text(&record, "schema"), Some("{\"id\":\"integer\"}"));
    assert_eq!(text(&record, "tags"), Some("[\"sales\",\"daily\"]"));
    assert_eq!(text(&record, "metadata"), Some(""));
}

#[test]
fn dataset_round_trip() {
    let dataset = sample_dataset();
    let back = Dataset::from(&dataset.to_record().unwrap()).unwrap();
    assert_eq!(back.id, dataset.id);
    assert_eq!(back.name, dataset.name);
    assert_eq!(back.provider, dataset.provider);
    assert_eq!(back.connector_id, dataset.connector_id);
    assert_eq!(back.path, dataset.path);
    assert_eq!(back.description, dataset.description);
    assert_eq!(back.schema, dataset.schema);
    assert_eq!(back.tags, dataset.tags);
    assert_eq!(back.metadata, None);
}

#[test]
fn dataset_round_trip_with_empty_optional_fields() {
    let dataset = Dataset {
        id: "d".to_string(),
        name: "n".to_string(),
        provider: None,
        connector_id: "c".to_string(),
        path: "s.t".to_string(),
        description: "".to_string(),
        schema: HashMap::new(),
        tags: Vec::new(),
        metadata: None,
    };
    let record = dataset.to_record().unwrap();
    assert!(!record.contains("provider"));
    assert_eq!(text(&record, "schema"), Some("{}"));
    assert_eq!(text(&record, "tags"), Some("[]"));
    let back = Dataset::from(&record).unwrap();
    assert_eq!(back.provider, None);
    assert!(back.schema.is_empty());
    assert!(back.tags.is_empty());
    assert_eq!(back.metadata, None);
}

#[test]
fn dataset_round_trip_with_metadata() {
    let mut dataset = sample_dataset();
    let mut metadata = HashMap::new();
    metadata.insert("owner".to_string(), "data \"team\"\n#1".to_string());
    metadata.insert("tier".to_string(), "gold".to_string());
    dataset.metadata = Some(metadata.clone());
    dataset.schema.insert("total".to_string(), "numeric".to_string());
    let back = Dataset::from(&dataset.to_record().unwrap()).unwrap();
    assert_eq!(back.metadata, Some(metadata));
    assert_eq!(back.schema, dataset.schema);
}

#[test]
fn dataset_round_trip_with_empty_metadata_map() {
    let mut dataset = sample_dataset();
    dataset.metadata = Some(HashMap::new());
    let record = dataset.to_record().unwrap();
    assert_eq!(text(&record, "metadata"), Some("{}"));
    let back = Dataset::from(&record).unwrap();
    assert_eq!(back.metadata, Some(HashMap::new()));
}

#[test]
fn dataset_without_metadata_attribute_has_no_metadata() {
    let dataset = sample_dataset();
    let record = dataset.record_with("{}", "[]", "");
    let mut bare = Record::new();
    for attribute in record.entries.iter() {
        if attribute.name != "metadata" {
            bare.insert(&attribute.name, attribute.value.clone());
        }
    }
    assert!(!bare.contains("metadata"));
    let back = Dataset::from(&bare).unwrap();
    assert_eq!(back.metadata, None);
}

#[test]
fn dataset_decode_fails_on_bad_json() {
    let dataset = sample_dataset();
    let record = dataset.record_with("not json", "[]", "");
    assert_eq!(Dataset::from(&record).err(), Some(Error::Decode));
    let record = dataset.record_with("{}", "{\"a\":1}", "");
    assert_eq!(Dataset::from(&record).err(), Some(Error::Decode));
    let record = dataset.record_with("{}", "[]", "[1,2]");
    assert_eq!(Dataset::from(&record).err(), Some(Error::Decode));
    let record = dataset.record_with("{\"a\":1}", "[]", "");
    assert_eq!(Dataset::from(&record).err(), Some(Error::Decode));
}

#[test]
fn dataset_decode_fails_on_wrongly_typed_optional_attribute() {
    let mut record = sample_dataset().to_record().unwrap();
    record.set_flag("provider", true);
    assert_eq!(Dataset::from(&record).err(), Some(Error::Decode));
    let mut record = sample_dataset().to_record().unwrap();
    record.set_flag("metadata", false);
    assert_eq!(Dataset::from(&record).err(), Some(Error::Decode));
}

#[test]
fn dataset_fields_are_read_before_any_json() {
    let record = sample_dataset().record_with("not json", "[\"x\"]", "{}");
    let fields = DatasetFields::from_record(&record).unwrap();
    assert_eq!(fields.id, "DS000001");
    assert_eq!(fields.name, "orders");
    assert_eq!(fields.provider, Some("warehouse".to_string()));
    assert_eq!(fields.schema_json, "not json");
    assert_eq!(fields.tags_json, "[\"x\"]");
    assert_eq!(fields.metadata_json, Some("{}".to_string()));
    let record = sample_dataset().record_with("{}", "[]", "");
    let fields = DatasetFields::from_record(&record).unwrap();
    assert_eq!(fields.metadata_json, None);
}

#[test]
fn dataset_from_parts_needs_every_text_read() {
    let fields = || DatasetFields::from_record(&sample_dataset().record_with("{}", "[]", "{}")).unwrap();
    let ok = Dataset::from_parts(fields(), Some(HashMap::new()), Some(Vec::new()), Some(HashMap::new()));
    assert_eq!(ok.unwrap().metadata, Some(HashMap::new()));
    let no_schema = Dataset::from_parts(fields(), None, Some(Vec::new()), Some(HashMap::new()));
    assert_eq!(no_schema.err(), Some(Error::Decode));
    let no_tags = Dataset::from_parts(fields(), Some(HashMap::new()), None, Some(HashMap::new()));
    assert_eq!(no_tags.err(), Some(Error::Decode));
    let no_metadata = Dataset::from_parts(fields(), Some(HashMap::new()), Some(Vec::new()), None);
    assert_eq!(no_metadata.err(), Some(Error::Decode));
    let plain = DatasetFields::from_record(&sample_dataset().record_with("{}", "[]", "")).unwrap();
    let ignored = Dataset::from_parts(plain, Some(HashMap::new()), Some(Vec::new()), Some(HashMap::new()));
    assert_eq!(ignored.unwrap().metadata, None);
}

#[test]
fn profile_leaves_out_the_hash() {
    let profile = Profile::from(sample_user());
    assert_eq!(profile.id, "7F3K2abcde");
    assert_eq!(profile.email, "ada@example.com");
    assert_eq!(profile.first_name, "Ada");
    assert_eq!(profile.last_name, "Lovelace");
    assert_eq!(profile.role, "superadmin");
    assert!(profile.is_active);
}

#[test]
fn attribute_values_copy() {
    let value = AttrValue::S("x".to_string());
    match value.clone() {
        AttrValue::S(s) => assert_eq!(s, "x"),
        AttrValue::Bool(_) => panic!("a string was copied as a boolean"),
    }
}
