use backend::data::config::{SessionStore, UserStore};
use backend::data::conversions::{index_lookup, index_partition, keyed, optional_text, tagged_value,
    text_value};
use backend::data::record::Record;
use backend::data::table::Table;
use backend::domain::connector::{Create, DataInfo, Registry, Trait, Type};
use backend::domain::dataset::{CreateDataset, Dataset};
use backend::domain::org::Org;
use backend::domain::team::Team;
use backend::error::Error;
use backend::text::{find_char, joined, starts_with, str_eq, tail_from};
use std::collections::HashMap;

struct NoSource;

impl Trait for NoSource {
    fn get_available_datasets(&self) -> Result<Vec<String>, Error> {
        Err(Error::Upstream)
    }

    fn get_data_info(&self, _path: &str) -> Result<DataInfo, Error> {
        Err(Error::Upstream)
    }
}

#[test]
fn str_eq_compares_characters() {
    assert!(str_eq("", ""));
    assert!(str_eq("abc", "abc"));
    assert!(str_eq("héllo", "héllo"));
    assert!(!str_eq("abc", "abd"));
    assert!(!str_eq("abc", "ab"));
    assert!(!str_eq("ab", "abc"));
    assert!(!str_eq("", "a"));
    assert!(!str_eq("e\u{301}", "\u{e9}"));
}

#[test]
fn find_char_counts_characters_not_bytes() {
    assert_eq!(find_char("a#b#c", '#'), Some(1));
    assert_eq!(find_char("#", '#'), Some(0));
    assert_eq!(find_char("abc", '#'), None);
    assert_eq!(find_char("", '#'), None);
    assert_eq!(find_char("éé#", '#'), Some(2));
}

#[test]
fn joined_and_tail_from() {
    assert_eq!(joined("ab", "cd"), "abcd");
    assert_eq!(joined("", ""), "");
    assert_eq!(tail_from("abcd", 0), "abcd");
    assert_eq!(tail_from("abcd", 2), "cd");
    assert_eq!(tail_from("abcd", 4), "");
    assert_eq!(tail_from("éab", 1), "ab");
}

#[test]
fn starts_with_prefixes() {
    assert!(starts_with("/datasets/1", "/datasets"));
    assert!(starts_with("abc", ""));
    assert!(starts_with("", ""));
    assert!(starts_with("abc", "abc"));
    assert!(!starts_with("ab", "abc"));
    assert!(!starts_with("xabc", "abc"));
    assert!(starts_with("éa", "é"));
}

#[test]
fn index_helpers_set_both_attributes() {
    let mut record = keyed("TEAM#", "t1");
    index_lookup(&mut record, "TEAMNAME#", "Core");
    index_partition(&mut record, "TYPE#TEAM");
    assert_eq!(record.text("GSI1PK"), Some("TEAMNAME#Core"));
    assert_eq!(record.text("GSI1SK"), Some("TEAMNAME#Core"));
    assert_eq!(record.text("GSI2PK"), Some("TYPE#TEAM"));
    assert_eq!(record.text("GSI2SK"), Some("TYPE#TEAM"));
}

#[test]
fn attribute_readers() {
    let mut record = Record::new();
    record.set_text("a", "X#y");
    record.set_text("b", "plain");
    record.set_flag("c", true);
    assert_eq!(text_value(&record, "a"), Some("X#y".to_string()));
    assert_eq!(text_value(&record, "c"), None);
    assert_eq!(text_value(&record, "z"), None);
    assert_eq!(tagged_value(&record, "a"), Some("y".to_string()));
    assert_eq!(tagged_value(&record, "b"), None);
    assert_eq!(tagged_value(&record, "c"), None);
    assert_eq!(tagged_value(&record, "z"), None);
    assert_eq!(optional_text(&record, "a"), Some(Some("X#y".to_string())));
    assert_eq!(optional_text(&record, "z"), Some(None));
    assert_eq!(optional_text(&record, "c"), None);
}

#[test]
fn a_dataset_is_made_of_payload_id_and_schema() {
    let mut schema = HashMap::new();
    schema.insert("id".to_string(), "integer".to_string());
    let payload = CreateDataset {
        name: "orders".to_string(),
        provider: Some("p".to_string()),
        connector_id: "c1".to_string(),
        path: "public.orders".to_string(),
        description: "d".to_string(),
        tags: vec!["t".to_string()],
        metadata: None,
    };
    let dataset = Dataset::from_create("DS1".to_string(), payload, schema.clone());
    assert_eq!(dataset.id, "DS1");
    assert_eq!(dataset.name, "orders");
    assert_eq!(dataset.provider, Some("p".to_string()));
    assert_eq!(dataset.connector_id, "c1");
    assert_eq!(dataset.path, "public.orders");
    assert_eq!(dataset.description, "d");
    assert_eq!(dataset.schema, schema);
    assert_eq!(dataset.tags, vec!["t".to_string()]);
    assert_eq!(dataset.metadata, None);
}

#[test]
fn a_failing_connector_stores_nothing() {
    let mut table = Table::new();
    let payload = CreateDataset {
        name: "orders".to_string(),
        provider: None,
        connector_id: "c1".to_string(),
        path: "public.orders".to_string(),
        description: "d".to_string(),
        tags: Vec::new(),
        metadata: None,
    };
    let mut registry = Registry::new();
    registry.insert("c1".to_string(), NoSource);
    assert_eq!(Dataset::create(&mut table, &registry, payload), Err(Error::Upstream));
    assert_eq!(table.len(), 0);
}

#[test]
fn create_record_stores_a_connector_under_a_fresh_id() {
    let mut table = Table::new();
    let conn = Create {
        name: "main".to_string(),
        kind: Type::Postgres,
        connection_string: "postgres://h/db".to_string(),
    };
    assert_eq!(NoSource::create_record(&mut table, conn), Ok(()));
    let stored = table.get_connectors().unwrap();
    assert_eq!(stored.len(), 1);
    assert_eq!(stored[0].id.len(), 8);
    assert!(stored[0].id.chars().all(|c| c.is_ascii_alphanumeric()));
    assert_eq!(stored[0].name, "main");
    assert_eq!(stored[0].kind, Type::Postgres);
    assert_eq!(stored[0].connection_string, "postgres://h/db");
}

#[test]
fn repositories_read_what_they_wrote() {
    let mut table = Table::new();
    let org = Org { id: "o1".to_string(), name: "Acme".to_string(), active: false };
    assert_eq!(table.create_org(&org), Ok(()));
    let back = table.get_org_by_id("o1").unwrap();
    assert_eq!(back.name, "Acme");
    assert!(!back.active);
    assert_eq!(table.get_org_by_id("o2").err(), Some(Error::NotFound));
    let team = Team { id: "t1".to_string(), name: "Core".to_string(), active: true };
    assert_eq!(table.create_team(&team), Ok(()));
    assert_eq!(table.get_team_by_id("t1").unwrap().name, "Core");
    assert_eq!(table.get_team_by_id("o1").err(), Some(Error::NotFound));
    assert_eq!(table.create_session(None, "tok"), Ok(()));
    assert_eq!(table.get_session_by_id("tok").unwrap().user_id, None);
    assert_eq!(table.get_session_by_id("t1").err(), Some(Error::NotFound));
    assert_eq!(table.delete_org("o1"), Ok(()));
    assert_eq!(table.get_org_by_id("o1").err(), Some(Error::NotFound));
    assert_eq!(table.len(), 2);
}

#[test]
fn create_described_stores_what_the_connector_gave() {
    let mut table = Table::new();
    let payload = || CreateDataset {
        name: "orders".to_string(),
        provider: None,
        connector_id: "c1".to_string(),
        path: "public.orders".to_string(),
        description: "d".to_string(),
        tags: vec!["t".to_string()],
        metadata: None,
    };
    let mut schema = HashMap::new();
    schema.insert("id".to_string(), "integer".to_string());
    let info = DataInfo { path: "public.orders".to_string(), schema: schema.clone() };
    assert_eq!(Dataset::create_described(&mut table, "DS000001".to_string(), payload(), Ok(info)), Ok(()));
    let stored = table.get_datasets().unwrap();
    assert_eq!(stored.len(), 1);
    assert_eq!(stored[0].id, "DS000001");
    assert_eq!(stored[0].name, "orders");
    assert_eq!(stored[0].schema, schema);
    assert_eq!(stored[0].tags, vec!["t".to_string()]);
    assert_eq!(
        Dataset::create_described(&mut table, "DS000002".to_string(), payload(), Err(Error::NotFound)),
        Err(Error::NotFound)
    );
    assert_eq!(
        Dataset::create_described(&mut table, "DS000003".to_string(), payload(), Err(Error::Upstream)),
        Err(Error::Upstream)
    );
    assert_eq!(table.len(), 1);
}

#[test]
fn a_dataset_is_always_written_as_a_record() {
    let mut metadata = HashMap::new();
    metadata.insert("k\"\n\u{0}".to_string(), "\u{1F600}\\".to_string());
    let dataset = Dataset {
        id: "".to_string(),
        name: "".to_string(),
        provider: Some("".to_string()),
        connector_id: "".to_string(),
        path: "".to_string(),
        description: "".to_string(),
        schema: metadata.clone(),
        tags: vec!["".to_string(), "\"".to_string(), "\u{7f}".to_string()],
        metadata: Some(metadata.clone()),
    };
    let record = dataset.to_record().unwrap();
    let back = Dataset::from(&record).unwrap();
    assert_eq!(back.schema, metadata);
    assert_eq!(back.metadata, Some(metadata));
    assert_eq!(back.tags, dataset.tags);
    assert_eq!(back.provider, Some("".to_string()));
}
