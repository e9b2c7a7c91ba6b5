use backend::data::config::UserStore;
use backend::data::store::EntityStore;
use backend::data::table::Table;
use backend::domain::auth::Context;
use backend::domain::connector::{Create, DataInfo, Details, Registry, Trait, Type};
use backend::domain::dataset::{CreateDataset, Dataset};
use backend::domain::postgresconnector::{available_datasets, data_info, qualified_name, split_path};
use backend::domain::session::Session;
use backend::domain::user::Profile;
use backend::error::Error;
use backend::routes::{connector, dataset};
use std::collections::HashMap;

/// A data source with one table, `public.orders`.
struct OneTable;

impl Trait for OneTable {
    fn get_available_datasets(&self) -> Result<Vec<String>, Error> {
        Ok(available_datasets(&vec![("public".to_string(), "orders".to_string())]))
    }

    fn get_data_info(&self, path: &str) -> Result<DataInfo, Error> {
        let (schema, table) = split_path(path)?;
        let columns = if schema == "public" && table == "orders" {
            vec![
                ("id".to_string(), "integer".to_string()),
                ("total".to_string(), "numeric".to_string()),
            ]
        } else {
            Vec::new()
        };
        data_info(&schema, &table, columns)
    }
}

fn context_of(role: Option<&str>) -> Context {
    match role {
        Some(role) => Context {
            session: Some(Session { id: "tok".to_string(), user_id: Some("u1".to_string()) }),
            identity: Some(Profile {
                id: "u1".to_string(),
                email: "u1@example.com".to_string(),
                first_name: "F".to_string(),
                last_name: "L".to_string(),
                role: role.to_string(),
                is_active: true,
            }),
        },
        None => Context { session: None, identity: None },
    }
}

fn sources() -> Registry<OneTable> {
    let mut registry = Registry::new();
    registry.insert("c1".to_string(), OneTable);
    registry
}

fn new_connector(name: &str, connection_string: &str) -> Create {
    Create {
        name: name.to_string(),
        kind: Type::Postgres,
        connection_string: connection_string.to_string(),
    }
}

fn new_dataset(name: &str, path: &str) -> CreateDataset {
    CreateDataset {
        name: name.to_string(),
        provider: None,
        connector_id: "c1".to_string(),
        path: path.to_string(),
        description: "d".to_string(),
        tags: vec!["t".to_string()],
        metadata: None,
    }
}

fn details(id: &str, name: &str) -> Details {
    Details {
        id: id.to_string(),
        name: name.to_string(),
        kind: Type::Postgres,
        connection_string: format!("postgres://user:pw@host/{}", name),
    }
}

fn stored_dataset(id: &str, name: &str) -> Dataset {
    Dataset {
        id: id.to_string(),
        name: name.to_string(),
        provider: None,
        connector_id: "c1".to_string(),
        path: "public.orders".to_string(),
        description: "".to_string(),
        schema: HashMap::new(),
        tags: Vec::new(),
        metadata: None,
    }
}

fn names_of_datasets(table: &Table) -> Vec<String> {
    let mut names: Vec<String> = table.get_datasets().unwrap().into_iter().map(|d| d.name).collect();
    names.sort();
    names
}

#[test]
fn qualified_names() {
    assert_eq!(qualified_name("public", "orders"), "public.orders");
    assert_eq!(qualified_name("", ""), ".");
    let rows = vec![
        ("public".to_string(), "orders".to_string()),
        ("sales".to_string(), "leads".to_string()),
    ];
    assert_eq!(available_datasets(&rows), vec!["public.orders".to_string(), "sales.leads".to_string()]);
    assert!(available_datasets(&Vec::new()).is_empty());
}

#[test]
fn a_path_has_exactly_two_parts() {
    assert_eq!(split_path("public.orders"), Ok(("public".to_string(), "orders".to_string())));
    assert_eq!(split_path(".orders"), Ok(("".to_string(), "orders".to_string())));
    assert_eq!(split_path("public."), Ok(("public".to_string(), "".to_string())));
    assert_eq!(split_path("."), Ok(("".to_string(), "".to_string())));
    assert_eq!(split_path("orders"), Err(Error::NotFound));
    assert_eq!(split_path(""), Err(Error::NotFound));
    assert_eq!(split_path("a.b.c"), Err(Error::NotFound));
    assert_eq!(split_path("a..b"), Err(Error::NotFound));
}

#[test]
fn a_table_without_columns_does_not_exist() {
    assert_eq!(data_info("public", "ghost", Vec::new()).err(), Some(Error::NotFound));
}

#[test]
fn data_info_holds_the_columns_reported() {
    let columns = vec![
        ("id".to_string(), "integer".to_string()),
        ("total".to_string(), "numeric".to_string()),
    ];
    let info = data_info("public", "orders", columns).unwrap();
    assert_eq!(info.path, "public.orders");
    assert_eq!(info.schema.len(), 2);
    assert_eq!(info.schema.get("id"), Some(&"integer".to_string()));
    assert_eq!(info.schema.get("total"), Some(&"numeric".to_string()));
}

#[test]
fn connectors_are_listed_with_or_without_their_connection_strings() {
    let mut table = Table::new();
    table.create_connector(details("c1", "main")).unwrap();
    table.create_connector(details("c2", "spare")).unwrap();
    let mut open = Details::get_connector_details(&table, false).unwrap();
    open.sort_by(|a, b| a.id.cmp(&b.id));
    assert_eq!(open.len(), 2);
    assert_eq!(open[0].connection_string, "postgres://user:pw@host/main");
    assert_eq!(open[1].connection_string, "postgres://user:pw@host/spare");
    let mut hidden = Details::get_connector_details(&table, true).unwrap();
    hidden.sort_by(|a, b| a.id.cmp(&b.id));
    assert_eq!(hidden.len(), 2);
    assert_eq!(hidden[0].id, "c1");
    assert_eq!(hidden[0].name, "main");
    assert_eq!(hidden[0].kind, Type::Postgres);
    assert_eq!(hidden[1].id, "c2");
    for shown in hidden.iter() {
        assert_eq!(shown.connection_string, "***");
        assert!(!shown.connection_string.contains("postgres://"));
    }
    let kept = table.get("CONNECTOR#c1", "CONNECTOR#c1").unwrap();
    assert_eq!(kept.text("connection_string"), Some("postgres://user:pw@host/main"));
}

#[test]
fn redact_blanks_the_connection_string_only() {
    let shown = details("c1", "main").redact();
    assert_eq!(shown.id, "c1");
    assert_eq!(shown.name, "main");
    assert_eq!(shown.kind, Type::Postgres);
    assert_eq!(shown.connection_string, "***");
}

#[test]
fn the_connector_route_never_shows_a_connection_string() {
    let mut table = Table::new();
    let admin = context_of(Some("superadmin"));
    assert_eq!(
        connector::create::<Table, OneTable>(&mut table, &admin, new_connector("main", "postgres://a:b@h/db")),
        Ok(())
    );
    let listed = connector::get(&table, &admin).unwrap();
    assert_eq!(listed.len(), 1);
    assert_eq!(listed[0].name, "main");
    assert_eq!(listed[0].id.len(), 8);
    assert_eq!(listed[0].connection_string, "***");
    let kept = Details::get_connector_details(&table, false).unwrap();
    assert_eq!(kept[0].connection_string, "postgres://a:b@h/db");
    assert_eq!(kept[0].id, listed[0].id);
}

#[test]
fn connector_routes_are_for_the_superadmin() {
    let mut table = Table::new();
    let payload = || new_connector("main", "postgres://a:b@h/db");
    assert_eq!(
        connector::create::<Table, OneTable>(&mut table, &context_of(Some("member")), payload()),
        Err(Error::Forbidden)
    );
    assert_eq!(
        connector::create::<Table, OneTable>(&mut table, &context_of(None), payload()),
        Err(Error::Unauthorized)
    );
    assert_eq!(table.len(), 0);
    assert_eq!(connector::get(&table, &context_of(Some("member"))).err(), Some(Error::Forbidden));
    assert_eq!(connector::get(&table, &context_of(None)).err(), Some(Error::Unauthorized));
}

#[test]
fn a_connector_lists_its_tables_for_the_superadmin() {
    let registry = sources();
    let admin = context_of(Some("superadmin"));
    assert_eq!(connector::all_datasets(&admin, &registry, "c1"), Ok(vec!["public.orders".to_string()]));
    assert_eq!(connector::all_datasets(&admin, &registry, "c2"), Err(Error::NotFound));
    assert_eq!(connector::all_datasets(&admin, &Registry::<OneTable>::new(), "c1"), Err(Error::NotFound));
    assert_eq!(
        connector::all_datasets(&context_of(Some("member")), &registry, "c1"),
        Err(Error::Forbidden)
    );
    assert_eq!(connector::all_datasets(&context_of(None), &registry, "c1"), Err(Error::Unauthorized));
}

#[test]
fn a_registry_finds_connectors_by_id() {
    let mut registry: Registry<u8> = Registry::new();
    assert!(registry.get("a").is_none());
    registry.insert("a".to_string(), 1);
    registry.insert("b".to_string(), 2);
    assert_eq!(registry.get("a"), Some(&1));
    assert_eq!(registry.get("b"), Some(&2));
    assert!(registry.get("c").is_none());
    assert!(registry.get("").is_none());
    registry.insert("a".to_string(), 3);
    assert_eq!(registry.get("a"), Some(&3));
    assert_eq!(registry.get("b"), Some(&2));
}

#[test]
fn a_dataset_takes_its_schema_from_the_connector() {
    let mut table = Table::new();
    let registry = sources();
    let mut payload = new_dataset("orders", "public.orders");
    payload.provider = Some("warehouse".to_string());
    let mut metadata = HashMap::new();
    metadata.insert("owner".to_string(), "ops".to_string());
    payload.metadata = Some(metadata.clone());
    assert_eq!(Dataset::create(&mut table, &registry, payload), Ok(()));
    let all = Dataset::get_all(&table).unwrap();
    assert_eq!(all.len(), 1);
    let made = &all[0];
    assert_eq!(made.id.len(), 8);
    assert!(made.id.chars().all(|c| c.is_ascii_alphanumeric()));
    assert_eq!(made.name, "orders");
    assert_eq!(made.provider, Some("warehouse".to_string()));
    assert_eq!(made.connector_id, "c1");
    assert_eq!(made.path, "public.orders");
    assert_eq!(made.description, "d");
    assert_eq!(made.tags, vec!["t".to_string()]);
    assert_eq!(made.metadata, Some(metadata));
    assert_eq!(made.schema.len(), 2);
    assert_eq!(made.schema.get("id"), Some(&"integer".to_string()));
    assert_eq!(made.schema.get("total"), Some(&"numeric".to_string()));
}

#[test]
fn a_dataset_is_not_created_without_connector_or_table() {
    let mut table = Table::new();
    let registry = sources();
    let mut elsewhere = new_dataset("orders", "public.orders");
    elsewhere.connector_id = "c9".to_string();
    assert_eq!(Dataset::create(&mut table, &registry, elsewhere), Err(Error::NotFound));
    assert_eq!(
        Dataset::create(&mut table, &registry, new_dataset("ghost", "public.ghost")),
        Err(Error::NotFound)
    );
    assert_eq!(
        Dataset::create(&mut table, &registry, new_dataset("bad", "no-dot")),
        Err(Error::NotFound)
    );
    assert_eq!(table.len(), 0);
}

#[test]
fn dataset_creation_is_for_the_superadmin_and_listing_for_all() {
    let mut table = Table::new();
    let registry = sources();
    assert_eq!(
        dataset::create(&mut table, &context_of(Some("member")), &registry, new_dataset("a", "public.orders")),
        Err(Error::Forbidden)
    );
    assert_eq!(
        dataset::create(&mut table, &context_of(None), &registry, new_dataset("a", "public.orders")),
        Err(Error::Unauthorized)
    );
    assert_eq!(table.len(), 0);
    assert_eq!(
        dataset::create(&mut table, &context_of(Some("superadmin")), &registry, new_dataset("a", "public.orders")),
        Ok(())
    );
    assert_eq!(dataset::get(&table, &context_of(None)).unwrap().len(), 1);
    assert_eq!(dataset::get(&table, &context_of(Some("member"))).unwrap().len(), 1);
    assert_eq!(dataset::get(&table, &context_of(Some("superadmin"))).unwrap()[0].name, "a");
}

#[test]
fn listing_gives_what_was_created_in_any_order() {
    let mut forward = Table::new();
    let mut backward = Table::new();
    let names = ["a", "b", "c", "d"];
    for (i, name) in names.iter().enumerate() {
        forward.create_dataset(stored_dataset(&format!("id{}", i), name)).unwrap();
    }
    for (i, name) in names.iter().enumerate().rev() {
        backward.create_dataset(stored_dataset(&format!("id{}", i), name)).unwrap();
    }
    let expected: Vec<String> = names.iter().map(|n| n.to_string()).collect();
    assert_eq!(names_of_datasets(&forward), expected);
    assert_eq!(names_of_datasets(&backward), expected);
}

#[test]
fn listings_of_different_kinds_do_not_mix() {
    let mut table = Table::new();
    table.create_dataset(stored_dataset("x1", "orders")).unwrap();
    table.create_connector(details("x1", "main")).unwrap();
    table.create_dataset(stored_dataset("x2", "leads")).unwrap();
    assert_eq!(names_of_datasets(&table), vec!["leads".to_string(), "orders".to_string()]);
    let connectors = table.get_connectors().unwrap();
    assert_eq!(connectors.len(), 1);
    assert_eq!(connectors[0].name, "main");
    assert_eq!(table.get_teams().unwrap().len(), 0);
    assert_eq!(table.len(), 3);
}

#[test]
fn creating_under_a_used_id_replaces() {
    let mut table = Table::new();
    table.create_dataset(stored_dataset("x1", "old")).unwrap();
    table.create_dataset(stored_dataset("x1", "new")).unwrap();
    assert_eq!(names_of_datasets(&table), vec!["new".to_string()]);
}

#[test]
fn an_empty_table_lists_nothing() {
    let table = Table::new();
    assert!(table.get_datasets().unwrap().is_empty());
    assert!(table.get_connectors().unwrap().is_empty());
    assert!(Details::get_connector_details(&table, true).unwrap().is_empty());
}
