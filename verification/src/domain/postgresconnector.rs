//! What is computed around a PostgreSQL connection: the names under which
//! its tables are offered, and what is made of the columns it reports.

use crate::domain::connector::DataInfo;
use crate::error::Error;
use crate::text::{find_char, first_index_of, joined, lemma_first_index_of, tail_from};
use std::collections::HashMap;
use vstd::prelude::*;
use vstd::string::*;

verus! {

/// The name of table `table` in schema `schema`: `schema.table`.
pub open spec fn qualified(schema: Seq<char>, table: Seq<char>) -> Seq<char> {
    schema + "."@ + table
}

/// The two parts of a path `schema.table`. A path without a dot, or with
/// more than one, has none.
pub open spec fn path_parts(path: Seq<char>) -> Option<(Seq<char>, Seq<char>)> {
    match first_index_of(path, '.') {
        Some(i) => if first_index_of(path.skip(i + 1), '.') is None {
            Some((path.take(i), path.skip(i + 1)))
        } else {
            None
        },
        None => None,
    }
}

/// The name of table `table` in schema `schema`.
pub fn qualified_name(schema: &str, table: &str) -> (name: String)
    ensures
        name@ == qualified(schema@, table@),
{
    let head = joined(schema, ".");
    joined(head.as_str(), table)
}

/// The names of the tables in `rows`, each row a schema and a table.
pub fn available_datasets(rows: &Vec<(String, String)>) -> (names: Vec<String>)
    ensures
        names@.len() == rows@.len(),
        forall|i: int|
            0 <= i < rows@.len() ==> (#[trigger] names@[i])@ == qualified(rows@[i].0@, rows@[i].1@),
{
    let mut names: Vec<String> = Vec::new();
    let n = rows.len();
    let mut i: usize = 0;
    while i < n
        invariant
            n == rows@.len(),
            i <= n,
            names@.len() == i,
            forall|j: int|
                0 <= j < i ==> (#[trigger] names@[j])@ == qualified(rows@[j].0@, rows@[j].1@),
        decreases n - i,
    {
        names.push(qualified_name(rows[i].0.as_str(), rows[i].1.as_str()));
        i += 1;
    }
    names
}

/// The schema and the table that `path` names. `Error::NotFound` where the
/// path is not of the form `schema.table`.
pub fn split_path(path: &str) -> (res: Result<(String, String), Error>)
    ensures
        match res {
            Ok((schema, table)) => path_parts(path@) == Some((schema@, table@)),
            Err(e) => e == Error::NotFound && path_parts(path@) is None,
        },
{
    let dot = match find_char(path, '.') {
        Some(dot) => dot,
        None => { return Err(Error::NotFound); },
    };
    let n = path.unicode_len();
    proof {
        lemma_first_index_of(path@, '.');
    }
    let table = tail_from(path, dot + 1);
    if find_char(table, '.').is_some() {
        return Err(Error::NotFound);
    }
    let schema = path.substring_char(0, dot);
    Ok((schema.to_owned(), table.to_owned()))
}

/// Whether `schema` holds exactly the columns of `columns`: each column's
/// name with a type that the list gives for that name.
pub open spec fn holds_columns(
    schema: Map<Seq<char>, Seq<char>>,
    columns: Seq<(String, String)>,
) -> bool {
    &&& forall|i: int| 0 <= i < columns.len() ==> schema.contains_key(#[trigger] columns[i].0@)
    &&& forall|name: Seq<char>| #[trigger]
        schema.contains_key(name) ==> exists|i: int|
            0 <= i < columns.len() && (#[trigger] columns[i]).0@ == name && columns[i].1@
                == schema[name]
}

/// Calls `HashMap::from_iter` of std on the list. Trusted: the map has a
/// key for each first component and for nothing else, and under each key a
/// second component that the list pairs with it. Which one, where a name
/// comes twice, std does not say.
#[verifier::external_body]
fn columns_map(columns: Vec<(String, String)>) -> (schema: HashMap<String, String>)
    ensures
        holds_columns(schema.deep_view(), columns@),
{
    HashMap::from_iter(columns)
}

/// What is known of table `table_name` in schema `schema_name`, given the
/// columns that the data source reports for it, each a name and a type.
/// `Error::NotFound` where it reports none: the table does not exist.
pub fn data_info(schema_name: &str, table_name: &str, columns: Vec<(String, String)>) -> (res:
    Result<DataInfo, Error>)
    ensures
        match res {
            Ok(info) => columns@.len() > 0 && info@.path == qualified(schema_name@, table_name@)
                && holds_columns(info@.schema, columns@),
            Err(e) => e == Error::NotFound && columns@.len() == 0,
        },
{
    if columns.len() == 0 {
        return Err(Error::NotFound);
    }
    let path = qualified_name(schema_name, table_name);
    Ok(DataInfo { path, schema: columns_map(columns) })
}

} // verus!
