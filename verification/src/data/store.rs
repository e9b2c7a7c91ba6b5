//! What a table is, and the four operations every table offers.

use crate::data::keys::Index;
use crate::data::record::{text_of, Record, RecordView};
use crate::error::Error;
use vstd::prelude::*;

verus! {

/// A primary key: the values of `PK` and of `SK`.
pub type Key = (Seq<char>, Seq<char>);

/// What a table holds: its records by their primary keys.
pub type TableView = Map<(Seq<char>, Seq<char>), RecordView>;

/// The primary key that record `r` carries, if it carries one.
pub open spec fn key_of(r: RecordView) -> Option<(Seq<char>, Seq<char>)> {
    match (text_of(r, "PK"@), text_of(r, "SK"@)) {
        (Some(pk), Some(sk)) => Some((pk, sk)),
        _ => None,
    }
}

/// Whether `r` lies in partition `value` of `index`.
pub open spec fn in_partition(r: RecordView, index: Index, value: Seq<char>) -> bool {
    text_of(r, index.partition_attr()) == Some(value)
}

/// What a list of records stands for.
pub open spec fn record_views(records: Seq<Record>) -> Seq<RecordView> {
    Seq::new(records.len(), |i: int| records[i]@)
}

/// Whether `listed` is partition `value` of `index` in `rows`, in some order:
/// every listed record is a row of the partition, no row is listed twice,
/// and every row of the partition is listed.
pub open spec fn is_listing(
    listed: Seq<RecordView>,
    rows: TableView,
    index: Index,
    value: Seq<char>,
) -> bool {
    &&& forall|i: int|
        0 <= i < listed.len() ==> {
            &&& (#[trigger] key_of(listed[i])) matches Some(k)
            &&& rows.contains_key(k)
            &&& rows[k] == listed[i]
            &&& in_partition(listed[i], index, value)
        }
    &&& forall|i: int, j: int|
        0 <= i < j < listed.len() ==> key_of(listed[i]) != key_of(listed[j])
    &&& forall|k: (Seq<char>, Seq<char>)|
        #[trigger] rows.contains_key(k) && in_partition(rows[k], index, value) ==> exists|i: int|
            0 <= i < listed.len() && #[trigger] key_of(listed[i]) == Some(k)
}

/// A table of attribute records with a primary key and two secondary
/// indexes. This is the only interface to the physical table.
///
/// A store that can fail for reasons of its own (a network, a service) says
/// so by `reliable()` being false; it may then answer any call with
/// `Error::Upstream` and leave the table as it was. A reliable store owes
/// the answer.
///
/// `rows` and `reliable` are the model that the contracts speak of. They
/// are never run: an implementation in compiled code that is not verified
/// gives each a body of any kind.
pub trait EntityStore {
    /// The records of the table, by primary key.
    spec fn rows(&self) -> TableView;

    /// Whether the store never fails for reasons of its own.
    spec fn reliable(&self) -> bool;

    /// Writes `record` under the primary key it carries, in place of any
    /// record that was there. A record without a primary key is refused.
    fn put(&mut self, record: Record) -> (res: Result<(), Error>)
        ensures
            final(self).reliable() == old(self).reliable(),
            match res {
                Ok(()) => key_of(record@) is Some && final(self).rows() == old(self).rows().insert(
                    key_of(record@)->0,
                    record@,
                ),
                Err(e) => e == Error::Upstream && final(self).rows() == old(self).rows() && (key_of(
                    record@,
                ) is None || !old(self).reliable()),
            },
    ;

    /// The record under primary key `(pk, sk)`.
    fn get(&self, pk: &str, sk: &str) -> (res: Result<Record, Error>)
        ensures
            match res {
                Ok(record) => self.rows().contains_key((pk@, sk@)) && self.rows()[(pk@, sk@)]
                    == record@,
                Err(Error::NotFound) => !self.rows().contains_key((pk@, sk@)),
                Err(e) => e == Error::Upstream && !self.reliable(),
            },
    ;

    /// The records of partition `value` of `index`, in no particular order.
    fn query_by_index(&self, index: Index, value: &str) -> (res: Result<Vec<Record>, Error>)
        ensures
            match res {
                Ok(records) => is_listing(record_views(records@), self.rows(), index, value@),
                Err(e) => e == Error::Upstream && !self.reliable(),
            },
    ;

    /// Removes the record under primary key `(pk, sk)`, if there is one.
    /// Nothing else is removed with it.
    fn delete(&mut self, pk: &str, sk: &str) -> (res: Result<(), Error>)
        ensures
            final(self).reliable() == old(self).reliable(),
            match res {
                Ok(()) => final(self).rows() == old(self).rows().remove((pk@, sk@)),
                Err(e) => e == Error::Upstream && final(self).rows() == old(self).rows()
                    && !old(self).reliable(),
            },
    ;
}

} // verus!
