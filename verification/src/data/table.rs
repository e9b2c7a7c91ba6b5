//! A table held in memory.

use crate::data::config::{Database, SessionStore, UserStore};
use crate::data::keys::Index;
use crate::data::record::{Record, RecordView};
use crate::data::store::{in_partition, key_of, record_views, EntityStore, TableView};
use crate::error::Error;
use crate::text::str_eq;
use vstd::prelude::*;

verus! {

/// Whether row `i` of `rows` has primary key `k`.
pub open spec fn row_has_key(rows: Seq<Record>, i: int, k: (Seq<char>, Seq<char>)) -> bool {
    0 <= i < rows.len() && key_of(rows[i]@) == Some(k)
}

/// Whether every row has a primary key and no two rows have the same.
pub open spec fn rows_wf(rows: Seq<Record>) -> bool {
    &&& forall|i: int| 0 <= i < rows.len() ==> (#[trigger] key_of(rows[i]@)) is Some
    &&& forall|i: int, j: int|
        0 <= i < j < rows.len() ==> key_of(rows[i]@) != key_of(rows[j]@)
}

/// The table that a list of rows stands for.
pub open spec fn rows_map(rows: Seq<Record>) -> TableView {
    Map::new(
        |k: (Seq<char>, Seq<char>)| exists|i: int| row_has_key(rows, i, k),
        |k: (Seq<char>, Seq<char>)| rows[choose|i: int| row_has_key(rows, i, k)]@,
    )
}

/// Each row is found under its own key.
proof fn lemma_row_at(rows: Seq<Record>, i: int)
    requires
        rows_wf(rows),
        0 <= i < rows.len(),
    ensures
        rows_map(rows).contains_key(key_of(rows[i]@)->0),
        rows_map(rows)[key_of(rows[i]@)->0] == rows[i]@,
{
    let k = key_of(rows[i]@)->0;
    assert(row_has_key(rows, i, k));
    let j = choose|j: int| row_has_key(rows, j, k);
    assert(j == i);
}

/// Every key of the table is the key of some row.
proof fn lemma_key_has_row(rows: Seq<Record>, k: (Seq<char>, Seq<char>)) -> (i: int)
    requires
        rows_wf(rows),
        rows_map(rows).contains_key(k),
    ensures
        row_has_key(rows, i, k),
        rows_map(rows)[k] == rows[i]@,
{
    let i = choose|i: int| row_has_key(rows, i, k);
    lemma_row_at(rows, i);
    i
}

/// Replacing a row by a record with the same key replaces it in the table.
proof fn lemma_replace(rows: Seq<Record>, i: int, record: Record)
    requires
        rows_wf(rows),
        0 <= i < rows.len(),
        key_of(record@) == key_of(rows[i]@),
    ensures
        rows_wf(rows.update(i, record)),
        rows_map(rows.update(i, record)) == rows_map(rows).insert(key_of(record@)->0, record@),
{
    let after = rows.update(i, record);
    let k = key_of(record@)->0;
    let left = rows_map(after);
    let right = rows_map(rows).insert(k, record@);
    assert forall|q: (Seq<char>, Seq<char>)| #[trigger]
        left.dom().contains(q) implies right.dom().contains(q) && left[q] == right[q] by {
        let a = lemma_key_has_row(after, q);
        if a != i {
            lemma_row_at(rows, a);
        }
    }
    assert forall|q: (Seq<char>, Seq<char>)| #[trigger]
        right.dom().contains(q) implies left.dom().contains(q) by {
        if q == k {
            assert(row_has_key(after, i, q));
        } else {
            let a = lemma_key_has_row(rows, q);
            assert(row_has_key(after, a, q));
        }
    }
}

/// Adding a row with a new key adds it to the table.
proof fn lemma_append(rows: Seq<Record>, record: Record)
    requires
        rows_wf(rows),
        key_of(record@) is Some,
        forall|i: int| 0 <= i < rows.len() ==> key_of(#[trigger] rows[i]@) != key_of(record@),
    ensures
        rows_wf(rows.push(record)),
        rows_map(rows.push(record)) == rows_map(rows).insert(key_of(record@)->0, record@),
{
    let after = rows.push(record);
    let k = key_of(record@)->0;
    let n = rows.len() as int;
    let left = rows_map(after);
    let right = rows_map(rows).insert(k, record@);
    assert forall|q: (Seq<char>, Seq<char>)| #[trigger]
        left.dom().contains(q) implies right.dom().contains(q) && left[q] == right[q] by {
        let a = lemma_key_has_row(after, q);
        if a < n {
            lemma_row_at(rows, a);
        }
    }
    assert forall|q: (Seq<char>, Seq<char>)| #[trigger]
        right.dom().contains(q) implies left.dom().contains(q) by {
        if q == k {
            assert(row_has_key(after, n, q));
        } else {
            let a = lemma_key_has_row(rows, q);
            assert(row_has_key(after, a, q));
        }
    }
}

/// Taking a row out takes its key out of the table.
proof fn lemma_take_out(rows: Seq<Record>, i: int)
    requires
        rows_wf(rows),
        0 <= i < rows.len(),
    ensures
        rows_wf(rows.remove(i)),
        rows_map(rows.remove(i)) == rows_map(rows).remove(key_of(rows[i]@)->0),
{
    let after = rows.remove(i);
    let k = key_of(rows[i]@)->0;
    let left = rows_map(after);
    let right = rows_map(rows).remove(k);
    assert forall|q: (Seq<char>, Seq<char>)| #[trigger]
        left.dom().contains(q) implies right.dom().contains(q) && left[q] == right[q] by {
        let a = lemma_key_has_row(after, q);
        let b = if a < i {
            a
        } else {
            a + 1
        };
        lemma_row_at(rows, b);
    }
    assert forall|q: (Seq<char>, Seq<char>)| #[trigger]
        right.dom().contains(q) implies left.dom().contains(q) by {
        let b = lemma_key_has_row(rows, q);
        let a = if b < i {
            b
        } else {
            b - 1
        };
        assert(row_has_key(after, a, q));
    }
}

/// A key that no row has is not in the table.
proof fn lemma_absent(rows: Seq<Record>, k: (Seq<char>, Seq<char>))
    requires
        forall|i: int| 0 <= i < rows.len() ==> key_of(#[trigger] rows[i]@) != Some(k),
    ensures
        !rows_map(rows).contains_key(k),
{
}

/// A table held in memory: the rows in a list, each under a primary key of
/// its own. It never fails for reasons of its own.
pub struct Table {
    rows: Vec<Record>,
}

impl Table {
    #[verifier::type_invariant]
    spec fn wf(self) -> bool {
        rows_wf(self.rows@)
    }

    /// An empty table.
    pub fn new() -> (table: Table)
        ensures
            table.rows() == Map::<(Seq<char>, Seq<char>), RecordView>::empty(),
            table.reliable(),
    {
        let table = Table { rows: Vec::new() };
        table
    }

    /// The number of records in the table.
    pub fn len(&self) -> (n: usize)
        ensures
            n == self.rows().len(),
    {
        proof {
            use_type_invariant(self);
            lemma_len(self.rows@);
        }
        self.rows.len()
    }

    /// Hands out the rows, leaving the table empty until they are put back.
    fn take_rows(&mut self) -> (rows: Vec<Record>)
        ensures
            rows@ == old(self).rows@,
            final(self).rows@.len() == 0,
    {
        let mut rows: Vec<Record> = Vec::new();
        std::mem::swap(&mut self.rows, &mut rows);
        rows
    }

    /// The position of the row with primary key `(pk, sk)`.
    fn position(&self, pk: &str, sk: &str) -> (found: Option<usize>)
        ensures
            match found {
                Some(i) => row_has_key(self.rows@, i as int, (pk@, sk@)),
                None => forall|i: int|
                    0 <= i < self.rows@.len() ==> key_of(#[trigger] self.rows@[i]@) != Some(
                        (pk@, sk@),
                    ),
            },
    {
        let n = self.rows.len();
        let mut i: usize = 0;
        while i < n
            invariant
                n == self.rows@.len(),
                i <= n,
                forall|j: int| 0 <= j < i ==> key_of(#[trigger] self.rows@[j]@) != Some((pk@, sk@)),
            decreases n - i,
        {
            let row = &self.rows[i];
            let same = match (row.text("PK"), row.text("SK")) {
                (Some(p), Some(s)) => str_eq(p, pk) && str_eq(s, sk),
                _ => false,
            };
            if same {
                return Some(i);
            }
            i += 1;
        }
        None
    }
}

/// A well-formed list of rows stands for a table with as many records.
proof fn lemma_len(rows: Seq<Record>)
    requires
        rows_wf(rows),
    ensures
        rows_map(rows).dom().finite(),
        rows_map(rows).len() == rows.len(),
    decreases rows.len(),
{
    if rows.len() == 0 {
        assert(rows_map(rows) =~= Map::<(Seq<char>, Seq<char>), RecordView>::empty());
    } else {
        let last = rows.len() - 1;
        let before = rows.remove(last);
        lemma_take_out(rows, last);
        lemma_len(before);
        lemma_row_at(rows, last);
        assert(rows_map(rows) =~= rows_map(before).insert(key_of(rows[last]@)->0, rows[last]@));
    }
}

impl EntityStore for Table {
    closed spec fn rows(&self) -> TableView {
        rows_map(self.rows@)
    }

    open spec fn reliable(&self) -> bool {
        true
    }

    fn put(&mut self, record: Record) -> (res: Result<(), Error>)
        ensures
            (res is Ok) == (key_of(record@) is Some),
    {
        proof {
            use_type_invariant(&*self);
        }
        let found = match (record.text("PK"), record.text("SK")) {
            (Some(pk), Some(sk)) => Some(self.position(pk, sk)),
            _ => None,
        };
        match found {
            None => Err(Error::Upstream),
            Some(Some(i)) => {
                proof {
                    lemma_replace(self.rows@, i as int, record);
                }
                let mut rows = self.take_rows();
                rows.set(i, record);
                self.rows = rows;
                Ok(())
            },
            Some(None) => {
                proof {
                    lemma_append(self.rows@, record);
                }
                let mut rows = self.take_rows();
                rows.push(record);
                self.rows = rows;
                Ok(())
            },
        }
    }

    fn get(&self, pk: &str, sk: &str) -> (res: Result<Record, Error>) {
        proof {
            use_type_invariant(self);
        }
        match self.position(pk, sk) {
            Some(i) => {
                proof {
                    lemma_row_at(self.rows@, i as int);
                }
                Ok(self.rows[i].clone())
            },
            None => {
                proof {
                    lemma_absent(self.rows@, (pk@, sk@));
                }
                Err(Error::NotFound)
            },
        }
    }

    fn query_by_index(&self, index: Index, value: &str) -> (res: Result<Vec<Record>, Error>)
        ensures
            res is Ok,
    {
        proof {
            use_type_invariant(self);
        }
        let attribute = index.attribute();
        let mut listed: Vec<Record> = Vec::new();
        let ghost mut source: Seq<int> = Seq::empty();
        let n = self.rows.len();
        let mut i: usize = 0;
        while i < n
            invariant
                n == self.rows@.len(),
                i <= n,
                rows_wf(self.rows@),
                attribute@ == index.partition_attr(),
                source.len() == listed@.len(),
                forall|a: int|
                    0 <= a < source.len() ==> 0 <= #[trigger] source[a] < i && listed@[a]@
                        == self.rows@[source[a]]@ && in_partition(listed@[a]@, index, value@),
                forall|a: int, b: int| 0 <= a < b < source.len() ==> source[a] < source[b],
                forall|j: int|
                    0 <= j < i && in_partition(#[trigger] self.rows@[j]@, index, value@)
                        ==> exists|a: int| 0 <= a < source.len() && #[trigger] source[a] == j,
            decreases n - i,
        {
            let row = &self.rows[i];
            let inside = match row.text(attribute) {
                Some(partition) => str_eq(partition, value),
                None => false,
            };
            if inside {
                let ghost before = source;
                listed.push(row.clone());
                proof {
                    source = source.push(i as int);
                    assert forall|j: int|
                        0 <= j < i + 1 && in_partition(
                            #[trigger] self.rows@[j]@,
                            index,
                            value@,
                        ) implies exists|a: int| 0 <= a < source.len() && #[trigger] source[a]
                        == j by {
                        if j < i {
                            let a = choose|a: int| 0 <= a < before.len() && #[trigger] before[a] == j;
                            assert(source[a] == j);
                        } else {
                            assert(source[before.len() as int] == j);
                        }
                    }
                }
            }
            i += 1;
        }
        proof {
            let views = record_views(listed@);
            let rows = self.rows();
            assert forall|a: int| 0 <= a < views.len() implies {
                &&& (#[trigger] key_of(views[a])) matches Some(k)
                &&& rows.contains_key(k)
                &&& rows[k] == views[a]
                &&& in_partition(views[a], index, value@)
            } by {
                lemma_row_at(self.rows@, source[a]);
            }
            assert forall|a: int, b: int| 0 <= a < b < views.len() implies key_of(views[a])
                != key_of(views[b]) by {
                assert(source[a] < source[b]);
            }
            assert forall|k: (Seq<char>, Seq<char>)| #[trigger]
                rows.contains_key(k) && in_partition(rows[k], index, value@) implies exists|a: int|
                0 <= a < views.len() && #[trigger] key_of(views[a]) == Some(k) by {
                let j = lemma_key_has_row(self.rows@, k);
                let a = choose|a: int| 0 <= a < source.len() && #[trigger] source[a] == j;
                assert(key_of(views[a]) == Some(k));
            }
        }
        Ok(listed)
    }

    fn delete(&mut self, pk: &str, sk: &str) -> (res: Result<(), Error>)
        ensures
            res is Ok,
    {
        proof {
            use_type_invariant(&*self);
        }
        match self.position(pk, sk) {
            Some(i) => {
                proof {
                    lemma_take_out(self.rows@, i as int);
                }
                let mut rows = self.take_rows();
                let _ = rows.remove(i);
                self.rows = rows;
            },
            None => {
                proof {
                    lemma_absent(self.rows@, (pk@, sk@));
                }
            },
        }
        Ok(())
    }
}

impl UserStore for Table {

}

impl SessionStore for Table {

}

impl Database for Table {

}

} // verus!
