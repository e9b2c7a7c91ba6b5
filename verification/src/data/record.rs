//! The generic attribute record that every entity is stored as: a map from
//! attribute names to string or boolean values.

use crate::text::str_eq;
use vstd::prelude::*;

verus! {

/// The value of one attribute.
#[derive(Debug)]
pub enum AttrValue {
    /// A string; structured fields are kept as JSON text in one of these.
    S(String),
    /// A boolean.
    Bool(bool),
}

/// What an `AttrValue` stands for.
pub enum AttrView {
    S(Seq<char>),
    Bool(bool),
}

impl View for AttrValue {
    type V = AttrView;

    open spec fn view(&self) -> AttrView {
        match self {
            AttrValue::S(s) => AttrView::S(s@),
            AttrValue::Bool(b) => AttrView::Bool(*b),
        }
    }
}

impl Clone for AttrValue {
    fn clone(&self) -> (copy: Self)
        ensures
            copy@ == self@,
    {
        match self {
            AttrValue::S(s) => AttrValue::S(s.clone()),
            AttrValue::Bool(b) => AttrValue::Bool(*b),
        }
    }
}

/// One named attribute of a record.
#[derive(Debug)]
pub struct Attribute {
    pub name: String,
    pub value: AttrValue,
}

/// What a record stands for: each attribute name with its value.
pub type RecordView = Map<Seq<char>, AttrView>;

/// The map that a list of attributes stands for. Where a name occurs more
/// than once, the occurrence nearest the end is the one that counts.
pub open spec fn attributes_map(entries: Seq<Attribute>) -> RecordView
    decreases entries.len(),
{
    if entries.len() == 0 {
        Map::empty()
    } else {
        attributes_map(entries.drop_last()).insert(entries.last().name@, entries.last().value@)
    }
}

/// The string held under `name`, if `r` has a string there.
pub open spec fn text_of(r: RecordView, name: Seq<char>) -> Option<Seq<char>> {
    if r.contains_key(name) {
        match r[name] {
            AttrView::S(s) => Some(s),
            AttrView::Bool(_) => None,
        }
    } else {
        None
    }
}

/// The boolean held under `name`, if `r` has a boolean there.
pub open spec fn flag_of(r: RecordView, name: Seq<char>) -> Option<bool> {
    if r.contains_key(name) {
        match r[name] {
            AttrView::Bool(b) => Some(b),
            AttrView::S(_) => None,
        }
    } else {
        None
    }
}

/// An attribute record. Attributes are kept in the order they were set; a
/// later setting of a name replaces what an earlier one said.
#[derive(Debug)]
pub struct Record {
    pub entries: Vec<Attribute>,
}

impl View for Record {
    type V = RecordView;

    open spec fn view(&self) -> RecordView {
        attributes_map(self.entries@)
    }
}

impl Record {
    /// A record with no attributes.
    pub fn new() -> (r: Record)
        ensures
            r@ == Map::<Seq<char>, AttrView>::empty(),
    {
        Record { entries: Vec::new() }
    }

    /// Sets attribute `name` to `value`, replacing any earlier value.
    pub fn insert(&mut self, name: &str, value: AttrValue)
        ensures
            final(self)@ == old(self)@.insert(name@, value@),
    {
        let ghost before = self.entries@;
        let attribute = Attribute { name: name.to_owned(), value };
        self.entries.push(attribute);
        assert(self.entries@.drop_last() =~= before);
    }

    /// Sets attribute `name` to the string `value`.
    pub fn set_text(&mut self, name: &str, value: &str)
        ensures
            final(self)@ == old(self)@.insert(name@, AttrView::S(value@)),
    {
        self.insert(name, AttrValue::S(value.to_owned()));
    }

    /// Sets attribute `name` to the boolean `value`.
    pub fn set_flag(&mut self, name: &str, value: bool)
        ensures
            final(self)@ == old(self)@.insert(name@, AttrView::Bool(value)),
    {
        self.insert(name, AttrValue::Bool(value));
    }

    /// The value of attribute `name`, or `None` where the record has none.
    pub fn get(&self, name: &str) -> (found: Option<&AttrValue>)
        ensures
            match found {
                Some(v) => self@.contains_key(name@) && self@[name@] == v@,
                None => !self@.contains_key(name@),
            },
    {
        let mut found: Option<&AttrValue> = None;
        let n = self.entries.len();
        let mut i: usize = 0;
        while i < n
            invariant
                n == self.entries@.len(),
                i <= n,
                match found {
                    Some(v) => attributes_map(self.entries@.take(i as int)).contains_key(name@)
                        && attributes_map(self.entries@.take(i as int))[name@] == v@,
                    None => !attributes_map(self.entries@.take(i as int)).contains_key(name@),
                },
            decreases n - i,
        {
            assert(self.entries@.take(i as int + 1).drop_last() =~= self.entries@.take(i as int));
            if str_eq(self.entries[i].name.as_str(), name) {
                found = Some(&self.entries[i].value);
            }
            i += 1;
        }
        assert(self.entries@.take(n as int) =~= self.entries@);
        found
    }

    /// The string under `name`; `None` where it is absent or not a string.
    pub fn text(&self, name: &str) -> (found: Option<&str>)
        ensures
            match found {
                Some(s) => text_of(self@, name@) == Some(s@),
                None => text_of(self@, name@) is None,
            },
    {
        match self.get(name) {
            Some(AttrValue::S(s)) => Some(s.as_str()),
            _ => None,
        }
    }

    /// The boolean under `name`; `None` where it is absent or not a boolean.
    pub fn flag(&self, name: &str) -> (found: Option<bool>)
        ensures
            found == flag_of(self@, name@),
    {
        match self.get(name) {
            Some(AttrValue::Bool(b)) => Some(*b),
            _ => None,
        }
    }

    /// Whether the record has an attribute `name`.
    pub fn contains(&self, name: &str) -> (yes: bool)
        ensures
            yes == self@.contains_key(name@),
    {
        self.get(name).is_some()
    }
}

impl Clone for Record {
    fn clone(&self) -> (copy: Self)
        ensures
            copy@ == self@,
    {
        let mut entries: Vec<Attribute> = Vec::new();
        let n = self.entries.len();
        let mut i: usize = 0;
        while i < n
            invariant
                n == self.entries@.len(),
                i <= n,
                attributes_map(entries@) == attributes_map(self.entries@.take(i as int)),
            decreases n - i,
        {
            let ghost before = entries@;
            assert(self.entries@.take(i as int + 1).drop_last() =~= self.entries@.take(i as int));
            entries.push(
                Attribute {
                    name: self.entries[i].name.clone(),
                    value: self.entries[i].value.clone(),
                },
            );
            assert(entries@.drop_last() =~= before);
            i += 1;
        }
        assert(self.entries@.take(n as int) =~= self.entries@);
        Record { entries }
    }
}

} // verus!
