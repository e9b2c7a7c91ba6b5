//! Composite keys: a type tag, `#`, and the entity's id or lookup value.

use crate::text::{find_char, first_index_of, joined, lemma_first_index_is, lemma_first_index_of,
    tail_from};
use vstd::prelude::*;
use vstd::string::*;

verus! {

/// What follows the first `#` of `s`; `None` where `s` holds no `#`.
pub open spec fn after_hash(s: Seq<char>) -> Option<Seq<char>> {
    match first_index_of(s, '#') {
        Some(i) => Some(s.skip(i + 1)),
        None => None,
    }
}

/// Whether `tag` can stand in front of an id: it ends in `#` and holds no
/// other `#`, so that stripping up to the first `#` removes exactly the tag.
pub open spec fn is_tag(tag: Seq<char>) -> bool {
    first_index_of(tag, '#') == Some(tag.len() - 1)
}

/// Stripping a tagged value gives back what was tagged, whatever it holds.
pub proof fn lemma_after_hash_of_tagged(tag: Seq<char>, value: Seq<char>)
    requires
        is_tag(tag),
    ensures
        after_hash(tag + value) == Some(value),
{
    lemma_first_index_of(tag, '#');
    let s = tag + value;
    let i = tag.len() - 1;
    assert(s[i] == tag[i]);
    assert forall|j: int| 0 <= j < i implies s[j] != '#' by {
        assert(s[j] == tag[j]);
    }
    lemma_first_index_is(s, '#', i);
    assert(s.skip(i + 1) =~= value);
}

/// Values under tags that begin differently are different keys.
pub proof fn lemma_tagged_apart(first: Seq<char>, a: Seq<char>, second: Seq<char>, b: Seq<char>)
    requires
        first.len() > 0,
        second.len() > 0,
        first[0] != second[0],
    ensures
        first + a != second + b,
{
    assert((first + a)[0] == first[0]);
    assert((second + b)[0] == second[0]);
}

/// Under one tag, different values are different keys.
pub proof fn lemma_tagged_injective(tag: Seq<char>, a: Seq<char>, b: Seq<char>)
    requires
        tag + a == tag + b,
    ensures
        a == b,
{
    assert((tag + a).skip(tag.len() as int) =~= a);
    assert((tag + b).skip(tag.len() as int) =~= b);
}

/// A number for each attribute name that the codec uses, and 0 for any other
/// string. Two names with different numbers are different names.
pub open spec fn attr_code(name: Seq<char>) -> int {
    if name == "PK"@ {
        1
    } else if name == "SK"@ {
        2
    } else if name == "GSI1PK"@ {
        3
    } else if name == "GSI1SK"@ {
        4
    } else if name == "GSI2PK"@ {
        5
    } else if name == "GSI2SK"@ {
        6
    } else if name == "first_name"@ {
        7
    } else if name == "last_name"@ {
        8
    } else if name == "user_type"@ {
        9
    } else if name == "is_active"@ {
        10
    } else if name == "hash"@ {
        11
    } else if name == "connection_string"@ {
        12
    } else if name == "connector_type"@ {
        13
    } else if name == "provider"@ {
        14
    } else if name == "connector_id"@ {
        15
    } else if name == "path"@ {
        16
    } else if name == "description"@ {
        17
    } else if name == "schema"@ {
        18
    } else if name == "tags"@ {
        19
    } else if name == "metadata"@ {
        20
    } else {
        0
    }
}

/// The attribute names are pairwise different: each has a number of its own.
pub proof fn lemma_attr_names()
    ensures
        attr_code("PK"@) == 1,
        attr_code("SK"@) == 2,
        attr_code("GSI1PK"@) == 3,
        attr_code("GSI1SK"@) == 4,
        attr_code("GSI2PK"@) == 5,
        attr_code("GSI2SK"@) == 6,
        attr_code("first_name"@) == 7,
        attr_code("last_name"@) == 8,
        attr_code("user_type"@) == 9,
        attr_code("is_active"@) == 10,
        attr_code("hash"@) == 11,
        attr_code("connection_string"@) == 12,
        attr_code("connector_type"@) == 13,
        attr_code("provider"@) == 14,
        attr_code("connector_id"@) == 15,
        attr_code("path"@) == 16,
        attr_code("description"@) == 17,
        attr_code("schema"@) == 18,
        attr_code("tags"@) == 19,
        attr_code("metadata"@) == 20,
{
    reveal_strlit("PK");
    assert("PK"@.len() == 2 && "PK"@[0] == 'P');
    reveal_strlit("SK");
    assert("SK"@.len() == 2 && "SK"@[0] == 'S');
    reveal_strlit("GSI1PK");
    assert("GSI1PK"@.len() == 6 && "GSI1PK"@[3] == '1' && "GSI1PK"@[4] == 'P');
    reveal_strlit("GSI1SK");
    assert("GSI1SK"@.len() == 6 && "GSI1SK"@[3] == '1' && "GSI1SK"@[4] == 'S');
    reveal_strlit("GSI2PK");
    assert("GSI2PK"@.len() == 6 && "GSI2PK"@[3] == '2' && "GSI2PK"@[4] == 'P');
    reveal_strlit("GSI2SK");
    assert("GSI2SK"@.len() == 6 && "GSI2SK"@[3] == '2' && "GSI2SK"@[4] == 'S');
    reveal_strlit("first_name");
    assert("first_name"@.len() == 10 && "first_name"@[0] == 'f');
    reveal_strlit("last_name");
    assert("last_name"@.len() == 9 && "last_name"@[0] == 'l');
    reveal_strlit("user_type");
    assert("user_type"@.len() == 9 && "user_type"@[0] == 'u');
    reveal_strlit("is_active");
    assert("is_active"@.len() == 9 && "is_active"@[0] == 'i');
    reveal_strlit("hash");
    assert("hash"@.len() == 4 && "hash"@[0] == 'h');
    reveal_strlit("connection_string");
    assert("connection_string"@.len() == 17 && "connection_string"@[0] == 'c');
    reveal_strlit("connector_type");
    assert("connector_type"@.len() == 14 && "connector_type"@[0] == 'c');
    reveal_strlit("provider");
    assert("provider"@.len() == 8 && "provider"@[0] == 'p');
    reveal_strlit("connector_id");
    assert("connector_id"@.len() == 12 && "connector_id"@[0] == 'c');
    reveal_strlit("path");
    assert("path"@.len() == 4 && "path"@[0] == 'p');
    reveal_strlit("description");
    assert("description"@.len() == 11 && "description"@[0] == 'd');
    reveal_strlit("schema");
    assert("schema"@.len() == 6 && "schema"@[3] == 'e' && "schema"@[4] == 'm');
    reveal_strlit("tags");
    assert("tags"@.len() == 4 && "tags"@[0] == 't');
    reveal_strlit("metadata");
    assert("metadata"@.len() == 8 && "metadata"@[0] == 'm');
}

/// Every key tag ends in its only `#`, and the tags of the seven kinds of
/// primary key begin with seven different letters.
pub proof fn lemma_tags()
    ensures
        is_tag("USER#"@),
        is_tag("EMAIL#"@),
        is_tag("SESSION#"@),
        is_tag("ORG#"@),
        is_tag("TEAM#"@),
        is_tag("CONNECTOR#"@),
        is_tag("DATASET#"@),
        is_tag("ORGNAME#"@),
        is_tag("TEAMNAME#"@),
        is_tag("CONNECTORNAME#"@),
        is_tag("DATASETNAME#"@),
        is_tag("USERTYPE#"@),
        "USER#"@.len() > 0 && "USER#"@[0] == 'U',
        "EMAIL#"@.len() > 0 && "EMAIL#"@[0] == 'E',
        "SESSION#"@.len() > 0 && "SESSION#"@[0] == 'S',
        "ORG#"@.len() > 0 && "ORG#"@[0] == 'O',
        "TEAM#"@.len() > 0 && "TEAM#"@[0] == 'T',
        "CONNECTOR#"@.len() > 0 && "CONNECTOR#"@[0] == 'C',
        "DATASET#"@.len() > 0 && "DATASET#"@[0] == 'D',
{
    reveal_strlit("USER#");
    lemma_first_index_is("USER#"@, '#', 4);
    reveal_strlit("EMAIL#");
    lemma_first_index_is("EMAIL#"@, '#', 5);
    reveal_strlit("SESSION#");
    lemma_first_index_is("SESSION#"@, '#', 7);
    reveal_strlit("ORG#");
    lemma_first_index_is("ORG#"@, '#', 3);
    reveal_strlit("TEAM#");
    lemma_first_index_is("TEAM#"@, '#', 4);
    reveal_strlit("CONNECTOR#");
    lemma_first_index_is("CONNECTOR#"@, '#', 9);
    reveal_strlit("DATASET#");
    lemma_first_index_is("DATASET#"@, '#', 7);
    reveal_strlit("ORGNAME#");
    lemma_first_index_is("ORGNAME#"@, '#', 7);
    reveal_strlit("TEAMNAME#");
    lemma_first_index_is("TEAMNAME#"@, '#', 8);
    reveal_strlit("CONNECTORNAME#");
    lemma_first_index_is("CONNECTORNAME#"@, '#', 13);
    reveal_strlit("DATASETNAME#");
    lemma_first_index_is("DATASETNAME#"@, '#', 11);
    reveal_strlit("USERTYPE#");
    lemma_first_index_is("USERTYPE#"@, '#', 8);
}

/// The three partitions of the listing index are different strings.
pub proof fn lemma_type_partitions()
    ensures
        "TYPE#TEAM"@ != "TYPE#CONNECTOR"@,
        "TYPE#TEAM"@ != "TYPE#DATASET"@,
        "TYPE#CONNECTOR"@ != "TYPE#DATASET"@,
{
    reveal_strlit("TYPE#TEAM");
    reveal_strlit("TYPE#CONNECTOR");
    reveal_strlit("TYPE#DATASET");
    assert("TYPE#TEAM"@.len() == 9);
    assert("TYPE#CONNECTOR"@.len() == 14);
    assert("TYPE#DATASET"@.len() == 12);
}

/// The part of `input` after its first `#`.
pub fn split_at_hash(input: &str) -> (rest: &str)
    requires
        first_index_of(input@, '#') is Some,
    ensures
        after_hash(input@) == Some(rest@),
{
    match strip_tag(input) {
        Some(rest) => rest,
        None => input,
    }
}

/// The part of `input` after its first `#`, or `None` where it holds none.
pub fn strip_tag(input: &str) -> (rest: Option<&str>)
    ensures
        match rest {
            Some(r) => after_hash(input@) == Some(r@),
            None => after_hash(input@) is None,
        },
{
    match find_char(input, '#') {
        Some(i) => {
            let n = input.unicode_len();
            proof {
                lemma_first_index_of(input@, '#');
            }
            Some(tail_from(input, i + 1))
        },
        None => None,
    }
}

/// `value` under `tag`.
pub fn tagged(tag: &str, value: &str) -> (key: String)
    ensures
        key@ == tag@ + value@,
{
    joined(tag, value)
}

/// The secondary indexes of the table.
#[derive(Clone, Copy, Debug, PartialEq, Eq, Structural)]
pub enum Index {
    /// The uniqueness and lookup index.
    Gsi1,
    /// The index that lists all entities of one kind.
    Gsi2,
}

impl Index {
    /// The attribute that holds a record's partition in this index.
    pub open spec fn partition_attr(self) -> Seq<char> {
        match self {
            Index::Gsi1 => "GSI1PK"@,
            Index::Gsi2 => "GSI2PK"@,
        }
    }

    /// The name under which the store knows this index.
    pub open spec fn spec_name(self) -> Seq<char> {
        match self {
            Index::Gsi1 => "GSI1"@,
            Index::Gsi2 => "GSI2"@,
        }
    }

    /// The name under which the store knows this index.
    pub fn name(self) -> (n: &'static str)
        ensures
            n@ == self.spec_name(),
    {
        match self {
            Index::Gsi1 => "GSI1",
            Index::Gsi2 => "GSI2",
        }
    }

    /// The attribute that holds a record's partition in this index.
    pub fn attribute(self) -> (n: &'static str)
        ensures
            n@ == self.partition_attr(),
    {
        match self {
            Index::Gsi1 => "GSI1PK",
            Index::Gsi2 => "GSI2PK",
        }
    }
}

} // verus!
