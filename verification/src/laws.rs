//! What holds across operations: laws that relate what one operation
//! leaves in the table to what another then finds there.

use crate::data::config::{email_of, stored_email, stored_session, stored_user, user_by_email,
    with_session, with_user, with_user_only};
use crate::data::conversions::{connector_record, dataset_record, email_record,
    lemma_connector_record_key, lemma_email_round_trip, lemma_session_round_trip,
    lemma_team_record_key, lemma_user_round_trip, org_record, primary, session_record, team_record,
    user_record};
use crate::data::keys::{lemma_attr_names, lemma_tagged_apart, lemma_tagged_injective, lemma_tags,
    lemma_type_partitions, Index};
use crate::data::record::{text_of, RecordView};
use crate::data::store::{in_partition, is_listing, key_of, TableView};
use crate::domain::auth::{allows_anonymous, bearer_token, clearance, header_clearance,
    without_leading, AccessRuleView};
use crate::domain::common::{is_id, is_id_char};
use crate::domain::connector::DetailsView;
use crate::domain::dataset::DatasetView;
use crate::domain::org::OrgView;
use crate::domain::session::SessionView;
use crate::domain::team::TeamView;
use crate::domain::user::{is_new_user, CreateUserView, EmailView, UserView};
use crate::error::Error;
use crate::routes::auth::login_user;
use vstd::prelude::*;

verus! {

/// After a user was registered, the same email and password log in, and as
/// that user: whatever the table held before, and whoever owned the email.
pub proof fn law_login_after_create(rows: TableView, u: UserView, c: CreateUserView)
    requires
        is_new_user(u, c),
    ensures
        user_by_email(with_user(rows, u), c.email) == Ok::<UserView, Error>(u),
        login_user(with_user(rows, u), c.email, c.password) == Some(u),
{
    law_user_and_email_agree(rows, u);
}

/// The token that `Bearer ` and an id carry is the id.
pub proof fn law_bearer_of_id(id: Seq<char>)
    requires
        is_id(id, id.len()),
    ensures
        bearer_token("Bearer "@ + id) == Some(id),
{
    reveal_strlit("Bearer ");
    let p = "Bearer "@;
    let value = p + id;
    assert(value.skip(p.len() as int) =~= id);
    assert(!p.is_prefix_of(id)) by {
        if p.is_prefix_of(id) {
            assert(id[6] == p[6]);
            assert(is_id_char(id[6]));
        }
    }
    assert(without_leading(id, p) == id);
}

/// A new anonymous session is found again under its token, still without a
/// user, and the guard lets it pass exactly where the policy for anonymous
/// access covers the request.
pub proof fn law_anonymous_session(
    rows: TableView,
    rules: Seq<AccessRuleView>,
    method: Seq<char>,
    path: Seq<char>,
    id: Seq<char>,
)
    requires
        is_id(id, id.len()),
    ensures
        ({
            let session = SessionView { id, user_id: None };
            let after = with_session(rows, session);
            &&& stored_session(after, id) == Ok::<SessionView, Error>(session)
            &&& clearance(after, rules, method, path, Some(id)) is Some <==> allows_anonymous(
                rules,
                method,
                path,
            )
            &&& header_clearance(after, rules, method, path, Some("Bearer "@ + id))
                == clearance(after, rules, method, path, Some(id))
        }),
{
    lemma_session_round_trip(SessionView { id, user_id: None });
    law_bearer_of_id(id);
}

/// Deleting under a key twice leaves what deleting once leaves, and
/// deleting under a key that is not there leaves the table as it was.
pub proof fn law_delete_again(rows: TableView, key: (Seq<char>, Seq<char>))
    ensures
        rows.remove(key).remove(key) == rows.remove(key),
        !rows.contains_key(key) ==> rows.remove(key) == rows,
{
}

/// The table that holds `records` and nothing else, each written under the
/// key it carries, one after the other.
pub open spec fn table_of(records: Seq<RecordView>) -> TableView
    decreases records.len(),
{
    if records.len() == 0 {
        Map::empty()
    } else {
        let before = table_of(records.drop_last());
        match key_of(records.last()) {
            Some(key) => before.insert(key, records.last()),
            None => before,
        }
    }
}

/// Whether each of `records` carries a primary key, and no two the same.
pub open spec fn distinct_keys(records: Seq<RecordView>) -> bool {
    &&& forall|i: int| 0 <= i < records.len() ==> (#[trigger] key_of(records[i])) is Some
    &&& forall|i: int, j: int|
        0 <= i < j < records.len() ==> key_of(records[i]) != key_of(records[j])
}

/// The table of records with distinct keys holds each of them under its
/// key and holds nothing else, in whatever order they were written.
pub proof fn law_table_of(records: Seq<RecordView>)
    requires
        distinct_keys(records),
    ensures
        forall|i: int|
            0 <= i < records.len() ==> table_of(records).contains_key(
                (#[trigger] key_of(records[i]))->0,
            ) && table_of(records)[key_of(records[i])->0] == records[i],
        forall|k: (Seq<char>, Seq<char>)| #[trigger]
            table_of(records).contains_key(k) ==> exists|i: int|
                0 <= i < records.len() && #[trigger] key_of(records[i]) == Some(k),
    decreases records.len(),
{
    if records.len() > 0 {
        let before = records.drop_last();
        let last = records.len() - 1;
        assert(distinct_keys(before)) by {
            assert forall|i: int| 0 <= i < before.len() implies (#[trigger] key_of(
                before[i],
            )) is Some by {
                assert(before[i] == records[i]);
                assert(key_of(records[i]) is Some);
            }
            assert forall|i: int, j: int| 0 <= i < j < before.len() implies key_of(before[i])
                != key_of(before[j]) by {
                assert(key_of(records[i]) != key_of(records[j]));
            }
        }
        law_table_of(before);
        assert(key_of(records[last]) is Some);
        assert forall|i: int| 0 <= i < records.len() implies table_of(records).contains_key(
            (#[trigger] key_of(records[i]))->0,
        ) && table_of(records)[key_of(records[i])->0] == records[i] by {
            if i < last {
                assert(before[i] == records[i]);
                assert(key_of(before[i]) is Some);
                assert(key_of(records[i]) != key_of(records[last]));
            }
        }
        assert forall|k: (Seq<char>, Seq<char>)| #[trigger]
            table_of(records).contains_key(k) implies exists|i: int|
            0 <= i < records.len() && #[trigger] key_of(records[i]) == Some(k) by {
            if key_of(records[last]) != Some(k) {
                assert(table_of(before).contains_key(k));
                let i = choose|i: int| 0 <= i < before.len() && #[trigger] key_of(before[i]) == Some(k);
                assert(before[i] == records[i]);
                assert(key_of(records[i]) == Some(k));
            }
        }
    }
}

/// A listing of a partition holds exactly the records that were created
/// into that partition: each of them, and nothing else. Neither the order
/// of creation nor the order of the listing matters.
pub proof fn law_listing_of_created(
    created: Seq<RecordView>,
    listed: Seq<RecordView>,
    index: Index,
    value: Seq<char>,
)
    requires
        distinct_keys(created),
        is_listing(listed, table_of(created), index, value),
    ensures
        forall|r: RecordView|
            listed.contains(r) <==> created.contains(r) && in_partition(r, index, value),
        listed.no_duplicates(),
{
    let rows = table_of(created);
    law_table_of(created);
    assert forall|r: RecordView| listed.contains(r) implies created.contains(r) && in_partition(
        r,
        index,
        value,
    ) by {
        let i = choose|i: int| 0 <= i < listed.len() && listed[i] == r;
        let k = key_of(listed[i])->0;
        assert(rows.contains_key(k));
        let j = choose|j: int| 0 <= j < created.len() && #[trigger] key_of(created[j]) == Some(k);
        assert(rows[key_of(created[j])->0] == created[j]);
    }
    assert forall|r: RecordView| created.contains(r) && in_partition(
        r,
        index,
        value,
    ) implies listed.contains(r) by {
        let j = choose|j: int| 0 <= j < created.len() && created[j] == r;
        let k = key_of(created[j])->0;
        assert(rows.contains_key(k) && rows[k] == r);
        let i = choose|i: int| 0 <= i < listed.len() && #[trigger] key_of(listed[i]) == Some(k);
        assert(rows[key_of(listed[i])->0] == listed[i]);
    }
    assert forall|i: int, j: int| 0 <= i < listed.len() && 0 <= j < listed.len() && i
        != j implies listed[i] != listed[j] by {
        if i < j {
            assert(key_of(listed[i]) != key_of(listed[j]));
        } else {
            assert(key_of(listed[j]) != key_of(listed[i]));
        }
    }
}

/// Creating one more record with a key of its own adds it to the listing
/// of its partition and changes no other listing.
pub proof fn law_create_extends_listing(
    rows: TableView,
    listed: Seq<RecordView>,
    record: RecordView,
    index: Index,
    value: Seq<char>,
)
    requires
        is_listing(listed, rows, index, value),
        key_of(record) is Some,
        !rows.contains_key(key_of(record)->0),
    ensures
        is_listing(
            if in_partition(record, index, value) {
                listed.push(record)
            } else {
                listed
            },
            rows.insert(key_of(record)->0, record),
            index,
            value,
        ),
{
    let key = key_of(record)->0;
    let after = rows.insert(key, record);
    let longer = if in_partition(record, index, value) {
        listed.push(record)
    } else {
        listed
    };
    assert forall|i: int| 0 <= i < longer.len() implies {
        &&& (#[trigger] key_of(longer[i])) matches Some(k)
        &&& after.contains_key(k)
        &&& after[k] == longer[i]
        &&& in_partition(longer[i], index, value)
    } by {
        if i < listed.len() {
            assert(longer[i] == listed[i]);
            assert(key_of(listed[i]) is Some);
        }
    }
    assert forall|i: int, j: int| 0 <= i < j < longer.len() implies key_of(longer[i]) != key_of(
        longer[j],
    ) by {
        assert(longer[i] == listed[i]);
        assert(key_of(listed[i]) is Some);
        if j < listed.len() {
            assert(longer[j] == listed[j]);
        }
    }
    assert forall|k: (Seq<char>, Seq<char>)| #[trigger]
        after.contains_key(k) && in_partition(after[k], index, value) implies exists|i: int|
        0 <= i < longer.len() && #[trigger] key_of(longer[i]) == Some(k) by {
        if k == key {
            assert(key_of(longer[listed.len() as int]) == Some(k));
        } else {
            assert(rows.contains_key(k));
            let i = choose|i: int| 0 <= i < listed.len() && #[trigger] key_of(listed[i]) == Some(k);
            assert(longer[i] == listed[i]);
            assert(key_of(longer[i]) == Some(k));
        }
    }
}

/// After a registration the user and its email record lead to each other:
/// the email record names the user, and the user is found under that name.
/// By id the user is found after the first of the two writes already.
pub proof fn law_user_and_email_agree(rows: TableView, u: UserView)
    ensures
        stored_user(with_user_only(rows, u), u.id) == Ok::<UserView, Error>(u),
        stored_user(with_user(rows, u), u.id) == Ok::<UserView, Error>(u),
        stored_email(with_user(rows, u), u.email) == Ok::<EmailView, Error>(email_of(u)),
        user_by_email(with_user(rows, u), u.email) == Ok::<UserView, Error>(u),
{
    lemma_tags();
    lemma_tagged_apart("USER#"@, u.id, "EMAIL#"@, u.email);
    lemma_user_round_trip(u);
    lemma_email_round_trip(email_of(u));
}

/// A deleted record is in no listing any more: no entry of an index
/// outlives the record it was made for.
pub proof fn law_delete_leaves_no_entry(
    rows: TableView,
    key: (Seq<char>, Seq<char>),
    listed: Seq<RecordView>,
    index: Index,
    value: Seq<char>,
)
    requires
        is_listing(listed, rows.remove(key), index, value),
    ensures
        forall|i: int| 0 <= i < listed.len() ==> #[trigger] key_of(listed[i]) != Some(key),
{
}

/// What is written under one id leaves what is stored under any other id,
/// of the same kind or of another, as it was.
pub proof fn law_other_keys_untouched(
    rows: TableView,
    tag: Seq<char>,
    id: Seq<char>,
    record: RecordView,
    other_tag: Seq<char>,
    other_id: Seq<char>,
)
    requires
        tag.len() > 0,
        other_tag.len() > 0,
        tag == other_tag ==> id != other_id,
        tag != other_tag ==> tag[0] != other_tag[0],
    ensures
        primary(tag, id) != primary(other_tag, other_id),
        rows.insert(primary(tag, id), record).contains_key(primary(other_tag, other_id))
            == rows.contains_key(primary(other_tag, other_id)),
        rows.insert(primary(tag, id), record)[primary(other_tag, other_id)] == rows[primary(
            other_tag,
            other_id,
        )],
        rows.remove(primary(tag, id)).contains_key(primary(other_tag, other_id))
            == rows.contains_key(primary(other_tag, other_id)),
        rows.remove(primary(tag, id))[primary(other_tag, other_id)] == rows[primary(
            other_tag,
            other_id,
        )],
{
    if tag == other_tag {
        if tag + id == other_tag + other_id {
            lemma_tagged_injective(tag, id, other_id);
        }
    } else {
        lemma_tagged_apart(tag, id, other_tag, other_id);
    }
}

/// Creating an entity of one kind changes no listing of another kind:
/// where a record with a key of its own lies outside a partition, the
/// listing of that partition is the same before and after.
pub proof fn law_kinds_do_not_mix(
    rows: TableView,
    listed: Seq<RecordView>,
    connector: DetailsView,
    team: TeamView,
)
    requires
        is_listing(listed, rows, Index::Gsi2, "TYPE#DATASET"@),
        !rows.contains_key(primary("CONNECTOR#"@, connector.id)),
        !rows.contains_key(primary("TEAM#"@, team.id)),
    ensures
        is_listing(
            listed,
            rows.insert(primary("CONNECTOR#"@, connector.id), connector_record(connector)),
            Index::Gsi2,
            "TYPE#DATASET"@,
        ),
        is_listing(
            listed,
            rows.insert(primary("TEAM#"@, team.id), team_record(team)),
            Index::Gsi2,
            "TYPE#DATASET"@,
        ),
{
    lemma_team_record_key(team, "TYPE#DATASET"@);
    lemma_connector_record_key(connector, "TYPE#DATASET"@);
    lemma_type_partitions();
    law_create_extends_listing(
        rows,
        listed,
        connector_record(connector),
        Index::Gsi2,
        "TYPE#DATASET"@,
    );
    law_create_extends_listing(rows, listed, team_record(team), Index::Gsi2, "TYPE#DATASET"@);
}

/// Whether record `r` holds each of its keys twice and alike: `PK` as `SK`,
/// and in each index the partition as the sort key.
pub open spec fn key_pairs_agree(r: RecordView) -> bool {
    &&& text_of(r, "PK"@) is Some
    &&& text_of(r, "PK"@) == text_of(r, "SK"@)
    &&& text_of(r, "GSI1PK"@) == text_of(r, "GSI1SK"@)
    &&& text_of(r, "GSI2PK"@) == text_of(r, "GSI2SK"@)
}

/// Every record that the codec writes holds each of its keys twice and
/// alike, whatever the entity.
pub proof fn law_key_pairs_agree(
    user: UserView,
    email: EmailView,
    session: SessionView,
    org: OrgView,
    team: TeamView,
    connector: DetailsView,
    dataset: DatasetView,
    schema_json: Seq<char>,
    tags_json: Seq<char>,
    metadata_json: Seq<char>,
)
    ensures
        key_pairs_agree(user_record(user)),
        key_pairs_agree(email_record(email)),
        key_pairs_agree(session_record(session)),
        key_pairs_agree(org_record(org)),
        key_pairs_agree(team_record(team)),
        key_pairs_agree(connector_record(connector)),
        key_pairs_agree(dataset_record(dataset, schema_json, tags_json, metadata_json)),
{
    lemma_attr_names();
}

} // verus!
