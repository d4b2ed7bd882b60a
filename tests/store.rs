use party_store::attending::Attending;
use party_store::authorized_user::AuthorizedUser;
use party_store::entity::{DatabaseEntity, EntityStore};
use party_store::party::Party;
use party_store::routes::{
    endpoint_create_party, endpoint_create_user, endpoint_get_all_parties, endpoint_get_all_users,
    endpoint_get_parties_of_user, endpoint_get_party, endpoint_get_user,
    endpoint_get_users_of_party, endpoint_set_attending, endpoint_update_party,
    endpoint_update_user, ping,
};
use party_store::schema::schema_sql;
use party_store::user::User;
use party_store::value::StoreError;
use rusqlite::Connection;

fn store() -> Connection {
    let conn = Connection::open_in_memory().unwrap();
    conn.execute_batch(schema_sql()).unwrap();
    conn
}

fn bbq(host_id: i64) -> Party {
    Party {
        id: None,
        host_id,
        title: "BBQ".to_string(),
        description: "Grill in the yard".to_string(),
        latitude: 52.52f64.to_bits(),
        longitude: 13.405f64.to_bits(),
        capacity: 20,
        attendees: 0,
        start_time: 0,
        visibility: 1,
    }
}

fn alice() -> User {
    User::new("alice".to_string(), None, None)
}

#[test]
fn scenario_attendees_of_party() {
    let conn = store();
    let mut user = alice();
    assert_eq!(user.create(&conn), Ok(1));
    let mut party = bbq(1);
    assert_eq!(party.create(&conn), Ok(1));
    let mut att = Attending::new(1, 1);
    assert_eq!(att.create(&conn), Ok(1));
    let attendees = party.get_attendees(&conn).unwrap();
    assert_eq!(
        attendees,
        vec![User { id: Some(1), username: "alice".to_string(), guest_rating: None, host_rating: None }]
    );
}

#[test]
fn scenario_username_uniqueness() {
    let conn = store();
    let mut user = alice();
    assert_eq!(user.unique_username(&conn), Ok(true));
    user.create(&conn).unwrap();
    assert_eq!(user.unique_username(&conn), Ok(false));
    assert_eq!(User::new("bob".to_string(), None, None).unique_username(&conn), Ok(true));
    assert_eq!(User::new("Alice".to_string(), None, None).unique_username(&conn), Ok(true));
}

#[test]
fn scenario_upcoming_parties_not_filtered_by_start_time() {
    let conn = store();
    let mut user = alice();
    user.create(&conn).unwrap();
    let mut party = bbq(1);
    party.create(&conn).unwrap();
    Attending::new(1, 1).create(&conn).unwrap();
    let parties = user.get_upcoming_parties(&conn).unwrap();
    let mut expected = bbq(1);
    expected.id = Some(1);
    assert_eq!(parties, vec![expected]);
}

#[test]
fn nobody_attends_gives_empty_list() {
    let conn = store();
    let mut party = bbq(1);
    party.create(&conn).unwrap();
    assert_eq!(party.get_attendees(&conn), Ok(vec![]));
}

#[test]
fn create_assigns_fresh_identifiers_that_read_back() {
    let conn = store();
    let mut a = alice();
    a.id = Some(77);
    let id_a = a.create(&conn).unwrap();
    assert_eq!(a.id, Some(id_a));
    assert_eq!(id_a, 1);
    let mut b = User::new("bob".to_string(), Some(3), Some(u64::MAX));
    let id_b = b.create(&conn).unwrap();
    assert_ne!(id_a, id_b);
    assert_eq!(User::get_by_id(&conn, id_a), Ok(a));
    assert_eq!(User::get_by_id(&conn, id_b), Ok(b));
}

#[test]
fn update_twice_is_idempotent() {
    let conn = store();
    let mut p = bbq(1);
    p.create(&conn).unwrap();
    p.title = "Big BBQ".to_string();
    assert_eq!(p.update(&conn), Ok(1));
    let first = Party::get_all(&conn).unwrap();
    assert_eq!(p.update(&conn), Ok(1));
    let second = Party::get_all(&conn).unwrap();
    assert_eq!(first, second);
    assert_eq!(second, vec![p]);
}

#[test]
fn update_of_missing_row_changes_nothing() {
    let conn = store();
    let mut u = alice();
    u.id = Some(5);
    assert_eq!(u.update(&conn), Ok(0));
    assert_eq!(User::get_all(&conn), Ok(vec![]));
}

#[test]
fn update_without_identifier_is_unpersisted() {
    let conn = Connection::open_in_memory().unwrap();
    // No tables: any statement reaching the store would fail.
    let mut u = alice();
    assert_eq!(u.update(&conn), Err(StoreError::Unpersisted));
    assert_eq!(u, alice());
}

#[test]
fn get_by_id_miss_is_not_found() {
    let conn = store();
    assert_eq!(User::get_by_id(&conn, 1), Err(StoreError::NotFound));
    alice().create(&conn).unwrap();
    assert_eq!(User::get_by_id(&conn, 2), Err(StoreError::NotFound));
    assert_eq!(Party::get_by_id(&conn, 1), Err(StoreError::NotFound));
}

#[test]
fn missing_table_is_storage_failure() {
    let conn = Connection::open_in_memory().unwrap();
    let mut u = alice();
    u.id = Some(9);
    assert_eq!(u.create(&conn), Err(StoreError::StorageFailure));
    assert_eq!(u.id, None);
    assert_eq!(User::get_all(&conn), Err(StoreError::StorageFailure));
    assert_eq!(User::get_by_id(&conn, 1), Err(StoreError::StorageFailure));
    assert_eq!(u.unique_username(&conn), Err(StoreError::StorageFailure));
}

#[test]
fn text_in_integer_column_is_decode_failure() {
    let conn = store();
    conn.execute("INSERT INTO attendings VALUES (1, 'x', 2);", ()).unwrap();
    assert_eq!(Attending::get_all(&conn), Err(StoreError::DecodeFailure));
    assert_eq!(Attending::get_by_id(&conn, 1), Err(StoreError::DecodeFailure));
}

#[test]
fn real_coordinates_are_read_as_bit_patterns() {
    let conn = store();
    conn.execute(
        "INSERT INTO parties VALUES (1, 1, 't', 'd', 1.5, -2.25, 3, 0, 0, 0);",
        (),
    )
    .unwrap();
    let p = Party::get_by_id(&conn, 1).unwrap();
    assert_eq!(p.latitude, 1.5f64.to_bits());
    assert_eq!(p.longitude, (-2.25f64).to_bits());
}

#[test]
fn authorized_user_round_trips_through_store() {
    let conn = store();
    let mut a = AuthorizedUser {
        id: None,
        sec_hash: "hash".to_string(),
        auth_key: "key".to_string(),
        last_accessed: 1_700_000_000,
    };
    let id = a.create(&conn).unwrap();
    assert_eq!(AuthorizedUser::get_by_id(&conn, id), Ok(a.clone()));
    a.last_accessed = 1_700_000_100;
    assert_eq!(a.update(&conn), Ok(1));
    assert_eq!(AuthorizedUser::get_all(&conn), Ok(vec![a]));
}

#[test]
fn duplicate_attendance_is_listed_twice() {
    let conn = store();
    alice().create(&conn).unwrap();
    let mut p = bbq(1);
    p.create(&conn).unwrap();
    Attending::new(1, 1).create(&conn).unwrap();
    Attending::new(1, 1).create(&conn).unwrap();
    assert_eq!(p.get_attendees(&conn).unwrap().len(), 2);
}

#[test]
fn endpoints_create_and_fetch_users() {
    let conn = store();
    let created = endpoint_create_user(&conn, alice()).unwrap();
    assert_eq!(created.id, Some(1));
    assert_eq!(endpoint_create_user(&conn, alice()), Err(StoreError::UsernameTaken));
    assert_eq!(endpoint_get_user(&conn, 1), Ok(created.clone()));
    assert_eq!(endpoint_get_all_users(&conn), Ok(vec![created]));
    let mut renamed = User::new("carol".to_string(), Some(4), None);
    assert_eq!(endpoint_update_user(&conn, 1, renamed.clone()), Err(StoreError::Unpersisted));
    renamed.id = Some(1);
    // The record's own identifier keys the update, not the path.
    let updated = endpoint_update_user(&conn, 7, renamed.clone()).unwrap();
    assert_eq!(updated, renamed);
    assert_eq!(endpoint_get_user(&conn, 1), Ok(updated));
    assert_eq!(endpoint_get_user(&conn, 2), Err(StoreError::NotFound));
}

#[test]
fn endpoints_parties_and_attendance() {
    let conn = store();
    endpoint_create_user(&conn, alice()).unwrap();
    let party = endpoint_create_party(&conn, bbq(1)).unwrap();
    assert_eq!(party.id, Some(1));
    let att = endpoint_set_attending(&conn, 1, 1).unwrap();
    assert_eq!(att, Attending { id: Some(1), attendee_id: 1, party_id: 1 });
    assert_eq!(endpoint_get_party(&conn, 1), Ok(party.clone()));
    assert_eq!(endpoint_get_all_parties(&conn), Ok(vec![party.clone()]));
    assert_eq!(endpoint_get_parties_of_user(&conn, 1), Ok(vec![party.clone()]));
    assert_eq!(endpoint_get_users_of_party(&conn, 1).unwrap().len(), 1);
    assert_eq!(endpoint_get_users_of_party(&conn, 2), Err(StoreError::NotFound));
    let mut changed = bbq(1);
    changed.capacity = 50;
    assert_eq!(endpoint_update_party(&conn, 1, changed.clone()), Err(StoreError::Unpersisted));
    changed.id = Some(1);
    let written = endpoint_update_party(&conn, 3, changed.clone()).unwrap();
    assert_eq!(written, changed);
    assert_eq!(endpoint_get_party(&conn, 1).unwrap().capacity, 50);
}

#[test]
fn ping_answers_pong() {
    assert_eq!(ping(), "pong!");
}

#[test]
fn invalid_utf8_text_is_storage_failure() {
    let conn = store();
    conn.execute("INSERT INTO users VALUES (1, CAST(X'FF' AS TEXT), NULL, NULL);", ()).unwrap();
    assert_eq!(User::get_all(&conn), Err(StoreError::StorageFailure));
    assert_eq!(User::get_by_id(&conn, 1), Err(StoreError::StorageFailure));
}

#[test]
fn taken_name_stores_nothing() {
    let conn = store();
    endpoint_create_user(&conn, alice()).unwrap();
    assert_eq!(endpoint_create_user(&conn, alice()), Err(StoreError::UsernameTaken));
    assert_eq!(User::get_all(&conn).unwrap().len(), 1);
}
