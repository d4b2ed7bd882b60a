use party_store::attending::Attending;
use party_store::authorized_user::AuthorizedUser;
use party_store::entity::{decode_rows, decode_single, DatabaseEntity, EntityStore};
use party_store::party::Party;
use party_store::user::{admit_username, unique_from_count, User};
use party_store::value::{SqlParam, SqlValue, StoreError};

fn as_row(params: Vec<SqlParam>) -> Vec<SqlValue> {
    params
        .into_iter()
        .map(|p| match p {
            SqlParam::Null => SqlValue::Null,
            SqlParam::Integer(i) => SqlValue::Integer(i),
            SqlParam::Text(s) => SqlValue::Text(s),
        })
        .collect()
}

fn sample_party() -> Party {
    Party {
        id: Some(3),
        host_id: -4,
        title: "t".to_string(),
        description: "".to_string(),
        latitude: (-33.8688f64).to_bits(),
        longitude: 151.2093f64.to_bits(),
        capacity: u64::MAX,
        attendees: 1 << 63,
        start_time: 1_700_000_000,
        visibility: 2,
    }
}

#[test]
fn user_round_trip_with_and_without_id() {
    let mut u = User::new("alice".to_string(), Some(u64::MAX), None);
    assert_eq!(User::from_row(&as_row(u.as_params())), Ok(u.clone()));
    u.set_id(Some(i64::MIN));
    assert_eq!(User::from_row(&as_row(u.as_params())), Ok(u));
}

#[test]
fn party_round_trip_with_and_without_id() {
    let mut p = sample_party();
    assert_eq!(Party::from_row(&as_row(p.as_params())), Ok(p.clone()));
    p.set_id(None);
    assert_eq!(Party::from_row(&as_row(p.as_params())), Ok(p));
}

#[test]
fn attending_and_authorized_user_round_trip() {
    let a = Attending::new(7, 8);
    assert_eq!(Attending::from_row(&as_row(a.as_params())), Ok(a));
    let au = AuthorizedUser {
        id: Some(1),
        sec_hash: "h".to_string(),
        auth_key: "k".to_string(),
        last_accessed: u64::MAX - 1,
    };
    assert_eq!(AuthorizedUser::from_row(&as_row(au.as_params())), Ok(au));
}

#[test]
fn params_follow_column_order() {
    let u = User::new("bob".to_string(), Some(5), None);
    assert_eq!(
        u.as_params(),
        vec![SqlParam::Null, SqlParam::Text("bob".to_string()), SqlParam::Integer(5), SqlParam::Null]
    );
    let a = Attending::new(2, 9);
    assert_eq!(a.as_params(), vec![SqlParam::Null, SqlParam::Integer(9), SqlParam::Integer(2)]);
    assert_eq!(a.attendee_id, 9);
    assert_eq!(a.party_id, 2);
    let p = sample_party();
    assert_eq!(p.as_params()[6], SqlParam::Integer(-1));
}

#[test]
fn short_or_mistyped_rows_do_not_decode() {
    assert_eq!(User::from_row(&vec![SqlValue::Null]), Err(StoreError::DecodeFailure));
    let row = vec![SqlValue::Null, SqlValue::Integer(1), SqlValue::Null, SqlValue::Null];
    assert_eq!(User::from_row(&row), Err(StoreError::DecodeFailure));
    let row = vec![SqlValue::Text("1".to_string()), SqlValue::Integer(1), SqlValue::Integer(2)];
    assert_eq!(Attending::from_row(&row), Err(StoreError::DecodeFailure));
}

#[test]
fn lookup_results_by_row_count() {
    let row = vec![SqlValue::Integer(1), SqlValue::Integer(2), SqlValue::Integer(3)];
    assert_eq!(decode_single::<Attending>(&vec![]), Err(StoreError::NotFound));
    assert_eq!(
        decode_single::<Attending>(&vec![row.clone()]),
        Ok(Attending { id: Some(1), attendee_id: 2, party_id: 3 })
    );
    assert_eq!(
        decode_single::<Attending>(&vec![row.clone(), row.clone()]),
        Err(StoreError::AmbiguousResult)
    );
    assert_eq!(decode_single::<Attending>(&vec![vec![SqlValue::Null]]), Err(StoreError::DecodeFailure));
}

#[test]
fn decode_rows_keeps_order_and_fails_on_bad_row() {
    let r1 = vec![SqlValue::Integer(1), SqlValue::Integer(2), SqlValue::Integer(3)];
    let r2 = vec![SqlValue::Integer(4), SqlValue::Integer(5), SqlValue::Integer(6)];
    assert_eq!(
        decode_rows::<Attending>(&vec![r1.clone(), r2.clone()]),
        Ok(vec![
            Attending { id: Some(1), attendee_id: 2, party_id: 3 },
            Attending { id: Some(4), attendee_id: 5, party_id: 6 },
        ])
    );
    assert_eq!(decode_rows::<Attending>(&vec![]), Ok(vec![]));
    assert_eq!(
        decode_rows::<Attending>(&vec![r1, vec![SqlValue::Blob(vec![1])]]),
        Err(StoreError::DecodeFailure)
    );
}

#[test]
fn count_answers() {
    assert_eq!(unique_from_count(&vec![vec![SqlValue::Integer(0)]]), Ok(true));
    assert_eq!(unique_from_count(&vec![vec![SqlValue::Integer(2)]]), Ok(false));
    assert_eq!(unique_from_count(&vec![]), Err(StoreError::DecodeFailure));
    assert_eq!(unique_from_count(&vec![vec![SqlValue::Null]]), Err(StoreError::DecodeFailure));
}

#[test]
fn admission_follows_uniqueness_answer() {
    assert_eq!(admit_username(Ok(true)), Ok(()));
    assert_eq!(admit_username(Ok(false)), Err(StoreError::UsernameTaken));
    assert_eq!(admit_username(Err(StoreError::StorageFailure)), Err(StoreError::StorageFailure));
}

#[test]
fn requests_carry_statement_and_parameters() {
    let mut u = User::new("dan".to_string(), Some(2), None);
    u.id = Some(6);
    let ins = u.insert_request();
    assert_eq!(ins.sql, "INSERT INTO users VALUES (?1, ?2, ?3, ?4);");
    assert_eq!(ins.params[0], SqlParam::Null);
    assert_eq!(ins.params[1], SqlParam::Text("dan".to_string()));
    let upd = u.update_request().unwrap();
    assert_eq!(upd.sql, "UPDATE users SET username = ?2, guest_rating = ?3, host_rating = ?4 WHERE id = ?1;");
    assert_eq!(upd.params, u.as_params());
    assert!(User::new("x".to_string(), None, None).update_request().is_none());
    let by_id = Attending::select_by_id_request(4);
    assert_eq!(by_id.params, vec![SqlParam::Integer(4)]);
    assert!(Party::select_all_request().params.is_empty());
    assert_eq!(u.username_count_request().params, vec![SqlParam::Text("dan".to_string())]);
    assert_eq!(u.upcoming_parties_request().params, vec![SqlParam::Integer(6)]);
    assert_eq!(sample_party().attendees_request().params, vec![SqlParam::Integer(3)]);
}
