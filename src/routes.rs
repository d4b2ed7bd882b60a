use vstd::prelude::*;
use crate::attending::Attending;
use crate::entity::{DatabaseEntity, EntityStore};
use crate::party::Party;
use crate::user::{admit_username, User};
use crate::value::StoreError;

verus! {

/// Every stored user.
pub fn endpoint_get_all_users(conn: &rusqlite::Connection) -> (r: Result<Vec<User>, StoreError>)
    ensures
        r is Err ==> r->Err_0 == StoreError::StorageFailure || r->Err_0 == StoreError::DecodeFailure,
{
    User::get_all(conn)
}

/// The parties that the user with identifier `id` attends.
pub fn endpoint_get_parties_of_user(conn: &rusqlite::Connection, id: u64) -> (r: Result<Vec<Party>, StoreError>)
    ensures
        r is Err ==> r->Err_0 != StoreError::Unpersisted && r->Err_0 != StoreError::UsernameTaken,
{
    match User::get_by_id(conn, #[verifier::truncate] (id as i64)) {
        Ok(user) => user.get_upcoming_parties(conn),
        Err(e) => Err(e),
    }
}

/// The user with identifier `id`.
pub fn endpoint_get_user(conn: &rusqlite::Connection, id: u64) -> (r: Result<User, StoreError>)
    ensures
        r is Err ==> r->Err_0 != StoreError::Unpersisted && r->Err_0 != StoreError::UsernameTaken,
{
    User::get_by_id(conn, #[verifier::truncate] (id as i64))
}

/// Registers a new user under a name no stored user has, and returns it with
/// the identifier it was given. Whether it goes on is what `admit_username`
/// makes of the uniqueness check: a taken name gives `UsernameTaken`, and
/// nothing is sent to the store after the check.
pub fn endpoint_create_user(conn: &rusqlite::Connection, user: User) -> (r: Result<User, StoreError>)
    ensures
        r is Ok ==> r->Ok_0.id is Some && r->Ok_0 == user.with_id(r->Ok_0.id),
        r is Err ==> r->Err_0 == StoreError::UsernameTaken || r->Err_0 == StoreError::StorageFailure
            || r->Err_0 == StoreError::DecodeFailure,
{
    let mut user = user;
    match admit_username(user.unique_username(conn)) {
        Ok(()) => {},
        Err(e) => {
            return Err(e);
        },
    }
    match user.create(conn) {
        Ok(_) => Ok(user),
        Err(e) => Err(e),
    }
}

/// Overwrites the stored user that has `user`'s own identifier by `user`, and
/// returns it. The path identifier `id` does not choose the row. No row
/// changing is not an error; a user without an identifier is `Unpersisted`.
pub fn endpoint_update_user(conn: &rusqlite::Connection, id: u64, user: User) -> (r: Result<User, StoreError>)
    ensures
        r is Ok ==> r->Ok_0 == user,
        user.id is None <==> r == Err::<User, StoreError>(StoreError::Unpersisted),
        r is Err ==> r->Err_0 == StoreError::Unpersisted || r->Err_0 == StoreError::StorageFailure,
{
    let mut user = user;
    match user.update(conn) {
        Ok(_) => Ok(user),
        Err(e) => Err(e),
    }
}

/// Liveness probe.
pub fn ping() -> (r: &'static str)
    ensures
        r@ == "pong!"@,
{
    proof {
        reveal_strlit("pong!");
    }
    "pong!"
}

/// The users attending the party with identifier `id`.
pub fn endpoint_get_users_of_party(conn: &rusqlite::Connection, id: u64) -> (r: Result<Vec<User>, StoreError>)
    ensures
        r is Err ==> r->Err_0 != StoreError::Unpersisted && r->Err_0 != StoreError::UsernameTaken,
{
    match Party::get_by_id(conn, #[verifier::truncate] (id as i64)) {
        Ok(party) => party.get_attendees(conn),
        Err(e) => Err(e),
    }
}

/// Records that user `uid` attends party `pid`, and returns the stored record.
pub fn endpoint_set_attending(conn: &rusqlite::Connection, pid: u64, uid: u64) -> (r: Result<Attending, StoreError>)
    ensures
        r is Ok ==> r->Ok_0.id is Some && r->Ok_0.party_id == pid as i64 && r->Ok_0.attendee_id
            == uid as i64,
        r is Err ==> r->Err_0 == StoreError::StorageFailure,
{
    let mut attending = Attending::new(#[verifier::truncate] (pid as i64), #[verifier::truncate] (uid as i64));
    match attending.create(conn) {
        Ok(_) => Ok(attending),
        Err(e) => Err(e),
    }
}

/// Every stored party.
pub fn endpoint_get_all_parties(conn: &rusqlite::Connection) -> (r: Result<Vec<Party>, StoreError>)
    ensures
        r is Err ==> r->Err_0 == StoreError::StorageFailure || r->Err_0 == StoreError::DecodeFailure,
{
    Party::get_all(conn)
}

/// The party with identifier `id`.
pub fn endpoint_get_party(conn: &rusqlite::Connection, id: u64) -> (r: Result<Party, StoreError>)
    ensures
        r is Err ==> r->Err_0 != StoreError::Unpersisted && r->Err_0 != StoreError::UsernameTaken,
{
    Party::get_by_id(conn, #[verifier::truncate] (id as i64))
}

/// Stores a new party and returns it with the identifier it was given.
pub fn endpoint_create_party(conn: &rusqlite::Connection, party: Party) -> (r: Result<Party, StoreError>)
    ensures
        r is Ok ==> r->Ok_0.id is Some && r->Ok_0 == party.with_id(r->Ok_0.id),
        r is Err ==> r->Err_0 == StoreError::StorageFailure,
{
    let mut party = party;
    match party.create(conn) {
        Ok(_) => Ok(party),
        Err(e) => Err(e),
    }
}

/// Overwrites the stored party that has `party`'s own identifier by `party`,
/// and returns it. The path identifier `id` does not choose the row. No row
/// changing is not an error; a party without an identifier is `Unpersisted`.
pub fn endpoint_update_party(conn: &rusqlite::Connection, id: u64, party: Party) -> (r: Result<Party, StoreError>)
    ensures
        r is Ok ==> r->Ok_0 == party,
        party.id is None <==> r == Err::<Party, StoreError>(StoreError::Unpersisted),
        r is Err ==> r->Err_0 == StoreError::Unpersisted || r->Err_0 == StoreError::StorageFailure,
{
    let mut party = party;
    match party.update(conn) {
        Ok(_) => Ok(party),
        Err(e) => Err(e),
    }
}

} // verus!
