use vstd::prelude::*;
use crate::entity::{decode_rows, rows_view, DatabaseEntity};
use crate::party::Party;
use crate::sqlite::query_rows;
use crate::value::{
    bind_opt_i64, bind_opt_u64, lemma_u64_round_trip, opt_i64_of, opt_i64_param, opt_u64_of,
    opt_u64_param, read_opt_i64, read_opt_u64, read_text, stored, stored_row, text_of, SqlParam,
    SqlRequest, SqlValue, StoreError, i64_of, read_i64,
};

verus! {

/// A registered user.
#[derive(Debug, Clone, PartialEq, Eq)]
pub struct User {
    /// Identifier, absent until the user is first created.
    pub id: Option<i64>,
    /// Unique user name.
    pub username: String,
    /// Rating as a guest, absent until the first review.
    pub guest_rating: Option<u64>,
    /// Rating as a host, absent until the first review.
    pub host_rating: Option<u64>,
}

impl User {
    /// A user not yet stored.
    pub fn new(username: String, guest_rating: Option<u64>, host_rating: Option<u64>) -> (r: User)
        ensures
            r == (User { id: None, username, guest_rating, host_rating }),
    {
        User { id: None, username, guest_rating, host_rating }
    }
}

/// What the answer to a count query says of a user name: free exactly when
/// the single count it holds is zero.
pub open spec fn count_says_unique(rows: Seq<Seq<SqlValue>>) -> Result<bool, StoreError> {
    if rows.len() == 1 && rows[0].len() == 1 && i64_of(rows[0][0]) is Some {
        Ok(i64_of(rows[0][0])->0 == 0)
    } else {
        Err(StoreError::DecodeFailure)
    }
}

/// Reads the answer to a count query: `Ok(true)` exactly when it is a single
/// count of zero.
pub fn unique_from_count(rows: &Vec<Vec<SqlValue>>) -> (r: Result<bool, StoreError>)
    ensures
        r == count_says_unique(rows_view(rows@)),
{
    if rows.len() != 1 || rows[0].len() != 1 {
        return Err(StoreError::DecodeFailure);
    }
    match read_i64(&rows[0][0]) {
        Some(n) => Ok(n == 0),
        None => Err(StoreError::DecodeFailure),
    }
}

/// A count of the users whose name is the first parameter.
pub open spec fn username_count_sql() -> Seq<char> {
    "SELECT COUNT(*) FROM users WHERE username = ?1;"@
}

/// The parties joined to the attendance records whose attendee is the first
/// parameter, party columns only, in order.
pub open spec fn upcoming_parties_sql() -> Seq<char> {
    "SELECT parties.id, parties.host_id, parties.title, parties.description, parties.latitude, parties.longitude, parties.capacity, parties.attendees, parties.start_time, parties.visibility FROM parties JOIN attendings ON parties.id = attendings.party_id WHERE attendings.attendee_id = ?1;"@
}

/// Whether a new user may be created, given what the uniqueness check
/// answered: only a free name lets the create go on.
pub fn admit_username(unique: Result<bool, StoreError>) -> (r: Result<(), StoreError>)
    ensures
        r == match unique {
            Ok(true) => Ok::<(), StoreError>(()),
            Ok(false) => Err(StoreError::UsernameTaken),
            Err(e) => Err(e),
        },
{
    match unique {
        Ok(true) => Ok(()),
        Ok(false) => Err(StoreError::UsernameTaken),
        Err(e) => Err(e),
    }
}

impl User {
    /// What the uniqueness check sends: the count query, bound to this
    /// user's name.
    pub fn username_count_request(&self) -> (r: SqlRequest)
        ensures
            r.sql@ == username_count_sql(),
            r.params@ == seq![SqlParam::Text(self.username)],
    {
        proof {
            reveal_strlit("SELECT COUNT(*) FROM users WHERE username = ?1;");
        }
        SqlRequest {
            sql: "SELECT COUNT(*) FROM users WHERE username = ?1;",
            params: vec![SqlParam::Text(self.username.clone())],
        }
    }

    /// What the lookup of this user's parties sends: the join query, bound
    /// to this user's identifier alone.
    pub fn upcoming_parties_request(&self) -> (r: SqlRequest)
        ensures
            r.sql@ == upcoming_parties_sql(),
            r.params@ == seq![opt_i64_param(self.id)],
    {
        proof {
            reveal_strlit("SELECT parties.id, parties.host_id, parties.title, parties.description, parties.latitude, parties.longitude, parties.capacity, parties.attendees, parties.start_time, parties.visibility FROM parties JOIN attendings ON parties.id = attendings.party_id WHERE attendings.attendee_id = ?1;");
        }
        SqlRequest {
            sql: "SELECT parties.id, parties.host_id, parties.title, parties.description, parties.latitude, parties.longitude, parties.capacity, parties.attendees, parties.start_time, parties.visibility FROM parties JOIN attendings ON parties.id = attendings.party_id WHERE attendings.attendee_id = ?1;",
            params: vec![bind_opt_i64(self.id)],
        }
    }

    /// Whether no stored user has this user's name (exact, case-sensitive
    /// match): the answer to `username_count_request`, read by
    /// `unique_from_count`. Nothing stops another user from taking the name
    /// between this check and a later create.
    pub fn unique_username(&self, conn: &rusqlite::Connection) -> (r: Result<bool, StoreError>)
        ensures
            r is Err ==> r->Err_0 == StoreError::StorageFailure || r->Err_0 == StoreError::DecodeFailure,
    {
        let request = self.username_count_request();
        match query_rows(conn, request.sql, request.params) {
            Ok(rows) => unique_from_count(&rows),
            Err(_) => Err(StoreError::StorageFailure),
        }
    }

    /// The parties this user attends, through the attendance records, in the
    /// store's order; one entry per attendance record: the rows that
    /// `upcoming_parties_request` finds, decoded by `decode_rows`. Start times
    /// are not filtered: a party already past is listed too.
    pub fn get_upcoming_parties(&self, conn: &rusqlite::Connection) -> (r: Result<Vec<Party>, StoreError>)
        ensures
            r is Err ==> r->Err_0 == StoreError::StorageFailure || r->Err_0 == StoreError::DecodeFailure,
    {
        let request = self.upcoming_parties_request();
        match query_rows(conn, request.sql, request.params) {
            Ok(rows) => decode_rows(&rows),
            Err(_) => Err(StoreError::StorageFailure),
        }
    }
}

impl DatabaseEntity for User {
    open spec fn encode(&self) -> Seq<SqlParam> {
        seq![
            opt_i64_param(self.id),
            SqlParam::Text(self.username),
            opt_u64_param(self.guest_rating),
            opt_u64_param(self.host_rating),
        ]
    }

    open spec fn decode(row: Seq<SqlValue>) -> Option<User> {
        if row.len() == 4 && opt_i64_of(row[0]) is Some && text_of(row[1]) is Some
            && opt_u64_of(row[2]) is Some && opt_u64_of(row[3]) is Some {
            Some(
                User {
                    id: opt_i64_of(row[0])->0,
                    username: text_of(row[1])->0,
                    guest_rating: opt_u64_of(row[2])->0,
                    host_rating: opt_u64_of(row[3])->0,
                },
            )
        } else {
            None
        }
    }

    open spec fn id_of(&self) -> Option<i64> {
        self.id
    }

    open spec fn with_id(&self, id: Option<i64>) -> User {
        User { id, ..*self }
    }

    proof fn lemma_round_trip(&self) {
        if let Some(x) = self.guest_rating {
            lemma_u64_round_trip(x);
        }
        if let Some(x) = self.host_rating {
            lemma_u64_round_trip(x);
        }
        let row = stored_row(self.encode());
        assert(row[0] == stored(opt_i64_param(self.id)));
        assert(row[1] == stored(SqlParam::Text(self.username)));
        assert(row[2] == stored(opt_u64_param(self.guest_rating)));
        assert(row[3] == stored(opt_u64_param(self.host_rating)));
    }

    proof fn lemma_with_id(&self, a: Option<i64>, b: Option<i64>) {
    }

    proof fn lemma_encode_with_id(&self, id: Option<i64>) {
        assert(self.with_id(id).encode() =~= self.encode().update(0, opt_i64_param(id)));
    }

    open spec fn insert_sql() -> Seq<char> {
        "INSERT INTO users VALUES (?1, ?2, ?3, ?4);"@
    }

    fn insert_statement() -> (r: &'static str) {
        proof {
            reveal_strlit("INSERT INTO users VALUES (?1, ?2, ?3, ?4);");
        }
        "INSERT INTO users VALUES (?1, ?2, ?3, ?4);"
    }

    open spec fn update_sql() -> Seq<char> {
        "UPDATE users SET username = ?2, guest_rating = ?3, host_rating = ?4 WHERE id = ?1;"@
    }

    fn update_statement() -> (r: &'static str) {
        proof {
            reveal_strlit("UPDATE users SET username = ?2, guest_rating = ?3, host_rating = ?4 WHERE id = ?1;");
        }
        "UPDATE users SET username = ?2, guest_rating = ?3, host_rating = ?4 WHERE id = ?1;"
    }

    open spec fn select_all_sql() -> Seq<char> {
        "SELECT id, username, guest_rating, host_rating FROM users;"@
    }

    fn select_all_statement() -> (r: &'static str) {
        proof {
            reveal_strlit("SELECT id, username, guest_rating, host_rating FROM users;");
        }
        "SELECT id, username, guest_rating, host_rating FROM users;"
    }

    open spec fn select_by_id_sql() -> Seq<char> {
        "SELECT id, username, guest_rating, host_rating FROM users WHERE id = ?1;"@
    }

    fn select_by_id_statement() -> (r: &'static str) {
        proof {
            reveal_strlit("SELECT id, username, guest_rating, host_rating FROM users WHERE id = ?1;");
        }
        "SELECT id, username, guest_rating, host_rating FROM users WHERE id = ?1;"
    }

    fn as_params(&self) -> (r: Vec<SqlParam>) {
        let mut r: Vec<SqlParam> = Vec::new();
        r.push(bind_opt_i64(self.id));
        r.push(SqlParam::Text(self.username.clone()));
        r.push(bind_opt_u64(self.guest_rating));
        r.push(bind_opt_u64(self.host_rating));
        assert(r@ =~= self.encode());
        r
    }

    fn id(&self) -> (r: Option<i64>) {
        self.id
    }

    fn set_id(&mut self, id: Option<i64>) {
        self.id = id;
    }

    fn from_row(row: &Vec<SqlValue>) -> (r: Result<User, StoreError>) {
        if row.len() != 4 {
            return Err(StoreError::DecodeFailure);
        }
        let id = read_opt_i64(&row[0]);
        let username = read_text(&row[1]);
        let guest_rating = read_opt_u64(&row[2]);
        let host_rating = read_opt_u64(&row[3]);
        match (id, username, guest_rating, host_rating) {
            (Some(id), Some(username), Some(guest_rating), Some(host_rating)) => {
                Ok(User { id, username, guest_rating, host_rating })
            },
            _ => Err(StoreError::DecodeFailure),
        }
    }
}

} // verus!
