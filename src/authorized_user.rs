use vstd::prelude::*;
use crate::entity::DatabaseEntity;
use crate::value::{
    bind_opt_i64, bind_u64, lemma_u64_round_trip, opt_i64_of, opt_i64_param, read_opt_i64,
    read_text, read_u64, stored, stored_row, text_of, u64_of, u64_param, SqlParam, SqlValue,
    StoreError,
};

verus! {

/// A client authorized to use the service on behalf of a user.
#[derive(Debug, Clone, PartialEq, Eq)]
pub struct AuthorizedUser {
    /// Identifier of the user this authorization belongs to.
    pub id: Option<i64>,
    /// Hash identifying the client.
    pub sec_hash: String,
    /// Key the client presents with its requests.
    pub auth_key: String,
    /// Unix time of the client's last access.
    pub last_accessed: u64,
}

impl DatabaseEntity for AuthorizedUser {
    open spec fn encode(&self) -> Seq<SqlParam> {
        seq![
            opt_i64_param(self.id),
            SqlParam::Text(self.sec_hash),
            SqlParam::Text(self.auth_key),
            u64_param(self.last_accessed),
        ]
    }

    open spec fn decode(row: Seq<SqlValue>) -> Option<AuthorizedUser> {
        if row.len() == 4 && opt_i64_of(row[0]) is Some && text_of(row[1]) is Some
            && text_of(row[2]) is Some && u64_of(row[3]) is Some {
            Some(
                AuthorizedUser {
                    id: opt_i64_of(row[0])->0,
                    sec_hash: text_of(row[1])->0,
                    auth_key: text_of(row[2])->0,
                    last_accessed: u64_of(row[3])->0,
                },
            )
        } else {
            None
        }
    }

    open spec fn id_of(&self) -> Option<i64> {
        self.id
    }

    open spec fn with_id(&self, id: Option<i64>) -> AuthorizedUser {
        AuthorizedUser { id, ..*self }
    }

    proof fn lemma_round_trip(&self) {
        lemma_u64_round_trip(self.last_accessed);
        let row = stored_row(self.encode());
        assert(row[0] == stored(opt_i64_param(self.id)));
        assert(row[1] == stored(SqlParam::Text(self.sec_hash)));
        assert(row[2] == stored(SqlParam::Text(self.auth_key)));
        assert(row[3] == stored(u64_param(self.last_accessed)));
    }

    proof fn lemma_with_id(&self, a: Option<i64>, b: Option<i64>) {
    }

    proof fn lemma_encode_with_id(&self, id: Option<i64>) {
        assert(self.with_id(id).encode() =~= self.encode().update(0, opt_i64_param(id)));
    }

    open spec fn insert_sql() -> Seq<char> {
        "INSERT INTO authorized_users VALUES (?1, ?2, ?3, ?4);"@
    }

    fn insert_statement() -> (r: &'static str) {
        proof {
            reveal_strlit("INSERT INTO authorized_users VALUES (?1, ?2, ?3, ?4);");
        }
        "INSERT INTO authorized_users VALUES (?1, ?2, ?3, ?4);"
    }

    open spec fn update_sql() -> Seq<char> {
        "UPDATE authorized_users SET sec_hash = ?2, auth_key = ?3, last_accessed = ?4 WHERE id = ?1;"@
    }

    fn update_statement() -> (r: &'static str) {
        proof {
            reveal_strlit("UPDATE authorized_users SET sec_hash = ?2, auth_key = ?3, last_accessed = ?4 WHERE id = ?1;");
        }
        "UPDATE authorized_users SET sec_hash = ?2, auth_key = ?3, last_accessed = ?4 WHERE id = ?1;"
    }

    open spec fn select_all_sql() -> Seq<char> {
        "SELECT id, sec_hash, auth_key, last_accessed FROM authorized_users;"@
    }

    fn select_all_statement() -> (r: &'static str) {
        proof {
            reveal_strlit("SELECT id, sec_hash, auth_key, last_accessed FROM authorized_users;");
        }
        "SELECT id, sec_hash, auth_key, last_accessed FROM authorized_users;"
    }

    open spec fn select_by_id_sql() -> Seq<char> {
        "SELECT id, sec_hash, auth_key, last_accessed FROM authorized_users WHERE id = ?1;"@
    }

    fn select_by_id_statement() -> (r: &'static str) {
        proof {
            reveal_strlit("SELECT id, sec_hash, auth_key, last_accessed FROM authorized_users WHERE id = ?1;");
        }
        "SELECT id, sec_hash, auth_key, last_accessed FROM authorized_users WHERE id = ?1;"
    }

    fn as_params(&self) -> (r: Vec<SqlParam>) {
        let mut r: Vec<SqlParam> = Vec::new();
        r.push(bind_opt_i64(self.id));
        r.push(SqlParam::Text(self.sec_hash.clone()));
        r.push(SqlParam::Text(self.auth_key.clone()));
        r.push(bind_u64(self.last_accessed));
        assert(r@ =~= self.encode());
        r
    }

    fn id(&self) -> (r: Option<i64>) {
        self.id
    }

    fn set_id(&mut self, id: Option<i64>) {
        self.id = id;
    }

    fn from_row(row: &Vec<SqlValue>) -> (r: Result<AuthorizedUser, StoreError>) {
        if row.len() != 4 {
            return Err(StoreError::DecodeFailure);
        }
        match (read_opt_i64(&row[0]), read_text(&row[1]), read_text(&row[2]), read_u64(&row[3])) {
            (Some(id), Some(sec_hash), Some(auth_key), Some(last_accessed)) => {
                Ok(AuthorizedUser { id, sec_hash, auth_key, last_accessed })
            },
            _ => Err(StoreError::DecodeFailure),
        }
    }
}

} // verus!
