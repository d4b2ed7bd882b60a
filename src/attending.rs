use vstd::prelude::*;
use crate::entity::DatabaseEntity;
use crate::value::{
    bind_opt_i64, i64_of, opt_i64_of, opt_i64_param, read_i64, read_opt_i64, stored, stored_row,
    SqlParam, SqlValue, StoreError,
};

verus! {

/// A user's attendance at a party. The same pair may be recorded twice.
#[derive(Debug, Clone, Copy, PartialEq, Eq)]
pub struct Attending {
    /// Identifier, absent until the attendance is first created.
    pub id: Option<i64>,
    /// Identifier of the attending user.
    pub attendee_id: i64,
    /// Identifier of the party attended.
    pub party_id: i64,
}

impl Attending {
    /// An attendance of user `uid` at party `pid`, not yet stored.
    pub fn new(pid: i64, uid: i64) -> (r: Attending)
        ensures
            r == (Attending { id: None, attendee_id: uid, party_id: pid }),
    {
        Attending { id: None, party_id: pid, attendee_id: uid }
    }
}

impl DatabaseEntity for Attending {
    open spec fn encode(&self) -> Seq<SqlParam> {
        seq![
            opt_i64_param(self.id),
            SqlParam::Integer(self.attendee_id),
            SqlParam::Integer(self.party_id),
        ]
    }

    open spec fn decode(row: Seq<SqlValue>) -> Option<Attending> {
        if row.len() == 3 && opt_i64_of(row[0]) is Some && i64_of(row[1]) is Some
            && i64_of(row[2]) is Some {
            Some(
                Attending {
                    id: opt_i64_of(row[0])->0,
                    attendee_id: i64_of(row[1])->0,
                    party_id: i64_of(row[2])->0,
                },
            )
        } else {
            None
        }
    }

    open spec fn id_of(&self) -> Option<i64> {
        self.id
    }

    open spec fn with_id(&self, id: Option<i64>) -> Attending {
        Attending { id, ..*self }
    }

    proof fn lemma_round_trip(&self) {
        let row = stored_row(self.encode());
        assert(row[0] == stored(opt_i64_param(self.id)));
        assert(row[1] == stored(SqlParam::Integer(self.attendee_id)));
        assert(row[2] == stored(SqlParam::Integer(self.party_id)));
    }

    proof fn lemma_with_id(&self, a: Option<i64>, b: Option<i64>) {
    }

    proof fn lemma_encode_with_id(&self, id: Option<i64>) {
        assert(self.with_id(id).encode() =~= self.encode().update(0, opt_i64_param(id)));
    }

    open spec fn insert_sql() -> Seq<char> {
        "INSERT INTO attendings VALUES (?1, ?2, ?3);"@
    }

    fn insert_statement() -> (r: &'static str) {
        proof {
            reveal_strlit("INSERT INTO attendings VALUES (?1, ?2, ?3);");
        }
        "INSERT INTO attendings VALUES (?1, ?2, ?3);"
    }

    open spec fn update_sql() -> Seq<char> {
        "UPDATE attendings SET attendee_id = ?2, party_id = ?3 WHERE id = ?1;"@
    }

    fn update_statement() -> (r: &'static str) {
        proof {
            reveal_strlit("UPDATE attendings SET attendee_id = ?2, party_id = ?3 WHERE id = ?1;");
        }
        "UPDATE attendings SET attendee_id = ?2, party_id = ?3 WHERE id = ?1;"
    }

    open spec fn select_all_sql() -> Seq<char> {
        "SELECT id, attendee_id, party_id FROM attendings;"@
    }

    fn select_all_statement() -> (r: &'static str) {
        proof {
            reveal_strlit("SELECT id, attendee_id, party_id FROM attendings;");
        }
        "SELECT id, attendee_id, party_id FROM attendings;"
    }

    open spec fn select_by_id_sql() -> Seq<char> {
        "SELECT id, attendee_id, party_id FROM attendings WHERE id = ?1;"@
    }

    fn select_by_id_statement() -> (r: &'static str) {
        proof {
            reveal_strlit("SELECT id, attendee_id, party_id FROM attendings WHERE id = ?1;");
        }
        "SELECT id, attendee_id, party_id FROM attendings WHERE id = ?1;"
    }

    fn as_params(&self) -> (r: Vec<SqlParam>) {
        let mut r: Vec<SqlParam> = Vec::new();
        r.push(bind_opt_i64(self.id));
        r.push(SqlParam::Integer(self.attendee_id));
        r.push(SqlParam::Integer(self.party_id));
        assert(r@ =~= self.encode());
        r
    }

    fn id(&self) -> (r: Option<i64>) {
        self.id
    }

    fn set_id(&mut self, id: Option<i64>) {
        self.id = id;
    }

    fn from_row(row: &Vec<SqlValue>) -> (r: Result<Attending, StoreError>) {
        if row.len() != 3 {
            return Err(StoreError::DecodeFailure);
        }
        match (read_opt_i64(&row[0]), read_i64(&row[1]), read_i64(&row[2])) {
            (Some(id), Some(attendee_id), Some(party_id)) => Ok(Attending { id, attendee_id, party_id }),
            _ => Err(StoreError::DecodeFailure),
        }
    }
}

} // verus!
