use vstd::prelude::*;
use crate::entity::{decode_rows, DatabaseEntity};
use crate::sqlite::query_rows;
use crate::user::User;
use crate::value::{
    bind_opt_i64, bind_u64, bits_of, i64_of, lemma_u64_round_trip, opt_i64_of, opt_i64_param,
    read_bits, read_i64, read_opt_i64, read_text, read_u64, stored, stored_row, text_of, u64_of,
    u64_param, SqlParam, SqlRequest, SqlValue, StoreError,
};

verus! {

/// A party hosted by a user. Coordinates are carried as the IEEE-754 bit
/// patterns of double-precision degrees; nothing here computes with them.
#[derive(Debug, Clone, PartialEq, Eq)]
pub struct Party {
    /// Identifier, absent until the party is first created.
    pub id: Option<i64>,
    /// Identifier of the hosting user.
    pub host_id: i64,
    pub title: String,
    pub description: String,
    /// Bit pattern of the latitude.
    pub latitude: u64,
    /// Bit pattern of the longitude.
    pub longitude: u64,
    pub capacity: u64,
    /// Number of attendees, kept as given: it is not derived from the
    /// attendance records.
    pub attendees: u64,
    pub start_time: u64,
    pub visibility: u64,
}

/// The row layout of the `parties` table.
pub open spec fn party_row_ok(row: Seq<SqlValue>) -> bool {
    &&& row.len() == 10
    &&& opt_i64_of(row[0]) is Some
    &&& i64_of(row[1]) is Some
    &&& text_of(row[2]) is Some
    &&& text_of(row[3]) is Some
    &&& bits_of(row[4]) is Some
    &&& bits_of(row[5]) is Some
    &&& u64_of(row[6]) is Some
    &&& u64_of(row[7]) is Some
    &&& u64_of(row[8]) is Some
    &&& u64_of(row[9]) is Some
}

/// The users joined to the attendance records whose party is the first
/// parameter, user columns only, in order.
pub open spec fn attendees_sql() -> Seq<char> {
    "SELECT users.id, users.username, users.guest_rating, users.host_rating FROM users JOIN attendings ON users.id = attendings.attendee_id WHERE attendings.party_id = ?1;"@
}

impl Party {
    /// What the lookup of this party's attendees sends: the join query, bound
    /// to this party's identifier alone.
    pub fn attendees_request(&self) -> (r: SqlRequest)
        ensures
            r.sql@ == attendees_sql(),
            r.params@ == seq![opt_i64_param(self.id)],
    {
        proof {
            reveal_strlit("SELECT users.id, users.username, users.guest_rating, users.host_rating FROM users JOIN attendings ON users.id = attendings.attendee_id WHERE attendings.party_id = ?1;");
        }
        SqlRequest {
            sql: "SELECT users.id, users.username, users.guest_rating, users.host_rating FROM users JOIN attendings ON users.id = attendings.attendee_id WHERE attendings.party_id = ?1;",
            params: vec![bind_opt_i64(self.id)],
        }
    }

    /// The users attending this party, through the attendance records, in the
    /// store's order; one entry per attendance record, and none when nobody
    /// attends: the rows that `attendees_request` finds, decoded by
    /// `decode_rows`. The `attendees` counter plays no part.
    pub fn get_attendees(&self, conn: &rusqlite::Connection) -> (r: Result<Vec<User>, StoreError>)
        ensures
            r is Err ==> r->Err_0 == StoreError::StorageFailure || r->Err_0 == StoreError::DecodeFailure,
    {
        let request = self.attendees_request();
        match query_rows(conn, request.sql, request.params) {
            Ok(rows) => decode_rows(&rows),
            Err(_) => Err(StoreError::StorageFailure),
        }
    }
}

impl DatabaseEntity for Party {
    open spec fn encode(&self) -> Seq<SqlParam> {
        seq![
            opt_i64_param(self.id),
            SqlParam::Integer(self.host_id),
            SqlParam::Text(self.title),
            SqlParam::Text(self.description),
            u64_param(self.latitude),
            u64_param(self.longitude),
            u64_param(self.capacity),
            u64_param(self.attendees),
            u64_param(self.start_time),
            u64_param(self.visibility),
        ]
    }

    open spec fn decode(row: Seq<SqlValue>) -> Option<Party> {
        if party_row_ok(row) {
            Some(
                Party {
                    id: opt_i64_of(row[0])->0,
                    host_id: i64_of(row[1])->0,
                    title: text_of(row[2])->0,
                    description: text_of(row[3])->0,
                    latitude: bits_of(row[4])->0,
                    longitude: bits_of(row[5])->0,
                    capacity: u64_of(row[6])->0,
                    attendees: u64_of(row[7])->0,
                    start_time: u64_of(row[8])->0,
                    visibility: u64_of(row[9])->0,
                },
            )
        } else {
            None
        }
    }

    open spec fn id_of(&self) -> Option<i64> {
        self.id
    }

    open spec fn with_id(&self, id: Option<i64>) -> Party {
        Party { id, ..*self }
    }

    proof fn lemma_round_trip(&self) {
        lemma_u64_round_trip(self.latitude);
        lemma_u64_round_trip(self.longitude);
        lemma_u64_round_trip(self.capacity);
        lemma_u64_round_trip(self.attendees);
        lemma_u64_round_trip(self.start_time);
        lemma_u64_round_trip(self.visibility);
        let row = stored_row(self.encode());
        assert(row[0] == stored(opt_i64_param(self.id)));
        assert(row[1] == stored(SqlParam::Integer(self.host_id)));
        assert(row[2] == stored(SqlParam::Text(self.title)));
        assert(row[3] == stored(SqlParam::Text(self.description)));
        assert(row[4] == stored(u64_param(self.latitude)));
        assert(row[5] == stored(u64_param(self.longitude)));
        assert(row[6] == stored(u64_param(self.capacity)));
        assert(row[7] == stored(u64_param(self.attendees)));
        assert(row[8] == stored(u64_param(self.start_time)));
        assert(row[9] == stored(u64_param(self.visibility)));
    }

    proof fn lemma_with_id(&self, a: Option<i64>, b: Option<i64>) {
    }

    proof fn lemma_encode_with_id(&self, id: Option<i64>) {
        assert(self.with_id(id).encode() =~= self.encode().update(0, opt_i64_param(id)));
    }

    open spec fn insert_sql() -> Seq<char> {
        "INSERT INTO parties VALUES (?1, ?2, ?3, ?4, ?5, ?6, ?7, ?8, ?9, ?10);"@
    }

    fn insert_statement() -> (r: &'static str) {
        proof {
            reveal_strlit("INSERT INTO parties VALUES (?1, ?2, ?3, ?4, ?5, ?6, ?7, ?8, ?9, ?10);");
        }
        "INSERT INTO parties VALUES (?1, ?2, ?3, ?4, ?5, ?6, ?7, ?8, ?9, ?10);"
    }

    open spec fn update_sql() -> Seq<char> {
        "UPDATE parties SET host_id = ?2, title = ?3, description = ?4, latitude = ?5, longitude = ?6, capacity = ?7, attendees = ?8, start_time = ?9, visibility = ?10 WHERE id = ?1;"@
    }

    fn update_statement() -> (r: &'static str) {
        proof {
            reveal_strlit("UPDATE parties SET host_id = ?2, title = ?3, description = ?4, latitude = ?5, longitude = ?6, capacity = ?7, attendees = ?8, start_time = ?9, visibility = ?10 WHERE id = ?1;");
        }
        "UPDATE parties SET host_id = ?2, title = ?3, description = ?4, latitude = ?5, longitude = ?6, capacity = ?7, attendees = ?8, start_time = ?9, visibility = ?10 WHERE id = ?1;"
    }

    open spec fn select_all_sql() -> Seq<char> {
        "SELECT id, host_id, title, description, latitude, longitude, capacity, attendees, start_time, visibility FROM parties;"@
    }

    fn select_all_statement() -> (r: &'static str) {
        proof {
            reveal_strlit("SELECT id, host_id, title, description, latitude, longitude, capacity, attendees, start_time, visibility FROM parties;");
        }
        "SELECT id, host_id, title, description, latitude, longitude, capacity, attendees, start_time, visibility FROM parties;"
    }

    open spec fn select_by_id_sql() -> Seq<char> {
        "SELECT id, host_id, title, description, latitude, longitude, capacity, attendees, start_time, visibility FROM parties WHERE id = ?1;"@
    }

    fn select_by_id_statement() -> (r: &'static str) {
        proof {
            reveal_strlit("SELECT id, host_id, title, description, latitude, longitude, capacity, attendees, start_time, visibility FROM parties WHERE id = ?1;");
        }
        "SELECT id, host_id, title, description, latitude, longitude, capacity, attendees, start_time, visibility FROM parties WHERE id = ?1;"
    }

    fn as_params(&self) -> (r: Vec<SqlParam>) {
        let mut r: Vec<SqlParam> = Vec::new();
        r.push(bind_opt_i64(self.id));
        r.push(SqlParam::Integer(self.host_id));
        r.push(SqlParam::Text(self.title.clone()));
        r.push(SqlParam::Text(self.description.clone()));
        r.push(bind_u64(self.latitude));
        r.push(bind_u64(self.longitude));
        r.push(bind_u64(self.capacity));
        r.push(bind_u64(self.attendees));
        r.push(bind_u64(self.start_time));
        r.push(bind_u64(self.visibility));
        assert(r@ =~= self.encode());
        r
    }

    fn id(&self) -> (r: Option<i64>) {
        self.id
    }

    fn set_id(&mut self, id: Option<i64>) {
        self.id = id;
    }

    fn from_row(row: &Vec<SqlValue>) -> (r: Result<Party, StoreError>) {
        if row.len() != 10 {
            return Err(StoreError::DecodeFailure);
        }
        let (id, host_id, title, description) = (
            read_opt_i64(&row[0]),
            read_i64(&row[1]),
            read_text(&row[2]),
            read_text(&row[3]),
        );
        let (latitude, longitude) = (read_bits(&row[4]), read_bits(&row[5]));
        let (capacity, attendees, start_time, visibility) = (
            read_u64(&row[6]),
            read_u64(&row[7]),
            read_u64(&row[8]),
            read_u64(&row[9]),
        );
        match (id, host_id, title, description, latitude, longitude) {
            (Some(id), Some(host_id), Some(title), Some(description), Some(latitude), Some(longitude)) => {
                match (capacity, attendees, start_time, visibility) {
                    (Some(capacity), Some(attendees), Some(start_time), Some(visibility)) => {
                        Ok(
                            Party {
                                id,
                                host_id,
                                title,
                                description,
                                latitude,
                                longitude,
                                capacity,
                                attendees,
                                start_time,
                                visibility,
                            },
                        )
                    },
                    _ => Err(StoreError::DecodeFailure),
                }
            },
            _ => Err(StoreError::DecodeFailure),
        }
    }
}

} // verus!
