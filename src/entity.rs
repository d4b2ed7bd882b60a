use vstd::prelude::*;
use crate::sqlite::{execute, query_rows};
use crate::value::{opt_i64_param, stored_row, SqlParam, SqlRequest, SqlValue, StoreError};

verus! {

/// The result of decoding every row of a query, in row order: the records,
/// or `DecodeFailure` if any row does not hold a record.
pub open spec fn decoded_all<T: DatabaseEntity>(rows: Seq<Seq<SqlValue>>) -> Result<Seq<T>, StoreError> {
    if forall|i: int| 0 <= i < rows.len() ==> (#[trigger] T::decode(rows[i])) is Some {
        Ok(rows.map_values(|row: Seq<SqlValue>| T::decode(row)->0))
    } else {
        Err(StoreError::DecodeFailure)
    }
}

/// The result of a lookup by identifier, given the rows it found.
pub open spec fn decoded_single<T: DatabaseEntity>(rows: Seq<Seq<SqlValue>>) -> Result<T, StoreError> {
    if rows.len() == 0 {
        Err(StoreError::NotFound)
    } else if rows.len() > 1 {
        Err(StoreError::AmbiguousResult)
    } else {
        match T::decode(rows[0]) {
            Some(v) => Ok(v),
            None => Err(StoreError::DecodeFailure),
        }
    }
}

/// Views of a list of rows as sequences of column values.
pub open spec fn rows_view(rows: Seq<Vec<SqlValue>>) -> Seq<Seq<SqlValue>> {
    rows.map_values(|row: Vec<SqlValue>| row@)
}

/// A record kind stored one record per row of its own table, identifier in
/// the first column.
pub trait DatabaseEntity: Sized {
    /// The parameters a record is written with, in column order.
    spec fn encode(&self) -> Seq<SqlParam>;

    /// The record a row holds, if it has the record's shape.
    spec fn decode(row: Seq<SqlValue>) -> Option<Self>;

    /// The record's identifier.
    spec fn id_of(&self) -> Option<i64>;

    /// The record with its identifier replaced and every other field kept.
    spec fn with_id(&self, id: Option<i64>) -> Self;

    /// Decoding the row a record is stored as gives the record back.
    proof fn lemma_round_trip(&self)
        ensures
            Self::decode(stored_row(self.encode())) == Some(*self),
    ;

    /// Replacing the identifier sets it, and only the last replacement counts.
    proof fn lemma_with_id(&self, a: Option<i64>, b: Option<i64>)
        ensures
            self.with_id(a).id_of() == a,
            self.with_id(a).with_id(b) == self.with_id(b),
            self.id_of() == a ==> self.with_id(a) == *self,
    ;

    /// The parameters of a record with another identifier differ from the
    /// record's own in the first, identifier, column alone.
    proof fn lemma_encode_with_id(&self, id: Option<i64>)
        ensures
            self.encode().len() > 0,
            self.with_id(id).encode() == self.encode().update(0, opt_i64_param(id)),
    ;

    /// An insert of one full row, parameters in column order.
    spec fn insert_sql() -> Seq<char>;

    /// A replace of every column but the first, of the row whose identifier
    /// is the first parameter; parameters in column order.
    spec fn update_sql() -> Seq<char>;

    /// A query for every row of the table, columns in order.
    spec fn select_all_sql() -> Seq<char>;

    /// A query for the rows whose identifier is the first parameter, columns
    /// in order.
    spec fn select_by_id_sql() -> Seq<char>;

    fn insert_statement() -> (r: &'static str)
        ensures
            r@ == Self::insert_sql(),
    ;

    fn update_statement() -> (r: &'static str)
        ensures
            r@ == Self::update_sql(),
    ;

    fn select_all_statement() -> (r: &'static str)
        ensures
            r@ == Self::select_all_sql(),
    ;

    fn select_by_id_statement() -> (r: &'static str)
        ensures
            r@ == Self::select_by_id_sql(),
    ;

    fn as_params(&self) -> (r: Vec<SqlParam>)
        ensures
            r@ == self.encode(),
    ;

    fn id(&self) -> (r: Option<i64>)
        ensures
            r == self.id_of(),
    ;

    fn set_id(&mut self, id: Option<i64>)
        ensures
            *final(self) == old(self).with_id(id),
    ;

    fn from_row(row: &Vec<SqlValue>) -> (r: Result<Self, StoreError>)
        ensures
            r == match Self::decode(row@) {
                Some(v) => Ok::<Self, StoreError>(v),
                None => Err(StoreError::DecodeFailure),
            },
    ;

}

/// Decodes every row of a query result, in order.
pub fn decode_rows<T: DatabaseEntity>(rows: &Vec<Vec<SqlValue>>) -> (r: Result<Vec<T>, StoreError>)
    ensures
        match r {
            Ok(v) => decoded_all::<T>(rows_view(rows@)) == Ok::<Seq<T>, StoreError>(v@),
            Err(e) => decoded_all::<T>(rows_view(rows@)) == Err::<Seq<T>, StoreError>(e),
        },
{
    let mut out: Vec<T> = Vec::new();
    let mut i: usize = 0;
    while i < rows.len()
        invariant
            i <= rows@.len(),
            out@.len() == i,
            forall|j: int| 0 <= j < i ==> T::decode(rows@[j]@) == Some(#[trigger] out@[j]),
        decreases rows@.len() - i,
    {
        match T::from_row(&rows[i]) {
            Ok(v) => out.push(v),
            Err(e) => {
                proof {
                    let vs = rows_view(rows@);
                    assert(T::decode(vs[i as int]) is None);
                }
                return Err(e);
            },
        }
        i = i + 1;
    }
    proof {
        let vs = rows_view(rows@);
        assert forall|j: int| 0 <= j < vs.len() implies (#[trigger] T::decode(vs[j])) is Some by {
            assert(T::decode(rows@[j]@) == Some(out@[j]));
        }
        assert(vs.map_values(|row: Seq<SqlValue>| T::decode(row)->0) =~= out@);
    }
    Ok(out)
}

/// Decodes the answer to a lookup by identifier: exactly one row is expected.
pub fn decode_single<T: DatabaseEntity>(rows: &Vec<Vec<SqlValue>>) -> (r: Result<T, StoreError>)
    ensures
        r == decoded_single::<T>(rows_view(rows@)),
{
    if rows.len() == 0 {
        Err(StoreError::NotFound)
    } else if rows.len() > 1 {
        Err(StoreError::AmbiguousResult)
    } else {
        T::from_row(&rows[0])
    }
}

/// The store operations shared by every record kind: create, update, fetch
/// one, fetch all.
pub trait EntityStore: DatabaseEntity {
    /// What an insert of this record sends: the insert statement, with the
    /// record's columns and its identifier cleared, so that the store assigns
    /// a new one and no existing row is overwritten.
    fn insert_request(&self) -> (r: SqlRequest)
        ensures
            r.sql@ == Self::insert_sql(),
            r.params@ == self.with_id(None).encode(),
    {
        let mut params = self.as_params();
        proof {
            self.lemma_encode_with_id(None);
        }
        params.set(0, SqlParam::Null);
        SqlRequest { sql: Self::insert_statement(), params }
    }

    /// What an update of this record sends: the update statement with every
    /// column of the record, keyed by its identifier; nothing for a record
    /// without one.
    fn update_request(&self) -> (r: Option<SqlRequest>)
        ensures
            r is None <==> self.id_of() is None,
            r is Some ==> r->0.sql@ == Self::update_sql() && r->0.params@ == self.encode(),
    {
        if self.id().is_none() {
            return None;
        }
        Some(SqlRequest { sql: Self::update_statement(), params: self.as_params() })
    }

    /// What a fetch of every record sends: the full-table query, unbound.
    fn select_all_request() -> (r: SqlRequest)
        ensures
            r.sql@ == Self::select_all_sql(),
            r.params@ == Seq::<SqlParam>::empty(),
    {
        SqlRequest { sql: Self::select_all_statement(), params: Vec::new() }
    }

    /// What a fetch by identifier sends: the lookup query, bound to `id`.
    fn select_by_id_request(id: i64) -> (r: SqlRequest)
        ensures
            r.sql@ == Self::select_by_id_sql(),
            r.params@ == seq![SqlParam::Integer(id)],
    {
        SqlRequest { sql: Self::select_by_id_statement(), params: vec![SqlParam::Integer(id)] }
    }

    /// Inserts the record as a new row, as `insert_request` gives it, and
    /// gives the record the identifier the store assigned. Any identifier the
    /// record held before is dropped first.
    fn create(&mut self, conn: &rusqlite::Connection) -> (r: Result<i64, StoreError>)
        ensures
            match r {
                Ok(id) => *final(self) == old(self).with_id(Some(id)),
                Err(e) => e == StoreError::StorageFailure && *final(self) == old(self).with_id(None),
            },
            r is Ok ==> final(self).id_of() == Some(r->Ok_0),
    {
        let request = self.insert_request();
        self.set_id(None);
        match execute(conn, request.sql, request.params) {
            Ok(_) => {
                let assigned = conn.last_insert_rowid();
                self.set_id(Some(assigned));
                proof {
                    old(self).lemma_with_id(None, Some(assigned));
                    old(self).lemma_with_id(Some(assigned), Some(assigned));
                }
                Ok(assigned)
            },
            Err(_) => Err(StoreError::StorageFailure),
        }
    }

    /// Overwrites every column of the stored row that has the record's
    /// identifier, as `update_request` gives it, and reports how many rows
    /// changed (0 if none has it). A record without an identifier is refused
    /// before the store is touched.
    fn update(&mut self, conn: &rusqlite::Connection) -> (r: Result<usize, StoreError>)
        ensures
            *final(self) == *old(self),
            old(self).id_of() is None <==> r == Err::<usize, StoreError>(StoreError::Unpersisted),
            r is Err ==> r->Err_0 == StoreError::Unpersisted || r->Err_0 == StoreError::StorageFailure,
    {
        match self.update_request() {
            None => Err(StoreError::Unpersisted),
            Some(request) => match execute(conn, request.sql, request.params) {
                Ok(n) => Ok(n),
                Err(_) => Err(StoreError::StorageFailure),
            },
        }
    }

    /// Every stored record of this kind, in the store's scan order: the rows
    /// that `select_all_request` finds, decoded by `decode_rows`.
    fn get_all(conn: &rusqlite::Connection) -> (r: Result<Vec<Self>, StoreError>)
        ensures
            r is Err ==> r->Err_0 == StoreError::StorageFailure || r->Err_0 == StoreError::DecodeFailure,
    {
        let request = Self::select_all_request();
        match query_rows(conn, request.sql, request.params) {
            Ok(rows) => decode_rows(&rows),
            Err(_) => Err(StoreError::StorageFailure),
        }
    }

    /// The stored record with identifier `id`: the rows that
    /// `select_by_id_request` finds, read by `decode_single`.
    fn get_by_id(conn: &rusqlite::Connection, id: i64) -> (r: Result<Self, StoreError>)
        ensures
            r is Err ==> r->Err_0 == StoreError::StorageFailure || r->Err_0 == StoreError::NotFound
                || r->Err_0 == StoreError::AmbiguousResult || r->Err_0 == StoreError::DecodeFailure,
    {
        let request = Self::select_by_id_request(id);
        match query_rows(conn, request.sql, request.params) {
            Ok(rows) => decode_single(&rows),
            Err(_) => Err(StoreError::StorageFailure),
        }
    }
}

impl<T: DatabaseEntity> EntityStore for T {}

} // verus!
