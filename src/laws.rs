use vstd::prelude::*;
use crate::entity::{decoded_single, DatabaseEntity};
use crate::value::{stored_row, SqlParam, SqlValue, StoreError};

verus! {

/// Decoding the row a record is written as gives the record back, whether its
/// identifier is absent or present.
pub proof fn round_trip<T: DatabaseEntity>(record: T, id: Option<i64>)
    ensures
        T::decode(stored_row(record.encode())) == Some(record),
        T::decode(stored_row(record.with_id(id).encode())) == Some(record.with_id(id)),
{
    record.lemma_round_trip();
    record.with_id(id).lemma_round_trip();
}

/// The row a created record is written with, read back by identifier, is the
/// record with the identifier the store assigned, and that identifier is
/// present.
pub proof fn created_row_reads_back<T: DatabaseEntity>(record: T, assigned: i64)
    ensures
        decoded_single::<T>(seq![stored_row(record.with_id(Some(assigned)).encode())])
            == Ok::<T, StoreError>(record.with_id(Some(assigned))),
        record.with_id(Some(assigned)).id_of() == Some(assigned),
{
    record.with_id(Some(assigned)).lemma_round_trip();
    record.lemma_with_id(Some(assigned), Some(assigned));
}

/// An insert goes out with the identifier column empty, whatever identifier
/// the record held, and every other column as the record has it: the store
/// assigns the identifier, so an insert never replaces an existing row.
pub proof fn insert_carries_no_identifier<T: DatabaseEntity>(record: T)
    ensures
        record.with_id(None).encode()[0] == SqlParam::Null,
        record.with_id(None).encode() == record.encode().update(0, SqlParam::Null),
{
    record.lemma_encode_with_id(None);
}

/// The row an update writes depends on the record's content alone: equal
/// records write equal rows, and equal rows come only from equal records.
pub proof fn update_row_determined_by_content<T: DatabaseEntity>(a: T, b: T)
    ensures
        a == b ==> stored_row(a.encode()) == stored_row(b.encode()),
        stored_row(a.encode()) == stored_row(b.encode()) ==> a == b,
{
    a.lemma_round_trip();
    b.lemma_round_trip();
}

/// A lookup by identifier that finds no row is `NotFound`, never a record.
pub proof fn lookup_miss_is_not_found<T: DatabaseEntity>()
    ensures
        decoded_single::<T>(Seq::<Seq<SqlValue>>::empty()) == Err::<T, StoreError>(StoreError::NotFound),
{
}

} // verus!
